use vstd::prelude::*;

verus! {

/// A half-line: an origin of point type `P` and a direction of type `D`.
#[derive(Clone, Copy, Debug)]
pub struct Ray<P, D> {
    origin: P,
    direction: D,
}

impl<P, D> Ray<P, D> {
    pub closed spec fn spec_origin(&self) -> P {
        self.origin
    }

    pub closed spec fn spec_direction(&self) -> D {
        self.direction
    }

    #[must_use]
    pub fn new(origin: P, direction: D) -> (r: Self)
        ensures
            r.spec_origin() == origin,
            r.spec_direction() == direction,
    {
        Ray { origin, direction }
    }

    pub fn origin(&self) -> (r: &P)
        ensures
            *r == self.spec_origin(),
    {
        &self.origin
    }

    pub fn direction(&self) -> (r: &D)
        ensures
            *r == self.spec_direction(),
    {
        &self.direction
    }
}

/// What a surface hands back for an incoming ray: the colour factor applied to
/// the light arriving along `scattered`, and that ray.
pub struct RayScatter<C, R> {
    pub attenuation: C,
    pub scattered: R,
}

} // verus!
