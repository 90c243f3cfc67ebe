use vstd::prelude::*;

use core::marker::PhantomData;

verus! {

/// Stage of a [`CameraBuilder`] that waits for the camera's pose.
pub struct InputPosition;

/// Stage of a [`CameraBuilder`] that waits for the sensor settings.
pub struct InputSensor;

/// Stage of a [`CameraBuilder`] that waits for the lens settings.
pub struct InputLens;

/// Stage of a [`CameraBuilder`] that holds a complete configuration.
pub struct InputComplete;

/// Resolution and sampling settings of a camera.
#[derive(Clone, Copy, Debug, PartialEq, Eq)]
pub struct Sensor {
    /// Width in pixels.
    pub width: usize,
    /// Height in pixels.
    pub height: usize,
    /// Samples taken for each pixel.
    pub shutter_length: usize,
    /// Bounces a ray may make before it is given up.
    pub max_ray_depth: usize,
}

/// A camera configuration: where it stands and looks (`P`), its sensor, and its
/// lens (`L`).
#[derive(Debug)]
pub struct Camera<P, L> {
    pose: P,
    sensor: Sensor,
    lens: L,
}

/// Mathematical content of a [`Camera`].
pub ghost struct CameraView<P, L> {
    pub pose: P,
    pub sensor: Sensor,
    pub lens: L,
}

impl<P, L> View for Camera<P, L> {
    type V = CameraView<P, L>;

    closed spec fn view(&self) -> CameraView<P, L> {
        CameraView { pose: self.pose, sensor: self.sensor, lens: self.lens }
    }
}

impl<P, L> Camera<P, L> {
    /// A builder that starts from the default pose, a zero sensor and the
    /// default lens; each stage then has to be supplied in turn.
    pub fn builder() -> (r: CameraBuilder<InputPosition, P, L>)
        where P: Default, L: Default
        ensures
            r@.sensor == (Sensor { width: 0, height: 0, shutter_length: 0, max_ray_depth: 0 }),
    {
        CameraBuilder::new(
            Camera {
                pose: P::default(),
                sensor: Sensor { width: 0, height: 0, shutter_length: 0, max_ray_depth: 0 },
                lens: L::default(),
            },
        )
    }

    pub fn pose(&self) -> (r: &P)
        ensures
            *r == self@.pose,
    {
        &self.pose
    }

    pub fn sensor(&self) -> (r: Sensor)
        ensures
            r == self@.sensor,
    {
        self.sensor
    }

    pub fn lens(&self) -> (r: &L)
        ensures
            *r == self@.lens,
    {
        &self.lens
    }
}

/// A camera under construction; the stage `S` decides which input comes next,
/// and only a builder at [`InputComplete`] can be built.
pub struct CameraBuilder<S, P, L> {
    camera: Camera<P, L>,
    state: PhantomData<S>,
}

impl<S, P, L> View for CameraBuilder<S, P, L> {
    type V = CameraView<P, L>;

    closed spec fn view(&self) -> CameraView<P, L> {
        self.camera@
    }
}

impl<P, L> CameraBuilder<InputPosition, P, L> {
    pub fn new(camera: Camera<P, L>) -> (r: Self)
        ensures
            r@ == camera@,
    {
        CameraBuilder { camera, state: PhantomData }
    }

    /// Sets where the camera stands and looks.
    pub fn input_position(self, pose: P) -> (r: CameraBuilder<InputSensor, P, L>)
        ensures
            r@ == (CameraView { pose, ..self@ }),
    {
        let Camera { pose: _, sensor, lens } = self.camera;
        CameraBuilder { camera: Camera { pose, sensor, lens }, state: PhantomData }
    }
}

impl<P, L> CameraBuilder<InputSensor, P, L> {
    /// Sets the resolution, the samples per pixel and the bounce limit.
    pub fn input_sensor(
        self,
        sensor_width: usize,
        sensor_height: usize,
        shutter_length: usize,
        max_ray_depth: usize,
    ) -> (r: CameraBuilder<InputLens, P, L>)
        ensures
            r@ == (CameraView {
                sensor: Sensor {
                    width: sensor_width,
                    height: sensor_height,
                    shutter_length,
                    max_ray_depth,
                },
                ..self@
            }),
    {
        let Camera { pose, sensor: _, lens } = self.camera;
        let sensor = Sensor {
            width: sensor_width,
            height: sensor_height,
            shutter_length,
            max_ray_depth,
        };
        CameraBuilder { camera: Camera { pose, sensor, lens }, state: PhantomData }
    }
}

impl<P, L> CameraBuilder<InputLens, P, L> {
    /// Sets the focus, aperture and field of view.
    pub fn input_lens(self, lens: L) -> (r: CameraBuilder<InputComplete, P, L>)
        ensures
            r@ == (CameraView { lens, ..self@ }),
    {
        let Camera { pose, sensor, lens: _ } = self.camera;
        CameraBuilder { camera: Camera { pose, sensor, lens }, state: PhantomData }
    }
}

impl<P, L> CameraBuilder<InputComplete, P, L> {
    pub fn build(self) -> (r: Camera<P, L>)
        ensures
            r@ == self@,
    {
        self.camera
    }
}

} // verus!
