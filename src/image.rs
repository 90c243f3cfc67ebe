use vstd::prelude::*;

verus! {

/// Number of cells of a `width` by `height` raster, saturating at `usize::MAX`.
pub open spec fn saturating_area(width: nat, height: nat) -> nat {
    if width * height <= usize::MAX {
        width * height
    } else {
        usize::MAX as nat
    }
}

/// Column of the cell at `index` in row-major order.
pub open spec fn column_of(index: int, width: int) -> int {
    index % width
}

/// Row of the cell at `index` in row-major order.
pub open spec fn row_of(index: int, width: int) -> int {
    index / width
}

/// Row-major layout: the cell in column `x` and row `y` of a raster `width`
/// cells wide sits at index `y * width + x`, and that index gives back `x`
/// and `y`.
pub proof fn lemma_cell_index(x: int, y: int, width: int)
    requires
        0 <= x < width,
        0 <= y,
    ensures
        column_of(y * width + x, width) == x,
        row_of(y * width + x, width) == y,
{
    vstd::arithmetic::div_mod::lemma_fundamental_div_mod_converse(y * width + x, width, y, x);
}

/// Mathematical content of an [`Image`].
pub ghost struct ImageView<P> {
    pub pixels: Seq<P>,
    pub width: nat,
    pub height: nat,
}

/// A `width` by `height` buffer of pixels stored row by row, top-left first.
pub struct Image<P> {
    pixels: Vec<P>,
    width: usize,
    height: usize,
}

impl<P> View for Image<P> {
    type V = ImageView<P>;

    closed spec fn view(&self) -> ImageView<P> {
        ImageView { pixels: self.pixels@, width: self.width as nat, height: self.height as nat }
    }
}

impl<P> Image<P> {
    /// The buffer holds one pixel per cell, as far as `usize` can count them.
    pub open spec fn wf(&self) -> bool {
        self@.pixels.len() == saturating_area(self@.width, self@.height)
    }

    /// An image whose every pixel is `fill`.
    pub fn filled(width: usize, height: usize, fill: P) -> (r: Self)
        where P: Copy
        ensures
            r.wf(),
            r@.width == width,
            r@.height == height,
            forall|i: int| 0 <= i < r@.pixels.len() ==> r@.pixels[i] == fill,
    {
        let area: usize = match width.checked_mul(height) {
            Some(n) => n,
            None => usize::MAX,
        };
        assert(area == saturating_area(width as nat, height as nat));
        let mut pixels: Vec<P> = Vec::new();
        let mut i: usize = 0;
        while i < area
            invariant
                i <= area,
                pixels@.len() == i,
                forall|k: int| 0 <= k < i ==> pixels@[k] == fill,
            decreases area - i,
        {
            pixels.push(fill);
            i = i + 1;
        }
        Image { pixels, width, height }
    }

    /// An image whose pixels all hold the default value of `P`.
    #[must_use]
    pub fn new(width: usize, height: usize) -> (r: Self)
        where P: Copy + Default
        ensures
            r.wf(),
            r@.width == width,
            r@.height == height,
            forall|i: int, j: int|
                0 <= i < r@.pixels.len() && 0 <= j < r@.pixels.len() ==> r@.pixels[i]
                    == r@.pixels[j],
    {
        Self::filled(width, height, P::default())
    }

    /// An image whose pixel in column `x` and row `y` is `pixel_at(x, y)`;
    /// the calls are made in row-major order.
    pub fn from_fn<F: Fn(usize, usize) -> P>(width: usize, height: usize, pixel_at: F) -> (r:
        Self)
        requires
            width * height <= usize::MAX,
            forall|x: usize, y: usize| x < width && y < height ==> pixel_at.requires((x, y)),
        ensures
            r.wf(),
            r@.width == width,
            r@.height == height,
            r@.pixels.len() == width * height,
            forall|i: int|
                0 <= i < r@.pixels.len() ==> pixel_at.ensures(
                    (column_of(i, width as int) as usize, row_of(i, width as int) as usize),
                    #[trigger] r@.pixels[i],
                ),
            forall|x: usize, y: usize|
                x < width && y < height ==> pixel_at.ensures(
                    (x, y),
                    #[trigger] r@.pixels[y * width + x],
                ),
    {
        let area: usize = width * height;
        let mut pixels: Vec<P> = Vec::new();
        let mut i: usize = 0;
        while i < area
            invariant
                area == width * height,
                i <= area,
                pixels@.len() == i,
                forall|x: usize, y: usize| x < width && y < height ==> pixel_at.requires((x, y)),
                forall|k: int|
                    0 <= k < i ==> pixel_at.ensures(
                        (column_of(k, width as int) as usize, row_of(k, width as int) as usize),
                        #[trigger] pixels@[k],
                    ),
            decreases area - i,
        {
            let (x, y) = Self::coordinates(i, width, height);
            let p = pixel_at(x, y);
            pixels.push(p);
            i = i + 1;
        }
        assert forall|x: usize, y: usize| x < width && y < height implies pixel_at.ensures(
            (x, y),
            #[trigger] pixels@[y * width + x],
        ) by {
            lemma_cell_index(x as int, y as int, width as int);
            assert(y * width + x < width * height) by (nonlinear_arith)
                requires
                    x < width,
                    y < height,
            ;
        }
        Image { pixels, width, height }
    }

    /// The image with `f` applied to every pixel, cell for cell.
    pub fn map<Q, F: Fn(&P) -> Q>(&self, f: F) -> (r: Image<Q>)
        requires
            forall|p: &P| f.requires((p,)),
        ensures
            r@.width == self@.width,
            r@.height == self@.height,
            r@.pixels.len() == self@.pixels.len(),
            forall|i: int|
                0 <= i < r@.pixels.len() ==> f.ensures((&self@.pixels[i],), #[trigger] r@.pixels[i]),
            self.wf() ==> r.wf(),
    {
        let mut pixels: Vec<Q> = Vec::new();
        let mut i: usize = 0;
        while i < self.pixels.len()
            invariant
                i <= self.pixels@.len(),
                pixels@.len() == i,
                forall|p: &P| f.requires((p,)),
                forall|k: int|
                    0 <= k < i ==> f.ensures((&self.pixels@[k],), #[trigger] pixels@[k]),
            decreases self.pixels@.len() - i,
        {
            let q = f(&self.pixels[i]);
            pixels.push(q);
            i = i + 1;
        }
        Image { pixels, width: self.width, height: self.height }
    }

    /// Column and row of the cell at `index` of a row-major raster.
    pub fn coordinates(index: usize, width: usize, height: usize) -> (r: (usize, usize))
        requires
            index < width * height,
        ensures
            r.0 == column_of(index as int, width as int),
            r.1 == row_of(index as int, width as int),
            r.0 < width,
            r.1 < height,
    {
        assert(width > 0) by (nonlinear_arith)
            requires
                index < width * height,
        ;
        let x = index % width;
        let y = index / width;
        assert(y < height) by (nonlinear_arith)
            requires
                index < width * height,
                width > 0,
                y == index / width,
        ;
        (x, y)
    }

    pub fn get_pixels(&self) -> (r: &[P])
        ensures
            r@ == self@.pixels,
    {
        self.pixels.as_slice()
    }

    pub fn get_pixels_mut(&mut self) -> (r: &mut [P])
        ensures
            r@ == old(self)@.pixels,
            final(self)@.pixels == final(r)@,
            final(self)@.width == old(self)@.width,
            final(self)@.height == old(self)@.height,
    {
        self.pixels.as_mut_slice()
    }

    /// `(width, height)` of the image.
    pub fn get_dimensions(&self) -> (r: (usize, usize))
        ensures
            r.0 == self@.width,
            r.1 == self@.height,
    {
        (self.width, self.height)
    }
}

} // verus!
