//! The image buffer the workers fill: a dense row-major array of pixel
//! values, one cell per grid position, addressed as `j * width + i`. The
//! element type is left generic; the renderer stores its accumulated
//! per-pixel color samples here before serialization.

use vstd::prelude::*;

verus! {

/// A `width × height` image stored row-major: the pixel at column `i` of row
/// `j` lives at index `j * width + i` of the backing array.
pub struct ImageBuffer<T> {
    width: usize,
    height: usize,
    data: Vec<T>,
}

impl<T> View for ImageBuffer<T> {
    type V = Seq<T>;

    closed spec fn view(&self) -> Seq<T> {
        self.data@
    }
}

impl<T: Copy> ImageBuffer<T> {
    /// The backing array covers the grid: one cell per pixel.
    pub closed spec fn wf(&self) -> bool {
        self.data@.len() == self.width * self.height
    }

    pub closed spec fn spec_width(&self) -> int {
        self.width as int
    }

    pub closed spec fn spec_height(&self) -> int {
        self.height as int
    }

    /// Allocate a `width × height` buffer with every cell set to `fill`
    /// (black, for the renderer).
    pub fn new(width: usize, height: usize, fill: T) -> (img: ImageBuffer<T>)
        requires
            width * height <= usize::MAX,
        ensures
            img.wf(),
            img.spec_width() == width,
            img.spec_height() == height,
            img@.len() == width * height,
            forall|k: int| 0 <= k < img@.len() ==> img@[k] == fill,
    {
        let n = width * height;
        let mut data: Vec<T> = Vec::new();
        let mut k: usize = 0;
        while k < n
            invariant
                k <= n,
                data@.len() == k,
                forall|m: int| 0 <= m < k ==> data@[m] == fill,
            decreases n - k,
        {
            data.push(fill);
            k = k + 1;
        }
        ImageBuffer { width, height, data }
    }

    pub fn width(&self) -> (w: usize)
        ensures
            w == self.spec_width(),
    {
        self.width
    }

    pub fn height(&self) -> (h: usize)
        ensures
            h == self.spec_height(),
    {
        self.height
    }

    /// Store the finished color of the pixel at column `i`, row `j`. Only the
    /// cell `j * width + i` changes.
    pub fn set_pixel(&mut self, i: usize, j: usize, value: T)
        requires
            old(self).wf(),
            i < old(self).spec_width(),
            j < old(self).spec_height(),
        ensures
            final(self).wf(),
            final(self).spec_width() == old(self).spec_width(),
            final(self).spec_height() == old(self).spec_height(),
            final(self)@ == old(self)@.update(j * old(self).spec_width() + i, value),
    {
        proof {
            assert((j as int) * (self.width as int) + (i as int) < (self.width as int) * (
            self.height as int)) by (nonlinear_arith)
                requires
                    (i as int) < (self.width as int),
                    (j as int) < (self.height as int),
                    0 <= i as int,
                    0 <= j as int;
        }
        let n = self.data.len();
        let index = j * self.width + i;
        self.data.set(index, value);
    }

    /// Read the pixel at column `i`, row `j`.
    pub fn get_pixel(&self, i: usize, j: usize) -> (value: T)
        requires
            self.wf(),
            i < self.spec_width(),
            j < self.spec_height(),
        ensures
            value == self@[j * self.spec_width() + i],
    {
        proof {
            assert((j as int) * (self.width as int) + (i as int) < (self.width as int) * (
            self.height as int)) by (nonlinear_arith)
                requires
                    (i as int) < (self.width as int),
                    (j as int) < (self.height as int),
                    0 <= i as int,
                    0 <= j as int;
        }
        let n = self.data.len();
        let index = j * self.width + i;
        self.data[index]
    }

    /// The whole buffer in row-major order, for serialization.
    pub fn pixels(&self) -> (data: &Vec<T>)
        ensures
            data@ == self@,
    {
        &self.data
    }
}

} // verus!
