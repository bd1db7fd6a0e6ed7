use crate::raster::{grid, new_rgba16, put_rgba16, rgba16_pixels, Rgba64Image};
use vstd::prelude::*;

verus! {

/// Bakes the table of the split-sum scale and bias over view angle and
/// roughness: `size` cells along each axis, `sample_count` samples per cell.
pub struct SchlickFresnelBaking {
    pub size: usize,
    pub sample_count: usize,
}

/// The integrated scale and bias of one cell, as 16-bit channel values.
#[derive(Clone, Copy, Debug, PartialEq, Eq)]
pub struct Texel {
    pub scale: u16,
    pub bias: u16,
}

/// The stored pixel of a texel: scale in red, bias in green, blue empty,
/// alpha opaque.
pub open spec fn texel_pixel(t: Texel) -> (u16, u16, u16, u16) {
    (t.scale, t.bias, 0u16, 65535u16)
}

impl SchlickFresnelBaking {
    pub fn new(size: usize, sample_count: usize) -> (baker: Self)
        ensures
            baker.size == size,
            baker.sample_count == sample_count,
    {
        Self { size, sample_count }
    }

    /// The image row that holds the cells of index `j` along the roughness
    /// axis: the axis runs upward, so the last index is stored in row 0.
    pub open spec fn row_of(&self, j: int) -> int {
        self.size - 1 - j
    }

    /// Whether `(i, j)` is a cell of the table.
    pub open spec fn has_cell(&self, i: int, j: int) -> bool {
        0 <= i < self.size && 0 <= j < self.size
    }

    /// The numerator of the centre of cell `k` over the denominator
    /// `2 size`.
    pub open spec fn center_numerator(k: int) -> int {
        2 * k + 1
    }

    /// Every centre lies strictly between 0 and 1, and cells further along an
    /// axis have larger centres.
    pub proof fn lemma_centers_ordered(&self, k1: int, k2: int)
        requires
            0 <= k1 < k2 < self.size,
        ensures
            0 < Self::center_numerator(k1) < Self::center_numerator(k2) < 2 * self.size,
    {
    }

    /// Each cell is stored inside the image, two different cells at two
    /// different pixels, a cell of the last roughness index in row 0, and
    /// flipping a row twice gives the index back.
    pub proof fn lemma_cells_to_pixels(&self, i1: int, j1: int, i2: int, j2: int)
        requires
            self.has_cell(i1, j1),
            self.has_cell(i2, j2),
        ensures
            grid(self.size as int, self.size as int).contains((i1, self.row_of(j1))),
            (i1, j1) != (i2, j2) ==> (i1, self.row_of(j1)) != (i2, self.row_of(j2)),
            self.row_of(self.size - 1) == 0,
            self.row_of(self.row_of(j1)) == j1,
    {
    }

    /// The centre of cell `k` along either axis, as the fraction
    /// `(2k + 1) / (2 size)`: numerator first, then denominator.
    pub fn cell_center(&self, k: usize) -> (c: (u64, u64))
        requires
            k < self.size,
            self.size <= u32::MAX,
        ensures
            c.0 == Self::center_numerator(k as int),
            c.1 == 2 * self.size,
            0 < c.0 < c.1,
    {
        (2 * (k as u64) + 1, 2 * (self.size as u64))
    }

    /// Assembles the table's image. `texels` holds the cells column by
    /// column: cell `(i, j)`, `i` along the view angle and `j` along the
    /// roughness, at index `i * size + j`. Cell `(i, j)` is stored at column
    /// `i` of row `size - 1 - j`.
    pub fn bake(&self, texels: &Vec<Texel>) -> (img: Rgba64Image)
        requires
            self.size <= u32::MAX,
            8 * self.size * self.size <= isize::MAX,
            texels.len() == self.size * self.size,
        ensures
            rgba16_pixels(img).dom() == grid(self.size as int, self.size as int),
            forall|i: int, j: int|
                0 <= i < self.size && 0 <= j < self.size ==> #[trigger] rgba16_pixels(img)[(
                    i,
                    self.row_of(j),
                )] == texel_pixel(texels[i * self.size + j]),
    {
        let n: u32 = self.size as u32;
        let mut img = new_rgba16(n, n);
        let mut i: u32 = 0;
        while i < n
            invariant
                n == self.size,
                texels.len() == n * n,
                i <= n,
                rgba16_pixels(img).dom() == grid(n as int, n as int),
                forall|a: int, b: int|
                    0 <= a < i && 0 <= b < n ==> #[trigger] rgba16_pixels(img)[(a, n - 1 - b)]
                        == texel_pixel(texels[a * n + b]),
            decreases n - i,
        {
            let mut j: u32 = 0;
            while j < n
                invariant
                    n == self.size,
                    texels.len() == n * n,
                    i < n,
                    j <= n,
                    rgba16_pixels(img).dom() == grid(n as int, n as int),
                    forall|a: int, b: int|
                        0 <= a < i && 0 <= b < n ==> #[trigger] rgba16_pixels(img)[(a, n - 1 - b)]
                            == texel_pixel(texels[a * n + b]),
                    forall|b: int|
                        0 <= b < j ==> #[trigger] rgba16_pixels(img)[(i as int, n - 1 - b)]
                            == texel_pixel(texels[i * n + b]),
                decreases n - j,
            {
                assert(i * n + j < n * n) by (nonlinear_arith)
                    requires
                        i < n,
                        j < n,
                ;
                let idx: usize = (i as usize) * self.size + (j as usize);
                let t: Texel = texels[idx];
                put_rgba16(&mut img, i, n - 1 - j, (t.scale, t.bias, 0u16, 65535u16));
                j += 1;
            }
            i += 1;
        }
        img
    }
}

} // verus!
