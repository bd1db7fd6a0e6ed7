use crate::math::utils::{quantize_ratio, quantized};
use crate::raster::{grid, new_rgba8, put_rgba8, rgba8_pixels, RgbaImage};
use vstd::prelude::*;

verus! {

/// The channels of a pixel that carry a weight.
#[derive(Clone, Copy, Debug, PartialEq, Eq)]
pub enum Channel {
    Red,
    Green,
    Both,
}

/// What one 9 x 9 tile of the table holds.
#[derive(Clone, Copy, Debug, PartialEq, Eq)]
pub enum Tile {
    /// No weight: every pixel is `(0, 0, 0, 1)`.
    Blank,
    /// The weight `(2a + 1) / (4 (a + b + 1))`.
    Across { channel: Channel },
    /// The weight `(2b + 1) / (4 (a + b + 1))`.
    Along { channel: Channel },
    /// The weight `|b - a| / (2 (a + b + 1))` off the diagonal, which side
    /// goes to which channel swapped by `revert`; `1 / (16a + 8)` in both
    /// channels on it.
    Crossing { revert: bool },
}

/// The number of tiles along each side of the table.
pub const TILES: u32 = 5;

/// The number of pixels along each side of a tile.
pub const TILE_SIZE: u32 = 9;

/// The tile at column `i`, row `j` of the table.
pub open spec fn tile_of(i: int, j: int) -> Tile {
    if i == 2 || j == 2 {
        Tile::Blank
    } else if i == j || i + j == 4 {
        if (i == 3 && j == 1) || (i == 1 && j == 3) {
            Tile::Crossing { revert: i == 3 }
        } else {
            Tile::Blank
        }
    } else if i == 0 {
        Tile::Across { channel: if j == 1 { Channel::Red } else { Channel::Green } }
    } else if j == 0 {
        Tile::Along { channel: if i == 1 { Channel::Red } else { Channel::Green } }
    } else {
        Tile::Crossing { revert: (i == 3 && j == 4) || (i == 4 && j == 1) }
    }
}

/// The 8-bit channel value of the weight `num / den`.
pub open spec fn weight_value(num: int, den: int) -> u8 {
    quantized(num, den, 255) as u8
}

/// A pixel with `value` in the given channels, no blue, and opaque.
pub open spec fn painted(channel: Channel, value: u8) -> (u8, u8, u8, u8) {
    match channel {
        Channel::Red => (value, 0u8, 0u8, 255u8),
        Channel::Green => (0u8, value, 0u8, 255u8),
        Channel::Both => (value, value, 0u8, 255u8),
    }
}

/// The pixel at column `a`, row `b` inside a tile.
pub open spec fn tile_pixel(tile: Tile, a: int, b: int) -> (u8, u8, u8, u8) {
    match tile {
        Tile::Blank => (0u8, 0u8, 0u8, 1u8),
        Tile::Across { channel } => painted(channel, weight_value(2 * a + 1, 4 * (a + b + 1))),
        Tile::Along { channel } => painted(channel, weight_value(2 * b + 1, 4 * (a + b + 1))),
        Tile::Crossing { revert } => if b > a {
            painted(
                if revert {
                    Channel::Green
                } else {
                    Channel::Red
                },
                weight_value(b - a, 2 * (a + b + 1)),
            )
        } else if b == a {
            painted(Channel::Both, weight_value(1, 16 * a + 8))
        } else {
            painted(
                if revert {
                    Channel::Red
                } else {
                    Channel::Green
                },
                weight_value(a - b, 2 * (a + b + 1)),
            )
        },
    }
}

/// The pixel at column `x`, row `y` of the whole table.
pub open spec fn lut_pixel(x: int, y: int) -> (u8, u8, u8, u8) {
    tile_pixel(tile_of(x / 9, y / 9), x % 9, y % 9)
}

/// Whether `(x, y)` lies in the tile at column `i`, row `j`.
pub open spec fn in_tile(i: int, j: int, x: int, y: int) -> bool {
    9 * i <= x < 9 * i + 9 && 9 * j <= y < 9 * j + 9
}

/// Precomputes the table of edge weights for morphological anti-aliasing.
pub struct MLAAPrecompute;

impl MLAAPrecompute {
    /// The kind of the tile at column `i`, row `j`.
    pub fn tile(i: u32, j: u32) -> (t: Tile)
        requires
            i < TILES,
            j < TILES,
        ensures
            t == tile_of(i as int, j as int),
    {
        if i == 2 || j == 2 {
            Tile::Blank
        } else if i == 0 && j == 1 {
            Tile::Across { channel: Channel::Red }
        } else if i == 0 && j == 3 {
            Tile::Across { channel: Channel::Green }
        } else if i == 1 && j == 0 {
            Tile::Along { channel: Channel::Red }
        } else if i == 3 && j == 0 {
            Tile::Along { channel: Channel::Green }
        } else if (i == 1 && j == 3) || (i == 1 && j == 4) || (i == 4 && j == 3) {
            Tile::Crossing { revert: false }
        } else if (i == 3 && j == 1) || (i == 3 && j == 4) || (i == 4 && j == 1) {
            Tile::Crossing { revert: true }
        } else {
            Tile::Blank
        }
    }

    fn weight(num: u32, den: u32) -> (v: u8)
        requires
            den > 0,
        ensures
            v == weight_value(num as int, den as int),
    {
        let q: u16 = quantize_ratio(num, den, 255);
        q as u8
    }

    fn paint(channel: Channel, value: u8) -> (p: (u8, u8, u8, u8))
        ensures
            p == painted(channel, value),
    {
        match channel {
            Channel::Red => (value, 0, 0, 255),
            Channel::Green => (0, value, 0, 255),
            Channel::Both => (value, value, 0, 255),
        }
    }

    /// The pixel at column `a`, row `b` of a tile of the given kind.
    pub fn pixel(tile: Tile, a: u32, b: u32) -> (p: (u8, u8, u8, u8))
        requires
            a < TILE_SIZE,
            b < TILE_SIZE,
        ensures
            p == tile_pixel(tile, a as int, b as int),
    {
        match tile {
            Tile::Blank => (0, 0, 0, 1),
            Tile::Across { channel } => Self::paint(
                channel,
                Self::weight(2 * a + 1, 4 * (a + b + 1)),
            ),
            Tile::Along { channel } => Self::paint(
                channel,
                Self::weight(2 * b + 1, 4 * (a + b + 1)),
            ),
            Tile::Crossing { revert } => {
                if b >= a + 1 {
                    let v: u8 = Self::weight(b - a, 2 * (a + b + 1));
                    if revert {
                        Self::paint(Channel::Green, v)
                    } else {
                        Self::paint(Channel::Red, v)
                    }
                } else if b == a {
                    Self::paint(Channel::Both, Self::weight(1, 16 * a + 8))
                } else {
                    let v: u8 = Self::weight(a - b, 2 * (a + b + 1));
                    if revert {
                        Self::paint(Channel::Red, v)
                    } else {
                        Self::paint(Channel::Green, v)
                    }
                }
            },
        }
    }

    /// Fills the tile at column `i`, row `j` of `tex` and leaves the rest of
    /// the image as it was.
    fn fill(tex: &mut RgbaImage, i: u32, j: u32, tile: Tile)
        requires
            i < TILES,
            j < TILES,
            rgba8_pixels(*old(tex)).dom() == grid(45, 45),
        ensures
            rgba8_pixels(*final(tex)).dom() == grid(45, 45),
            forall|x: int, y: int|
                in_tile(i as int, j as int, x, y) ==> #[trigger] rgba8_pixels(*final(tex))[(x, y)]
                    == tile_pixel(tile, x - 9 * i, y - 9 * j),
            forall|x: int, y: int|
                !in_tile(i as int, j as int, x, y) ==> #[trigger] rgba8_pixels(*final(tex))[(x, y)]
                    == rgba8_pixels(*old(tex))[(x, y)],
    {
        let mut a: u32 = 0;
        while a < 9
            invariant
                i < 5,
                j < 5,
                a <= 9,
                rgba8_pixels(*tex).dom() == grid(45, 45),
                forall|x: int, y: int|
                    in_tile(i as int, j as int, x, y) && x < 9 * i + a ==> #[trigger] rgba8_pixels(
                        *tex,
                    )[(x, y)] == tile_pixel(tile, x - 9 * i, y - 9 * j),
                forall|x: int, y: int|
                    !in_tile(i as int, j as int, x, y) ==> #[trigger] rgba8_pixels(*tex)[(x, y)]
                        == rgba8_pixels(*old(tex))[(x, y)],
            decreases 9 - a,
        {
            let mut b: u32 = 0;
            while b < 9
                invariant
                    i < 5,
                    j < 5,
                    a < 9,
                    b <= 9,
                    rgba8_pixels(*tex).dom() == grid(45, 45),
                    forall|x: int, y: int|
                        in_tile(i as int, j as int, x, y) && (x < 9 * i + a || (x == 9 * i + a && y
                            < 9 * j + b)) ==> #[trigger] rgba8_pixels(*tex)[(x, y)] == tile_pixel(
                            tile,
                            x - 9 * i,
                            y - 9 * j,
                        ),
                    forall|x: int, y: int|
                        !in_tile(i as int, j as int, x, y) ==> #[trigger] rgba8_pixels(*tex)[(x, y)]
                            == rgba8_pixels(*old(tex))[(x, y)],
                decreases 9 - b,
            {
                let x: u32 = i * 9 + a;
                let y: u32 = j * 9 + b;
                let p = Self::pixel(tile, a, b);
                put_rgba8(tex, x, y, p);
                b += 1;
            }
            a += 1;
        }
    }

    /// The table: 45 x 45 pixels, 5 x 5 tiles of 9 x 9 pixels.
    pub fn precompute_lut() -> (result: RgbaImage)
        ensures
            rgba8_pixels(result).dom() == grid(45, 45),
            forall|x: int, y: int|
                0 <= x < 45 && 0 <= y < 45 ==> #[trigger] rgba8_pixels(result)[(x, y)] == lut_pixel(
                    x,
                    y,
                ),
    {
        let size: u32 = TILES * TILE_SIZE;
        let mut result = new_rgba8(size, size);
        let mut i: u32 = 0;
        while i < 5
            invariant
                i <= 5,
                rgba8_pixels(result).dom() == grid(45, 45),
                forall|x: int, y: int|
                    0 <= x < 9 * i && 0 <= y < 45 ==> #[trigger] rgba8_pixels(result)[(x, y)]
                        == lut_pixel(x, y),
            decreases 5 - i,
        {
            let mut j: u32 = 0;
            while j < 5
                invariant
                    i < 5,
                    j <= 5,
                    rgba8_pixels(result).dom() == grid(45, 45),
                    forall|x: int, y: int|
                        0 <= x < 9 * i && 0 <= y < 45 ==> #[trigger] rgba8_pixels(result)[(x, y)]
                            == lut_pixel(x, y),
                    forall|x: int, y: int|
                        9 * i <= x < 9 * i + 9 && 0 <= y < 9 * j ==> #[trigger] rgba8_pixels(
                            result,
                        )[(x, y)] == lut_pixel(x, y),
                decreases 5 - j,
            {
                let tile = Self::tile(i, j);
                Self::fill(&mut result, i, j, tile);
                j += 1;
            }
            i += 1;
        }
        result
    }
}

} // verus!
