use vertin::mlaa::mlaa::{Channel, Tile};
use vertin::mlaa::MLAAPrecompute;

fn to_u8(f: f64) -> u8 {
    let f = f.max(0.0).min(1.0);
    (f * 255.0).round() as u8
}

fn across(a: u32, b: u32) -> u8 {
    to_u8((2 * a + 1) as f64 / (a + b + 1) as f64 * 0.25)
}

fn along(a: u32, b: u32) -> u8 {
    to_u8((2 * b + 1) as f64 / (a + b + 1) as f64 * 0.25)
}

fn crossing(a: u32, b: u32, revert: bool) -> (u8, u8, u8, u8) {
    if b >= a + 1 {
        let pix = to_u8(0.5 * (b - a) as f64 / (a + b + 1) as f64);
        if revert { (0, pix, 0, 255) } else { (pix, 0, 0, 255) }
    } else if b == a {
        let pix = to_u8(1.0 / (16 * a + 8) as f64);
        (pix, pix, 0, 255)
    } else {
        let pix = to_u8(0.5 * (a - b) as f64 / (a + b + 1) as f64);
        if revert { (pix, 0, 0, 255) } else { (0, pix, 0, 255) }
    }
}

fn expected(i: u32, j: u32, a: u32, b: u32) -> (u8, u8, u8, u8) {
    match (i, j) {
        (0, 1) => (across(a, b), 0, 0, 255),
        (0, 3) => (0, across(a, b), 0, 255),
        (1, 0) => (along(a, b), 0, 0, 255),
        (3, 0) => (0, along(a, b), 0, 255),
        (1, 3) | (1, 4) | (4, 3) => crossing(a, b, false),
        (3, 1) | (3, 4) | (4, 1) => crossing(a, b, true),
        _ => (0, 0, 0, 1),
    }
}

#[test]
fn lut_matches_the_float_weights() {
    let lut = MLAAPrecompute::precompute_lut();
    let mut x: u32 = 0;
    while x < 45 {
        let mut y: u32 = 0;
        while y < 45 {
            assert_eq!(lut.pixel(x, y), Some(expected(x / 9, y / 9, x % 9, y % 9)));
            y += 1;
        }
        x += 1;
    }
}

#[test]
fn lut_is_45_square() {
    let lut = MLAAPrecompute::precompute_lut();
    assert_eq!(lut.dimensions(), (45, 45));
    assert!(lut.pixel(44, 44).is_some());
    assert_eq!(lut.pixel(45, 0), None);
    assert_eq!(lut.pixel(0, 45), None);
}

#[test]
fn lut_sample_pixels() {
    let lut = MLAAPrecompute::precompute_lut();
    assert_eq!(lut.pixel(0, 0), Some((0, 0, 0, 1)));
    assert_eq!(lut.pixel(20, 7), Some((0, 0, 0, 1)));
    assert_eq!(lut.pixel(0, 9), Some((64, 0, 0, 255)));
    assert_eq!(lut.pixel(0, 27), Some((0, 64, 0, 255)));
    assert_eq!(lut.pixel(9, 1), Some((96, 0, 0, 255)));
    assert_eq!(lut.pixel(9, 27), Some((32, 32, 0, 255)));
    assert_eq!(lut.pixel(9, 28), Some((64, 0, 0, 255)));
    assert_eq!(lut.pixel(10, 27), Some((0, 64, 0, 255)));
    assert_eq!(lut.pixel(27, 10), Some((0, 64, 0, 255)));
    assert_eq!(lut.pixel(28, 9), Some((64, 0, 0, 255)));
}

#[test]
fn tile_kinds() {
    assert_eq!(MLAAPrecompute::tile(0, 0), Tile::Blank);
    assert_eq!(MLAAPrecompute::tile(2, 3), Tile::Blank);
    assert_eq!(MLAAPrecompute::tile(4, 2), Tile::Blank);
    assert_eq!(MLAAPrecompute::tile(0, 4), Tile::Blank);
    assert_eq!(MLAAPrecompute::tile(0, 1), Tile::Across { channel: Channel::Red });
    assert_eq!(MLAAPrecompute::tile(0, 3), Tile::Across { channel: Channel::Green });
    assert_eq!(MLAAPrecompute::tile(1, 0), Tile::Along { channel: Channel::Red });
    assert_eq!(MLAAPrecompute::tile(3, 0), Tile::Along { channel: Channel::Green });
    assert_eq!(MLAAPrecompute::tile(1, 4), Tile::Crossing { revert: false });
    assert_eq!(MLAAPrecompute::tile(4, 1), Tile::Crossing { revert: true });
}

#[test]
fn tile_pixels() {
    assert_eq!(MLAAPrecompute::pixel(Tile::Blank, 3, 4), (0, 0, 0, 1));
    assert_eq!(MLAAPrecompute::pixel(Tile::Across { channel: Channel::Both }, 0, 0), (64, 64, 0, 255));
    assert_eq!(MLAAPrecompute::pixel(Tile::Across { channel: Channel::Red }, 8, 0), (120, 0, 0, 255));
    assert_eq!(MLAAPrecompute::pixel(Tile::Along { channel: Channel::Green }, 8, 0), (0, 7, 0, 255));
    assert_eq!(MLAAPrecompute::pixel(Tile::Crossing { revert: false }, 8, 8), (2, 2, 0, 255));
    assert_eq!(MLAAPrecompute::pixel(Tile::Crossing { revert: true }, 0, 8), (0, 113, 0, 255));
}
