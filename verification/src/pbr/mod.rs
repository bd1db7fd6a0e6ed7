pub mod ibl;

pub use ibl::{SchlickFresnelBaking, Texel};
