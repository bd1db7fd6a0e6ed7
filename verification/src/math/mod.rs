pub mod hammersley;
pub mod utils;

pub use hammersley::{hammersley, radical_inverse_vdc, SamplePoint};
pub use utils::quantize_ratio;
