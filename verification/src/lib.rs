pub mod math;
pub mod mlaa;
pub mod pbr;
pub mod raster;
