pub mod mlaa;

pub use mlaa::MLAAPrecompute;
