pub mod decimal;
pub mod ppm;

pub use ppm::PpmWriter;
