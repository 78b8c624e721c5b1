//! A physically-inspired sky model: the tunable parameters of an atmospheric
//! light-scattering simulation (Rayleigh and Mie scattering), their
//! GPU-consumable uniform layout, and the per-frame extraction step that
//! republishes the application-side value into the render-side store.
//!
//! Scalar parameters are carried as the bit patterns of IEEE-754
//! single-precision values, so that the uniform layout and the extraction
//! step can be specified and proved exactly, byte for byte.

pub mod extract;
pub mod params;
pub mod uniform;

pub use params::Atmosphere;
pub use params::Vec3Bits;
