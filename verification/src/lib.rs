//! SIMD-oriented Fast Mersenne Twister (SFMT), a long-period,
//! non-cryptographic pseudorandom number generator.
//!
//! The generator keeps an array of 128-bit blocks, regenerates the whole
//! array with a vectorizable linear recurrence whenever the output cursor
//! runs past its end, and serves 32-bit and 64-bit words from the flattened
//! 32-bit view of the array. Ten state sizes are supported, each picked by
//! its Mersenne exponent; the exponent fixes the parameter set of the
//! recurrence and a guaranteed minimum period.

pub mod cert;
pub mod generator;
pub mod lanes;
pub mod params;
pub mod recurrence;
pub mod seed;

pub use generator::period_certification;
pub use generator::sfmt_gen_rand_all;
pub use generator::sfmt_init_gen_rand;
pub use generator::SFMT;
pub use params::Mexp;
pub use params::Params;
