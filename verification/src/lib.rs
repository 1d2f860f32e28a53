//! Verified core of `flatus`: the seeded generator, the personality table, the
//! desktop settings rules, idle detection, grain placement, playback
//! interleaving and WAV layout.

pub mod grain;
pub mod idle;
pub mod personalities;
pub mod playback;
pub mod prng;
pub mod safety;
pub mod seeds;
pub mod settings;
mod text;
pub mod wav;

pub use idle::{user_idle_secs, ActivitySignal};
pub use personalities::lookup_personality;
pub use prng::Mulberry32;
pub use safety::SAMPLE_RATE_HZ;
