//! Heart-rate monitor core: a sensor-to-display pipeline.
//!
//! A fixed-rate sampler ([`sampler`]) feeds raw analog readings
//! through a bounded hand-off channel ([`channel`]) into an
//! adaptive-filter peak-detection engine ([`engine`]) that estimates
//! beats per minute; the estimate is rendered on a two-digit
//! multiplexed LED under a strict blanking discipline ([`display`]).

pub mod channel;
pub mod display;
pub mod engine;
pub mod ring;
pub mod sampler;
