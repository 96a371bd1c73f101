//! A live container-metrics dashboard core: a sanitizer for the producer's
//! redraw-laden line stream, a keyed table of latest samples with staleness
//! handling, and the scaling and layout arithmetic that turns raw readings into
//! bounded-width bars.

pub mod data;
pub mod display;
pub mod error;
pub mod escape;
pub mod monitor;
pub mod table;
pub mod text;
pub mod utils;
