//! Turns a stream of biosignal samples arriving over a serial link into
//! jerk-limited motion commands for a serial-attached plotter, under the
//! plotter's acknowledgment-based flow control and with a graceful,
//! signal-triggered shutdown sequence.
//!
//! The library holds the event-stream processing pipeline: the two
//! wire-protocol codecs, the rate-decoupling sample-on-trigger adapter, the
//! shutdown-preempting terminating select, the moving-average smoother, the
//! jerk-limited trajectory controller, and their assembly into one
//! event-driven pipeline. Device acquisition, signal delivery and the event
//! loop live outside, handing the pipeline plain bytes and events.

use vstd::prelude::*;

pub mod andselect;
pub mod bytesbuf;
pub mod codec;
pub mod fmt;
pub mod pipeline;
pub mod sample;
pub mod smoother;
pub mod trajectory;
pub mod utf8;

pub use codec::makeval;
pub use trajectory::clamp;

verus! {

} // verus!
