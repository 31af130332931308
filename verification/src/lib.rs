//! Typed message passing between tasks: a bounded queue, a single-slot cell
//! for handing over one boxed value, the capabilities that streams offer, and
//! a combinator that joins a sending and a receiving stream into one.
pub mod composed_stream;
pub mod queue;
pub mod queue_model;
pub mod stream;
pub mod sync_cell;
pub mod timeout;
