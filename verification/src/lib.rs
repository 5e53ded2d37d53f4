//! Decision layer of a bridge that serves the cuDNN call surface on top of
//! MIOpen.
//!
//! Nothing in this crate touches a device or a foreign library.  Every entry
//! point takes plain values, decides what the bridge has to do, and hands back
//! either the status to report or a description of the one foreign call to
//! make next.  The caller performs that call and feeds its outcome back in.
//! All decisions are verified against the models stated next to them.
//!
//! * [`status`] maps result codes and keeps the last failure.
//! * [`convert`] holds the fixed tables between the two libraries'
//!   enumerations.
//! * [`envelope`] is the tagged wrapper around a graph descriptor, and
//!   [`sticky`] the cache that keeps graph roots alive.
//! * [`graph`] and [`attribute`] decide the calls of the graph interface.
//! * [`negotiation`] sizes, allocates and frees the temporary buffers of a
//!   search, and [`convolution`] chooses the algorithm to run.
//! * [`command_line`] and [`arguments`] serve the launcher that starts a
//!   program with the bridge in place.

pub mod arguments;
pub mod attribute;
pub mod command_line;
pub mod convert;
pub mod convolution;
pub mod envelope;
pub mod graph;
pub mod negotiation;
pub mod status;
pub mod sticky;
