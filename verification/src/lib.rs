//! A message bridge between a real-time audio plugin and a web-based GUI.
//!
//! The bridge keeps plugin parameter state and GUI-displayed state consistent
//! without ever blocking the thread that applies parameter changes.  It is
//! built from five pieces:
//!
//! * [`wire`] — the JSON-shaped structured values that cross the GUI boundary;
//! * [`message`] — the tagged-union message formats of the two directions;
//! * [`codec`] — encoding and decoding of those formats;
//! * [`queue`] — the two FIFO queues, one per direction;
//! * [`registry`] — the parameter registry adapter and its three-phase
//!   transaction discipline;
//! * [`bridge`] — the per-tick event loop that drains both queues.
//!
//! Beside the bridge, [`args`] holds the argument splitting of the bundling
//! command line.
//!
//! The bridge itself owns no parameter storage and performs no I/O: every tick
//! it turns queued inbound values into an ordered list of parameter
//! transaction operations and a batch of encoded outbound values, which the
//! embedding performs and delivers.

pub mod args;
pub mod bridge;
pub mod codec;
pub mod message;
pub mod queue;
pub mod registry;
pub mod strutil;
pub mod wire;

pub use message::GuiMessage;
pub use message::ParamChange;
pub use message::PluginMessage;
