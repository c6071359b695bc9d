//! Library for a wallpaper-cycling daemon and its command-line client.
//!
//! The two processes talk over a local, filesystem-scoped channel.  This
//! crate holds everything that can be stated and proved about that system:
//! the wire framing ([`packet`]), the command and acknowledgement messages
//! with their byte encoding ([`messages`]), the slideshow engine's state
//! machine ([`engine`]), the per-connection listener logic ([`listener`]),
//! and the rules of the channel's rendezvous point ([`channel`]).
//!
//! The surrounding process glue (socket accept loops, timers, signal
//! handling, configuration files) lives outside the library and hands it
//! plain values.

pub mod channel;
pub mod engine;
pub mod listener;
pub mod messages;
pub mod packet;
