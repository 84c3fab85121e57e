//! Event-aggregation core of a terminal chat client.
//!
//! The crate holds the decisions of the client and none of its I/O. A driver
//! owns the threads, the socket, the channel and the terminal; it feeds what
//! it observed to the functions here and performs the action each returns.
//!
//! - `cancel_token`: the stop flag that the loops poll.
//! - `wire`: cutting and gluing text.
//! - `networking`: the chat protocol, its session and its receiving side.
//! - `application`: the unified event stream, the producing loops' steps and
//!   the consuming loop's state.
//! - `text_input`: the terminal toolkit's input line.
//! - `input_window`: the part of an input line that fits on the screen.
//! - `chat`: what the chat screen shows and how it takes events in.

pub mod application;
pub mod cancel_token;
pub mod chat;
pub mod input_window;
pub mod networking;
pub mod text_input;
pub mod wire;
