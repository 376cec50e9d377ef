//! A greeter for the greetd login broker, as a library without I/O.
//!
//! The crate holds the decisions of a login greeter and leaves every effect
//! to its caller:
//!
//! * [`wire`] is the message vocabulary and the framing of messages into
//!   length-prefixed byte strings;
//! * [`login_manager`] is the session client: the connection slot and the
//!   handshake, written as a function from a state and an event to the next
//!   thing to do;
//! * [`prompt`] is the login form: its fields, the events that change them
//!   and the account list offered to the user.
//!
//! The functions are verified with Verus against the contracts they state.
//! The three that call into `greetd_ipc` or into a part of the standard
//! library that has no specification are private to [`wire`], and each says
//! what it takes on trust.
pub mod wire;
pub mod login_manager;
pub mod prompt;
