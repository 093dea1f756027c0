//! The interaction core of a terminal client for a versioned working copy.
//!
//! The core is a state machine. Key events and the answers of the host come
//! in; the next state and a request to the host come out. The core never
//! touches the terminal or the repository: the host draws the state, runs
//! the queries, performs the primitives of a transaction one by one, and
//! hands each result back.
//!
//! - `app` holds the state and its transitions, `invariants` what holds of
//!   every state and transition.
//! - `popup`, `buffer` and `key` are the popups, their text buffers and the
//!   keys that drive them.
//! - `command` is the vocabulary between core and host.
//! - `feedback` times the status message, the loading animation and the
//!   repeat of navigation keys.
//! - `jj` plans the transactions on the repository and reads the listings
//!   of the command line.
//! - `view` prepares what a frame shows; `text` works on characters.

pub mod app;
pub mod buffer;
pub mod command;
pub mod feedback;
pub mod invariants;
pub mod jj;
pub mod key;
pub mod popup;
pub mod settings;
pub mod tab;
pub mod text;
pub mod view;
