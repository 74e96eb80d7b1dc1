//! The core of a chat client for the terminal: its state, and vim's keys on its
//! input line and lists.
//!
//! - `text`, `classes`, `motion`, `width` and `vertical` find places in a text;
//! - `editor` says what each key does, and `keys` and `vim` do it;
//! - `effects` and `outcomes` say what the keys come to, by the characters of the line
//!   and the fields of the state, and `laws` what holds of the keys as a whole;
//! - `api` and `app` hold the client's state, `search` and `listing` its lists, and
//!   `session` what happens from start to end.
//!
//! Terminal, network and files are outside: `vim::handle_vim_keys` returns what is
//! to be done there, and takes the time as an argument.
#![allow(unused_imports)]

pub mod api;
pub mod app;
pub mod classes;
pub mod editor;
pub mod effects;
pub mod keys;
pub mod laws;
pub mod listing;
pub mod motion;
pub mod outcomes;
pub mod search;
pub mod session;
pub mod text;
pub mod vertical;
pub mod vim;
pub mod width;
