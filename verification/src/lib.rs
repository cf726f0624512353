//! A small social client: messages, invites, push-to-talk and plugins among
//! friends, over a signaling server and peer connections.
//!
//! The library is everything the client decides and computes. It holds no
//! socket, no file and no device: a program around it reads and writes those,
//! hands in what it read, and does what it is told.
//!
//! - [`protocol`] and [`json`]: the frames that go to the server and come from it.
//! - [`daemon`] and [`ipc`]: the background daemon, as functions from a state and
//!   an event to a new state and things to do.
//! - [`friends`], [`commands`], [`dispatch`], [`repl`]: the commands of the program
//!   and the interactive prompt.
//! - [`overlay_ipc`]: the local socket between the daemon, its clients and the
//!   overlay window.
//! - [`peers`], [`ptt`], [`signaling`]: peer connections, speech, and the
//!   connection to the server.
//! - [`plugin`], [`sdk`], [`lua`]: plugins, what their scripts can call, and the
//!   values of those scripts.
//! - [`config`], [`address`], [`api`], [`service`], [`updater`]: settings, the
//!   address of the socket, accounts, autostart and releases.
//! - [`text`], [`strmap`]: texts, and maps that are walked in the order of their
//!   keys.
//! - [`laws`]: what holds of the client as a whole, over all inputs; [`words`]
//!   tells the words of the frames and commands apart.
pub mod address;
pub mod api;
pub mod commands;
pub mod config;
pub mod daemon;
pub mod dispatch;
pub mod friends;
pub mod ipc;
pub mod json;
pub mod laws;
pub mod lua;
pub mod overlay_ipc;
pub mod peers;
pub mod plugin;
pub mod protocol;
pub mod ptt;
pub mod repl;
pub mod sdk;
pub mod service;
pub mod signaling;
pub mod strmap;
pub mod text;
pub mod updater;
pub mod words;
