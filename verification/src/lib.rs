//! A small interactive web backend, as far as it decides anything: the chat session that runs
//! over one duplex connection, and what the site's pages compute.
//!
//! The core is [`session`]: a state machine that takes the frames of one connection and says
//! what to send back. It leans on [`payload`] to decode text frames, on [`sanitizer`] to
//! neutralise what a peer wrote, and on [`fragment`] to render the reply. [`laws`] states what
//! holds of every session over any history of calls.
//!
//! The rest serves the pages around the chat: [`model`] holds their records, [`counter`]
//! counts visits, [`pages`] and [`auth`] decide replies.

pub mod auth;
pub mod counter;
pub mod fragment;
pub mod frame;
pub mod laws;
pub mod model;
pub mod pages;
pub mod payload;
pub mod sanitizer;
pub mod session;
