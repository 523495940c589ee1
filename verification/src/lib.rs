//! The backend of a Spotify client, as a machine that decides and never waits.
//!
//! The interface sends [`events::Command`]s. A [`worker::Worker`] takes them
//! one at a time and leaves a list of [`actions::Action`]s: what to show, what
//! to ask the Web API, when to open a browser, connect a streaming engine or
//! touch storage. The application carries the actions out and hands what came
//! of them back as further commands. Nothing here does input or output, so
//! every decision can be stated and proved.
//!
//! - [`model`] says what each command makes of a worker's state; [`worker`]
//!   is the worker itself, proved to do exactly that.
//! - [`credentials`] holds the leases under which late results are told from
//!   current ones; [`gateway`] holds the Web API sessions and the account they
//!   agree on.
//! - [`requests`], [`exchange`] and [`responses`] carry one request to the Web
//!   API: its route, its calls, its answer and what the answer teaches.
//! - [`tasks`] decides what the work beside the command loop reports.
//! - [`backend`] is the interface's side.
//! - [`laws`] states what holds of all of this together: that signing out
//!   cannot be undone by anything late, that both sessions belong to one
//!   account, for whom an engine may run, and more.

pub mod actions;
pub mod backend;
pub mod credentials;
pub mod events;
pub mod exchange;
pub mod gateway;
pub mod laws;
pub mod model;
pub mod models;
pub mod playlist_cache;
pub mod requests;
pub mod responses;
pub mod tasks;
pub mod text;
pub mod worker;
