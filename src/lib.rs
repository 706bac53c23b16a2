//! Where is my mind: a single-user task tracker.
//!
//! The heart of the library is the task lifecycle (`lifecycle`), which decides how a
//! task record (`model`) changes on start, pause and complete, and the engine (`app`)
//! that runs those decisions inside one transaction of a task store (`store`). The
//! command line's actions on the engine are in `command`.
//!
//! Around it stand the pieces of the interactive front end that hold no terminal
//! state: its task (`types`) and storage (`storage`), configuration (`config`,
//! `settings`), command line (`cli`), time tracking (`time_tracking`) and relative
//! time text (`ui`). `clock` holds what comes from outside (the time, fresh ids), and
//! `foreign` the outside types that are carried through unopened.

pub mod text;
pub mod model;
pub mod lifecycle;
pub mod store;
pub mod clock;
pub mod app;
pub mod foreign;
pub mod types;
pub mod storage;
pub mod config;
pub mod cli;
pub mod time_tracking;
pub mod input;
pub mod tasks;
pub mod ui;
pub mod command;
pub mod settings;
