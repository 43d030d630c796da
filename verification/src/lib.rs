//! Tracking of mods on a mod-hosting platform: the registries of mods and
//! webhooks, the notification templates and their rendering, the activity
//! log, and the update check.
//!
//! The library holds the tracker's state as one value, a [`database::Database`],
//! and every operation is a function on that value with a contract. Nothing
//! here reads a file or opens a connection: a program around the library
//! loads the state, fetches what the mod-hosting platform reports, posts the
//! messages that the library renders, and hands the answers back.
//!
//! - [`text`], [`ordering`], [`dates`], [`json`]: texts, their order, release
//!   dates, and the JSON that templates and activities store.
//! - [`records`], [`database`], [`tables`], [`init`]: the records, the state
//!   and its invariants.
//! - [`mods`], [`webhooks`], [`webhook_templates`], [`activities`],
//!   [`settings`]: the operations on each table.
//! - [`template`], [`notify`], [`update`]: substitution, rendering and the
//!   update check.
//! - [`events`], [`commands`]: what is logged, and the operations that the
//!   user interface asks for.

pub mod activities;
pub mod commands;
pub mod database;
pub mod dates;
pub mod events;
pub mod init;
pub mod json;
pub mod mods;
pub mod notify;
pub mod ordering;
pub mod records;
pub mod settings;
pub mod tables;
pub mod template;
pub mod text;
pub mod update;
pub mod webhook_templates;
pub mod webhooks;
