//! Deferred task scheduling with verified queueing and dispatch rules,
//! together with the settings, roster and sign-in logic that surround it.

pub mod config;
pub mod database;
pub mod my_studio;
pub mod scheduler;
pub mod spreadsheet;
pub mod text;
