//! A small note store: named text notes kept in insertion order, with the
//! rules for looking them up, changing them and naming new ones, and the
//! decisions behind each command of the note-taking tool.

pub mod text;
pub mod note;
pub mod database;
pub mod config;
pub mod actions;
pub mod platform;
pub mod manager;
pub mod clipboard;
pub mod term;
