//! A webhook-based Discord slash command library: the data model of
//! Discord's objects, builders for requests and responses, and the
//! decisions taken on incoming interactions, with their contracts proved.

pub mod text;
pub mod keyed;
pub mod structs;
pub mod commands;
pub mod internal_utils;
pub mod webhook;
pub mod rest;
pub mod events;
