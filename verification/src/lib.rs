//! Verified core of a Modality reflector plugin suite for Percepio TraceRecorder data.

pub mod attr_keys;
pub mod auth;
pub mod collector;
pub mod command;
pub mod config;
pub mod context_manager;
pub mod deviant;
pub mod elf;
pub mod error;
pub mod event;
pub mod maps;
pub mod opts;
pub mod order;
pub mod recorder_data;
pub mod snapshot;
pub mod text;
pub mod trc_reader;
