//! The verified core of `mintctl`, the installer and operations CLI of the
//! Pecan branch processor.

pub mod activation;
pub mod args;
pub mod backup;
pub mod compose;
pub mod dns;
pub mod domain;
pub mod envfile;
pub mod execution;
pub mod install;
pub mod mint;
pub mod ops;
pub mod outside;
pub mod paths;
pub mod preflight;
pub mod questions;
pub mod release;
pub mod restore;
pub mod settings;
pub mod storage;
pub mod summary;
pub mod text;
pub mod update;
pub mod wizard;
