use vstd::prelude::*;

pub mod action;
pub mod cli;
pub mod config;
pub mod deps;
pub mod error;
pub mod exec;
pub mod input;
pub mod paths;
pub mod repr;
pub mod text;
