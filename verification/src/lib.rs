//! The verified core of `linear-mg`, a command-line client for the Linear
//! API: what each command asks for, how names are looked up, how lists are
//! paged, and how answers and errors are reported.

use vstd::prelude::*;

pub mod args;
pub mod cli;
pub mod client;
pub mod common;
pub mod config;
pub mod entities;
pub mod error;
pub mod filters;
pub mod graphql;
pub mod issues;
pub mod paginator;
pub mod relations;
pub mod resolve;
pub mod text;
