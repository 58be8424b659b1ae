//! Checks a macOS application bundle, disk image or installer package
//! before it is sent to the notarization service, and decides each step of
//! sending it: archive, upload, poll for the verdict, staple the ticket.
//!
//! The library runs no tool and touches no file. It says which tool is to be
//! run with which arguments, and what the tool's answer means; its caller
//! does the running and hands the answers back.

use vstd::prelude::*;

pub mod bundle;
pub mod documents;
pub mod error;
pub mod input_path;
pub mod notarize;
pub mod pipeline;
pub mod precheck;
pub mod property_list;
pub mod submission;
pub mod text;
pub mod tool;
