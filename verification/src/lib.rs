//! Advice to the kernel on how a range of a file will be accessed.
//!
//! A request names a file, one of six kinds of advice and a range of bytes.
//! This library holds the rules by which such a request is checked and
//! carried out, and makes the advisory call itself, through `nix`. What has
//! to be done on the file system in between is left to the caller:
//!
//! - [`advice`] has the six kinds of advice, their names and keywords, and
//!   their counterparts in `nix`;
//! - [`request`] checks the numbers of a request and settles the length of
//!   its range;
//! - [`session`] leads a request step by step to its result, tells the
//!   caller what to do next, and makes the call;
//! - [`error`] has the ways in which a request can fail, and their messages;
//! - [`text`] writes integers in decimal for the lines that describe a call;
//! - [`os`] holds what is taken from `nix` without proof.
#![allow(unused_imports)]

pub mod advice;
pub mod error;
pub mod os;
pub mod request;
pub mod session;
pub mod text;
