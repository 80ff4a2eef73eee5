//! Identify and acquire remote source trees from a bare URL.
//!
//! A URL is classified into one of a closed set of resource kinds
//! (archive, git repository, subversion repository) by layered
//! heuristics; the acquisition and refresh of each kind is planned as
//! explicit tool invocations that a thin unverified shell executes.

pub mod acquire;
pub mod error;
pub mod resource;
pub mod strutil;
pub mod urlinfo;
