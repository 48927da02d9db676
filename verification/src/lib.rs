//! The decision core of a watch-and-redeploy loop.
//!
//! A directory tree is watched for changes, and a change triggers a new
//! deployment unless the deployment itself caused it. This crate holds the
//! decisions of that loop and none of its effects:
//!
//! - `path` gives every path one separator;
//! - `pattern` tests a path against a glob or an exact name;
//! - `filter` holds the exclusion rules and tells whether a batch of changed
//!   paths is relevant;
//! - `debounce` lets at most one relevant batch through per window;
//! - `event_loop` answers every signal with the next state of the loop and
//!   with the action that the caller has to carry out.
//!
//! The caller subscribes to the file system, reads the clock, runs the
//! deployment and writes the log. Globs are compiled and matched by the
//! `globset` crate; `glob` states what is taken on trust from it. Everything
//! else is proved, and the laws that the loop obeys are stated beside the
//! functions they speak of.

pub mod debounce;
pub mod event_loop;
pub mod filter;
pub mod glob;
pub mod path;
pub mod pattern;
