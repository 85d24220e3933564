//! The search pipeline of a command-line file finder.
//!
//! A search walks a directory tree, keeps the entries of the wanted type,
//! holds them against a glob or a regular expression, and streams what
//! matches to a display that shows progress while the search runs.
//!
//! The library decides; its caller does what touches the world. The caller
//! walks the tree, reads the clock, moves events between threads, prints and
//! sleeps. What it saw goes into the library as plain values, and what to do
//! next comes back.
//!
//! - `matchers`: entries, the type filter, and the glob and regular
//!   expression matchers, built on the engines declared in `engines`.
//! - `limits`: how long a glob is and how deep it nests, measured before it
//!   is handed to its engine.
//! - `model`, `search`: the traversal worker as a state machine, in
//!   contracts and in code.
//! - `runs`, `finds`: what holds of every run of the worker, and what a
//!   search finds.
//! - `display`, `ui`: the consumer of the worker's streams, in contracts and
//!   in code.
//! - `pipeline`: what holds of the worker and its consumer together.
//! - `cli`: what the command line's arguments mean.
//! - `events`, `text`: the values that flow between them, and the text of
//!   status lines.

pub mod cli;
pub mod display;
pub mod engines;
pub mod events;
pub mod finds;
pub mod limits;
pub mod matchers;
pub mod model;
pub mod pipeline;
pub mod runs;
pub mod search;
pub mod text;
pub mod ui;
