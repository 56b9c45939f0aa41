//! Scaffolds a project from a known template: a repository is fetched into a
//! staging path, and the template's payload, the whole tree or one
//! subdirectory of it, is copied into the working directory under a name of
//! the caller's choice.
//!
//! The library decides and the caller acts. `pipeline` is the run as a state
//! machine: it names the outside work to be done next, and takes the outcome
//! of that work as an event. `resolver` finds the template, `workspace` names
//! the staging path, `materialize` lays out the steps that bring the payload
//! into place. `progress` turns the counters of the transfer and of the
//! checkout into the status line to be written, and `sink` is where a fetch
//! reports them to. `location` gives a repository's name, `path` and `text`
//! hold what the others need of paths and of numbers as text.

pub mod action;
pub mod context;
pub mod error;
pub mod location;
pub mod materialize;
pub mod path;
pub mod pipeline;
pub mod progress;
pub mod resolver;
pub mod sink;
pub mod template;
pub mod text;
pub mod workspace;
