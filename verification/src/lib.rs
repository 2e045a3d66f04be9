//! Decision engine of a word-guessing puzzle solver.
//!
//! The engine encodes the feedback a guess produces against a hidden answer,
//! narrows a pool of candidate answers using observed feedback, and prepares
//! the data a scoring strategy needs to select the next guess. Interactive
//! loops, standard input/output, and the floating-point scoring kernels live
//! in the surrounding application, which calls into this crate.

pub mod enums;
pub mod leko_competition;
pub mod repls;
pub mod tactics;

use vstd::prelude::*;

verus! {

/// Explicit configuration threaded through the solver session in place of
/// process-wide mutable state: callers decide whether diagnostic output is
/// wanted and pass the value along.
pub struct Config {
    pub show_console: bool,
}

impl Default for Config {
    /// A fresh configuration starts silent.
    fn default() -> (r: Self)
        ensures
            !r.show_console,
    {
        Config { show_console: false }
    }
}

/// Records whether diagnostic console output is wanted.
pub fn set_show_console(config: &mut Config, show: bool)
    ensures
        final(config).show_console == show,
{
    config.show_console = show;
}

/// Reads whether diagnostic console output is wanted.
pub fn get_show_console(config: &Config) -> (r: bool)
    ensures
        r == config.show_console,
{
    config.show_console
}

} // verus!
