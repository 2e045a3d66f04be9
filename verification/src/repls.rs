//! Session setup for the two interactive surfaces: each function prepares
//! the configuration and the solver board of one strategy over the supplied
//! dictionaries. The interactive loop around a session — reading commands or
//! protocol lines and printing guesses — is the caller's, as is the
//! floating-point scoring kernel it drives.

use vstd::prelude::*;

use crate::enums::Word;
use crate::tactics::{avg_info_max, position_freq};
use crate::{set_show_console, Config};

verus! {

/// Prepares an entropy-maximizing solver session over the given answer pool
/// and guess dictionary, with diagnostics switched as asked.
pub fn avg_info_max(canditates: Vec<Word>, inputs: Vec<Word>, show_console: bool) -> (r: (
    Config,
    avg_info_max::Board,
))
    ensures
        r.0.show_console == show_console,
        r.1.remaining_canditates@ == canditates@,
        r.1.input_canditates@ == inputs@,
{
    let mut config = Config::default();
    set_show_console(&mut config, show_console);
    let board = avg_info_max::Board::new(canditates, inputs);
    (config, board)
}

/// Prepares a positional-frequency solver session over the given answer
/// pool and guess dictionary, with diagnostics switched as asked.
pub fn position_freq(canditates: Vec<Word>, inputs: Vec<Word>, show_console: bool) -> (r: (
    Config,
    position_freq::Board,
))
    ensures
        r.0.show_console == show_console,
        r.1.remaining_canditates@ == canditates@,
        r.1.input_canditates@ == inputs@,
{
    let mut config = Config::default();
    set_show_console(&mut config, show_console);
    let board = position_freq::Board::new(canditates, inputs);
    (config, board)
}

} // verus!
