//! Token metrics of an agent's log.

use vstd::prelude::*;

verus! {

/// The share of the context window in use, in percent: the input and output tokens
/// against the window, cut off at 100; 0 where the window is 0.
pub open spec fn percent_used(input: int, output: int, window: int) -> int {
    if window == 0 {
        0
    } else if (input + output) * 100 / window >= 100 {
        100
    } else {
        (input + output) * 100 / window
    }
}

/// The share of the context window in use, in percent.
pub fn context_percent_of(input_tokens: u64, output_tokens: u64, context_window: u64) -> (r: u8)
    ensures
        r == percent_used(input_tokens as int, output_tokens as int, context_window as int),
{
    if context_window == 0 {
        return 0;
    }
    let used: u128 = input_tokens as u128 + output_tokens as u128;
    let scaled: u128 = used * 100;
    let share: u128 = scaled / (context_window as u128);
    if share >= 100 {
        100
    } else {
        share as u8
    }
}

/// Token counts taken from an agent's log.
#[derive(Debug, Clone, Copy, PartialEq, Eq, Structural)]
pub struct LogMetrics {
    /// The size of the context at the last assistant turn.
    pub input_tokens: u64,
    /// The output tokens of all turns.
    pub output_tokens: u64,
    /// The tokens written to the cache over all turns.
    pub cache_creation_tokens: u64,
    /// The tokens read from the cache at the last assistant turn.
    pub cache_read_tokens: u64,
    /// The number of turns.
    pub num_turns: u32,
    /// The capacity of the context window.
    pub context_window: u64,
}

impl Default for LogMetrics {
    fn default() -> (r: Self)
        ensures
            r == (LogMetrics {
                input_tokens: 0,
                output_tokens: 0,
                cache_creation_tokens: 0,
                cache_read_tokens: 0,
                num_turns: 0,
                context_window: 0,
            }),
    {
        LogMetrics {
            input_tokens: 0,
            output_tokens: 0,
            cache_creation_tokens: 0,
            cache_read_tokens: 0,
            num_turns: 0,
            context_window: 0,
        }
    }
}

impl LogMetrics {
    /// The share of the context window in use, in percent.
    pub fn context_percent(&self) -> (r: u8)
        ensures
            r == percent_used(
                self.input_tokens as int,
                self.output_tokens as int,
                self.context_window as int,
            ),
    {
        context_percent_of(self.input_tokens, self.output_tokens, self.context_window)
    }
}

} // verus!
