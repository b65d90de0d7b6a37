//! Token usage accounting for a session.
use vstd::prelude::*;

verus! {

/// Token counts from a single API response.
#[derive(Debug, Clone, Copy)]
pub struct TokenUsage {
    pub input_tokens: u32,
    pub output_tokens: u32,
}

impl Default for TokenUsage {
    fn default() -> (r: Self)
        ensures
            r.input_tokens == 0,
            r.output_tokens == 0,
    {
        TokenUsage { input_tokens: 0, output_tokens: 0 }
    }
}

/// Cumulative token totals of a session.
#[derive(Debug)]
pub struct SessionUsageTracker {
    input_tokens: u32,
    output_tokens: u32,
}

/// Cumulative token usage totals.
#[derive(Debug, Clone, Copy)]
pub struct UsageTotals {
    pub input_tokens: u32,
    pub output_tokens: u32,
}

/// Payload of a usage event.
#[derive(Debug, Clone)]
pub struct AgentUsagePayload {
    pub input_tokens: u32,
    pub output_tokens: u32,
    pub source: UsageSource,
}

/// Where the token usage came from.
#[derive(Debug, Clone, Copy, PartialEq, Eq, Structural)]
pub enum UsageSource {
    Main,
    SubAgent,
}

impl SessionUsageTracker {
    /// The input tokens counted so far.
    pub closed spec fn input(&self) -> nat {
        self.input_tokens as nat
    }

    /// The output tokens counted so far.
    pub closed spec fn output(&self) -> nat {
        self.output_tokens as nat
    }

    /// A tracker at zero.
    pub fn new() -> (r: Self)
        ensures
            r.input() == 0,
            r.output() == 0,
    {
        SessionUsageTracker { input_tokens: 0, output_tokens: 0 }
    }

    /// Adds tokens and returns the new cumulative totals.
    pub fn add_tokens(&mut self, input: u32, output: u32) -> (r: UsageTotals)
        requires
            old(self).input() + input <= u32::MAX,
            old(self).output() + output <= u32::MAX,
        ensures
            final(self).input() == old(self).input() + input,
            final(self).output() == old(self).output() + output,
            r.input_tokens == final(self).input(),
            r.output_tokens == final(self).output(),
    {
        self.input_tokens = self.input_tokens + input;
        self.output_tokens = self.output_tokens + output;
        UsageTotals { input_tokens: self.input_tokens, output_tokens: self.output_tokens }
    }

    /// The current cumulative totals.
    pub fn get_totals(&self) -> (r: UsageTotals)
        ensures
            r.input_tokens == self.input(),
            r.output_tokens == self.output(),
    {
        UsageTotals { input_tokens: self.input_tokens, output_tokens: self.output_tokens }
    }

    /// Resets both counters to zero.
    pub fn reset(&mut self)
        ensures
            final(self).input() == 0,
            final(self).output() == 0,
    {
        self.input_tokens = 0;
        self.output_tokens = 0;
    }
}

impl Default for SessionUsageTracker {
    fn default() -> (r: Self)
        ensures
            r.input() == 0,
            r.output() == 0,
    {
        SessionUsageTracker::new()
    }
}

} // verus!
