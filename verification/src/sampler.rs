//! The fixed-tick input sampler.
//!
//! Every tick the sampler turns the state of the two physical input sources
//! into one bounded command vector — or the neutral vector whenever the
//! operator surface has lost focus, so a stale device can never keep driving
//! the vehicle. It runs the same whether or not a link is up.

use vstd::prelude::*;
use crate::axes::{merge_inputs, merge_spec, CommandVector};
use crate::config::Config;
use crate::messages::TypedMessage;

verus! {

/// Milliseconds between input samples (roughly 60 per second).
pub const SAMPLE_TICK_MS: u64 = 16;

/// State the sampler carries between ticks: the bindings to poll with and
/// whether the operator surface has input focus.
pub struct InputSampler {
    pub config: Config,
    pub focused: bool,
}

impl InputSampler {
    /// A sampler that starts focused, as a window that was just opened is.
    pub fn new(config: Config) -> (s: InputSampler)
        ensures
            s.config == config,
            s.focused == true,
    {
        InputSampler { config, focused: true }
    }

    /// Record a focus change of the operator surface.
    pub fn set_focused(&mut self, focused: bool)
        ensures
            final(self).focused == focused,
            final(self).config == old(self).config,
    {
        self.focused = focused;
    }

    /// Replace the bindings; the next tick already polls with the new ones.
    pub fn update_config(&mut self, new_config: Config)
        ensures
            final(self).config == new_config,
            final(self).focused == old(self).focused,
    {
        self.config = new_config;
    }

    /// Produce this tick's command vector. Without focus it is the neutral
    /// vector whatever the devices say; with focus it is the clamped merge
    /// of the two device vectors. Either way every axis is in range.
    pub fn sample(&self, keyboard: &CommandVector, gamepad: &CommandVector) -> (cv: CommandVector)
        requires
            keyboard.in_range(),
            gamepad.in_range(),
        ensures
            !self.focused ==> cv == CommandVector::zero_spec(),
            self.focused ==> cv == merge_spec(*keyboard, *gamepad),
            cv.in_range(),
    {
        if !self.focused {
            CommandVector::zero()
        } else {
            merge_inputs(keyboard, gamepad)
        }
    }

    /// Wrap this tick's vector as the command message for the outbound path.
    pub fn command_message(&self, cv: CommandVector) -> (m: TypedMessage)
        ensures
            m == TypedMessage::Command(cv),
    {
        TypedMessage::Command(cv)
    }
}

} // verus!
