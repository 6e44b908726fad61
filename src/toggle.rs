use rand::rngs::ThreadRng;
use vstd::prelude::*;
use vstd::set_lib::{lemma_int_range, set_int_range};

use crate::mutator::{corrupted_at, randomize_chars, MutateError};
use crate::random::{draw_below, fresh_rng};
use crate::text::{chars_of, string_of};

verus! {

/// Ticks an accepted activation waits before the next one is accepted.
pub const COOLDOWN_TICKS: u32 = 15;

/// Corruption comes with probability `clicks / DEGRADATION_THRESHOLD`,
/// capped at one.
pub const DEGRADATION_THRESHOLD: usize = 100;

/// Which input asked for an activation.
#[derive(Debug, PartialEq, Eq, Structural, Clone, Copy)]
pub enum Trigger {
    Keyboard,
    Mouse,
}

/// Which inputs are accepted while the toggle cools down.
#[derive(Debug, PartialEq, Eq, Structural, Clone, Copy)]
pub enum Bypass {
    Neither,
    Keyboard,
    Mouse,
    Both,
}

/// What an activation did.
#[derive(Debug, PartialEq, Eq, Structural, Clone, Copy)]
pub enum Outcome {
    /// The toggle was cooling down: nothing changed.
    Ignored,
    /// The state flipped and no corruption was drawn.
    Toggled,
    /// The state flipped and the new state's glyph at this index was corrupted.
    Corrupted(usize),
    /// The state flipped and a corruption was drawn, but the mutator gave up.
    CorruptionFailed(MutateError),
}

/// The on/off bit: its state, its two glyph buffers, and the counters that
/// drive cooldown and degradation.
pub struct BitEnabled {
    pub enabled: bool,
    pub carnage: bool,
    pub clicks: usize,
    pub cooldown: u32,
    pub cooldown_modeled: bool,
    pub bypass: Bypass,
    pub toggle0: Vec<char>,
    pub toggle1: Vec<char>,
    pub rng: ThreadRng,
}

pub open spec fn bypasses(b: Bypass, t: Trigger) -> bool {
    match b {
        Bypass::Neither => false,
        Bypass::Keyboard => t == Trigger::Keyboard,
        Bypass::Mouse => t == Trigger::Mouse,
        Bypass::Both => true,
    }
}

/// The click counter after one more accepted activation, wrapping at the top.
pub open spec fn next_count(c: usize) -> usize {
    if c == usize::MAX {
        0
    } else {
        (c + 1) as usize
    }
}

/// The cooldown counter after one tick, floored at zero.
pub open spec fn next_cooldown(c: u32) -> u32 {
    if c == 0 {
        0
    } else {
        (c - 1) as u32
    }
}

/// Whether a draw from `0..DEGRADATION_THRESHOLD` asks for a corruption
/// after `clicks` accepted activations.
pub open spec fn corrupts(draw: int, clicks: int) -> bool {
    draw < clicks
}

/// The draws that ask for a corruption after `clicks` accepted activations.
pub open spec fn corrupting_draws(clicks: int) -> Set<int> {
    Set::new(|d: int| 0 <= d < DEGRADATION_THRESHOLD && corrupts(d, clicks))
}

/// Every draw that the generator can give.
pub open spec fn all_draws() -> Set<int> {
    Set::new(|d: int| 0 <= d < DEGRADATION_THRESHOLD)
}

impl BitEnabled {
    /// The buffer shown for a state.
    pub open spec fn buffer(&self, state: bool) -> Seq<char> {
        if state {
            self.toggle1@
        } else {
            self.toggle0@
        }
    }

    /// Whether an activation from `t` is accepted now.
    pub open spec fn accepts(&self, t: Trigger) -> bool {
        !self.cooldown_modeled || self.cooldown == 0 || bypasses(self.bypass, t)
    }

    /// The counters and configuration after an accepted activation.
    pub open spec fn flipped_control(&self, new: &BitEnabled) -> bool {
        &&& new.enabled == !self.enabled
        &&& new.clicks == next_count(self.clicks)
        &&& new.cooldown == if self.cooldown_modeled {
            COOLDOWN_TICKS
        } else {
            self.cooldown
        }
        &&& new.carnage == self.carnage
        &&& new.cooldown_modeled == self.cooldown_modeled
        &&& new.bypass == self.bypass
    }

    /// What an accepted activation does to the buffers: the buffer of the old
    /// state is kept, the buffer of the new state is kept or corrupted once,
    /// as `o` says.
    pub open spec fn flipped_buffers(&self, new: &BitEnabled, o: Outcome) -> bool {
        &&& new.buffer(self.enabled) == self.buffer(self.enabled)
        &&& match o {
            Outcome::Corrupted(i) => corrupted_at(
                self.buffer(new.enabled),
                new.buffer(new.enabled),
                i as int,
                self.carnage,
            ),
            _ => new.buffer(new.enabled) == self.buffer(new.enabled),
        }
    }

    /// One activation from `t`, from `self` to `new`, reporting `o`.
    pub open spec fn activation_step(&self, new: &BitEnabled, t: Trigger, o: Outcome) -> bool {
        if self.accepts(t) {
            &&& o != Outcome::Ignored
            &&& self.flipped_control(new)
            &&& self.flipped_buffers(new, o)
        } else {
            o == Outcome::Ignored && *new == *self
        }
    }

    /// One tick, from `self` to `new`.
    pub open spec fn tick_step(&self, new: &BitEnabled) -> bool {
        *new == (BitEnabled { cooldown: next_cooldown(self.cooldown), ..*self })
    }

    /// A bit in state `enabled`, showing `on` when enabled and `off`
    /// otherwise, with no cooldown.
    pub fn new(enabled: bool, carnage: bool, off: &str, on: &str) -> (r: Self)
        ensures
            r.enabled == enabled,
            r.carnage == carnage,
            r.clicks == 0,
            r.cooldown == 0,
            !r.cooldown_modeled,
            r.bypass == Bypass::Neither,
            r.toggle0@ == off@,
            r.toggle1@ == on@,
    {
        BitEnabled {
            enabled,
            carnage,
            clicks: 0,
            cooldown: 0,
            cooldown_modeled: false,
            bypass: Bypass::Neither,
            toggle0: chars_of(off),
            toggle1: chars_of(on),
            rng: fresh_rng(),
        }
    }

    /// The same bit with a cooldown after each accepted activation, which the
    /// inputs named by `bypass` ignore.
    pub fn with_cooldown(self, bypass: Bypass) -> (r: Self)
        ensures
            r == (BitEnabled { cooldown_modeled: true, bypass, ..self }),
    {
        BitEnabled { cooldown_modeled: true, bypass, ..self }
    }

    /// Whether an activation from `t` is accepted now.
    pub fn can_activate(&self, t: Trigger) -> (r: bool)
        ensures
            r == self.accepts(t),
    {
        let bypassed = match self.bypass {
            Bypass::Neither => false,
            Bypass::Keyboard => t == Trigger::Keyboard,
            Bypass::Mouse => t == Trigger::Mouse,
            Bypass::Both => true,
        };
        !self.cooldown_modeled || self.cooldown == 0 || bypassed
    }

    /// Whether a draw from `0..DEGRADATION_THRESHOLD` asks for a corruption
    /// after `clicks` accepted activations.
    pub fn should_corrupt(clicks: usize, draw: usize) -> (r: bool)
        ensures
            r == corrupts(draw as int, clicks as int),
    {
        draw < clicks
    }

    /// Flips the state unconditionally: counts the click, restarts the
    /// cooldown when one is modeled, and hands a draw from
    /// `0..DEGRADATION_THRESHOLD` to `apply_draw`, so that the new state's
    /// buffer is corrupted with probability `clicks / DEGRADATION_THRESHOLD`.
    pub fn change_state(&mut self) -> (o: Outcome)
        ensures
            o != Outcome::Ignored,
            old(self).flipped_control(final(self)),
            old(self).flipped_buffers(final(self), o),
            final(self).clicks >= DEGRADATION_THRESHOLD && final(self).buffer(final(self).enabled).len() > 0
                ==> o != Outcome::Toggled,
            final(self).clicks == 0 ==> o == Outcome::Toggled,
            final(self).buffer(final(self).enabled).len() == 0 ==> o == Outcome::Toggled,
    {
        self.clicks = self.clicks.wrapping_add(1);
        self.enabled = !self.enabled;
        if self.cooldown_modeled {
            self.cooldown = COOLDOWN_TICKS;
        }
        let draw = draw_below(&mut self.rng, DEGRADATION_THRESHOLD);
        self.apply_draw(draw)
    }

    /// Acts on a degradation draw from `0..DEGRADATION_THRESHOLD` for the
    /// state just entered: a draw below the click count corrupts the shown
    /// buffer once, unless it is empty; any other draw leaves everything as
    /// it was. Only the shown buffer can change.
    pub fn apply_draw(&mut self, draw: usize) -> (o: Outcome)
        requires
            draw < DEGRADATION_THRESHOLD,
        ensures
            o != Outcome::Ignored,
            final(self).enabled == old(self).enabled,
            final(self).clicks == old(self).clicks,
            final(self).cooldown == old(self).cooldown,
            final(self).carnage == old(self).carnage,
            final(self).cooldown_modeled == old(self).cooldown_modeled,
            final(self).bypass == old(self).bypass,
            final(self).buffer(!old(self).enabled) == old(self).buffer(!old(self).enabled),
            !corrupts(draw as int, old(self).clicks as int) ==> o == Outcome::Toggled,
            corrupts(draw as int, old(self).clicks as int) && old(self).buffer(old(self).enabled).len() > 0
                ==> o != Outcome::Toggled,
            old(self).buffer(old(self).enabled).len() == 0 ==> o == Outcome::Toggled,
            o matches Outcome::Corrupted(i) ==> corrupted_at(
                old(self).buffer(old(self).enabled),
                final(self).buffer(old(self).enabled),
                i as int,
                old(self).carnage,
            ),
            !(o is Corrupted) ==> final(self).buffer(old(self).enabled) == old(self).buffer(old(self).enabled),
    {
        if !Self::should_corrupt(self.clicks, draw) {
            return Outcome::Toggled;
        }
        let carnage = self.carnage;
        let result = if self.enabled {
            if self.toggle1.len() == 0 {
                return Outcome::Toggled;
            }
            randomize_chars(carnage, &mut self.rng, &mut self.toggle1)
        } else {
            if self.toggle0.len() == 0 {
                return Outcome::Toggled;
            }
            randomize_chars(carnage, &mut self.rng, &mut self.toggle0)
        };
        match result {
            Ok(i) => Outcome::Corrupted(i),
            Err(e) => Outcome::CorruptionFailed(e),
        }
    }

    /// An activation from `t`: flips the state as `change_state` does when
    /// it is accepted, and changes nothing otherwise.
    pub fn activate(&mut self, t: Trigger) -> (o: Outcome)
        ensures
            old(self).activation_step(final(self), t, o),
    {
        if self.can_activate(t) {
            self.change_state()
        } else {
            Outcome::Ignored
        }
    }

    /// A periodic tick: one step of the cooldown, floored at zero.
    pub fn tick(&mut self)
        ensures
            old(self).tick_step(final(self)),
    {
        if self.cooldown > 0 {
            self.cooldown = self.cooldown - 1;
        }
    }

    /// A key event: a press of the space bar activates; anything else is ignored.
    pub fn on_key(&mut self, pressed: bool, key: Option<char>) -> (o: Outcome)
        ensures
            pressed && key == Some(' ') ==> old(self).activation_step(final(self), Trigger::Keyboard, o),
            !(pressed && key == Some(' ')) ==> o == Outcome::Ignored && *final(self) == *old(self),
    {
        if pressed && key == Some(' ') {
            self.activate(Trigger::Keyboard)
        } else {
            Outcome::Ignored
        }
    }

    /// A mouse event: a press of the left button activates; anything else is ignored.
    pub fn on_mouse(&mut self, left_down: bool) -> (o: Outcome)
        ensures
            left_down ==> old(self).activation_step(final(self), Trigger::Mouse, o),
            !left_down ==> o == Outcome::Ignored && *final(self) == *old(self),
    {
        if left_down {
            self.activate(Trigger::Mouse)
        } else {
            Outcome::Ignored
        }
    }

    /// The text to display: the buffer of the current state.
    pub fn text(&self) -> (r: String)
        ensures
            r@ == self.buffer(self.enabled),
    {
        if self.enabled {
            string_of(&self.toggle1)
        } else {
            string_of(&self.toggle0)
        }
    }
}

/// The text first shown for a bit in state `enabled`.
pub fn initial_text(enabled: bool, off: &str, on: &str) -> (r: String)
    ensures
        r@ == if enabled {
            on@
        } else {
            off@
        },
{
    if enabled {
        on.to_string()
    } else {
        off.to_string()
    }
}

/// Corruption is monotone in the click count: every draw that corrupts after
/// `c1` clicks also corrupts after `c2 >= c1` clicks; `min(c, threshold)` of
/// the `threshold` possible draws corrupt; and from the threshold on, every
/// draw does.
pub proof fn lemma_corruption_monotone(c1: int, c2: int)
    requires
        0 <= c1 <= c2,
    ensures
        corrupting_draws(c1).subset_of(corrupting_draws(c2)),
        corrupting_draws(c1).finite(),
        corrupting_draws(c1).len() == if c1 < DEGRADATION_THRESHOLD {
            c1
        } else {
            DEGRADATION_THRESHOLD as int
        },
        c2 >= DEGRADATION_THRESHOLD ==> corrupting_draws(c2) == all_draws(),
{
    let hi = if c1 < DEGRADATION_THRESHOLD {
        c1
    } else {
        DEGRADATION_THRESHOLD as int
    };
    assert(corrupting_draws(c1) == set_int_range(0, hi));
    lemma_int_range(0, hi);
    if c2 >= DEGRADATION_THRESHOLD {
        assert(corrupting_draws(c2) == all_draws());
    }
}

/// With a cooldown, two activations with no tick between them flip the state
/// at most once, when the second comes from an input that does not bypass
/// the cooldown.
pub proof fn lemma_double_activation_flips_once(
    s0: BitEnabled,
    s1: BitEnabled,
    s2: BitEnabled,
    t1: Trigger,
    t2: Trigger,
    o1: Outcome,
    o2: Outcome,
)
    requires
        s0.cooldown_modeled,
        !bypasses(s0.bypass, t2),
        s0.activation_step(&s1, t1, o1),
        s1.activation_step(&s2, t2, o2),
    ensures
        s1.enabled == s0.enabled || s2.enabled == s1.enabled,
        s1.enabled != s0.enabled ==> o2 == Outcome::Ignored && s2 == s1,
{
}

proof fn lemma_ticks_bound(states: Seq<BitEnabled>, k: int)
    requires
        0 <= k < states.len(),
        states[0].cooldown <= COOLDOWN_TICKS,
        forall|i: int| 0 < i < states.len() ==> #[trigger] states[i - 1].tick_step(&states[i]),
    ensures
        states[k].cooldown as int <= if k >= COOLDOWN_TICKS {
            0
        } else {
            COOLDOWN_TICKS - k
        },
    decreases k,
{
    if k > 0 {
        lemma_ticks_bound(states, k - 1);
        assert(states[k - 1].tick_step(&states[k]));
    }
}

/// However the cooldown was left by the last activation, once at least
/// `COOLDOWN_TICKS` ticks have passed the next activation is accepted.
pub proof fn lemma_cooldown_expires(s0: BitEnabled, states: Seq<BitEnabled>, t0: Trigger, o0: Outcome, t: Trigger)
    requires
        s0.cooldown <= COOLDOWN_TICKS,
        s0.activation_step(&states[0], t0, o0),
        states.len() > COOLDOWN_TICKS,
        forall|i: int| 0 < i < states.len() ==> #[trigger] states[i - 1].tick_step(&states[i]),
    ensures
        states.last().accepts(t),
{
    lemma_ticks_bound(states, states.len() - 1);
}

} // verus!
