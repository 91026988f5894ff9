//! The discrete part of the AI opponent, the right paddle's brain.
//!
//! The AI steers the right paddle like a human would: every tick it
//! answers the ball state with a direction. Difficulty is four knobs; two
//! of them are discrete and live here:
//!
//! * **reaction delay**: the controller perceives the ball state from
//!   `delay_ticks` ago, through a small ring buffer ([`Perception`]): it
//!   literally sees the past;
//! * **prediction**: how the intercept point is computed ([`Prediction`]).
//!
//! The aim noise is committed once per approach leg: [`Perception`] also
//! reports when the ball turns toward the AI, which is when a fresh noise
//! draw is due.
use vstd::prelude::*;

use std::collections::VecDeque;

use crate::protocol::Difficulty;

verus! {

/// How the intercept target is computed from the perceived ball state.
#[derive(Debug, Clone, Copy, PartialEq, Eq, Structural)]
pub enum Prediction {
    /// Aim at the ball's current height: no look-ahead at all.
    TrackOnly,
    /// Linear extrapolation to the paddle's plane, clamped into the
    /// field: wall reflections are *not* folded in.
    Linear,
    /// Full trajectory: the extrapolated point is reflected off the top
    /// and bottom walls until it lies inside the field.
    Trajectory,
}

/// The discrete knobs of one difficulty tier.
#[derive(Debug, Clone, Copy, PartialEq, Eq, Structural)]
pub struct AiProfile {
    /// How many ticks old the ball state the AI sees is.
    pub delay_ticks: usize,
    pub prediction: Prediction,
}

/// The knobs of each tier: easy sees the ball 12 ticks late and only
/// tracks its height; normal is 6 ticks late and extrapolates linearly;
/// hard is 2 ticks late and folds the wall reflections in.
pub open spec fn profile_of(difficulty: Difficulty) -> AiProfile {
    match difficulty {
        Difficulty::Easy => AiProfile { delay_ticks: 12, prediction: Prediction::TrackOnly },
        Difficulty::Normal => AiProfile { delay_ticks: 6, prediction: Prediction::Linear },
        Difficulty::Hard => AiProfile { delay_ticks: 2, prediction: Prediction::Trajectory },
    }
}

/// The discrete knobs of `difficulty`.
pub fn ai_profile(difficulty: Difficulty) -> (profile: AiProfile)
    ensures
        profile == profile_of(difficulty),
{
    match difficulty {
        Difficulty::Easy => AiProfile { delay_ticks: 12, prediction: Prediction::TrackOnly },
        Difficulty::Normal => AiProfile { delay_ticks: 6, prediction: Prediction::Linear },
        Difficulty::Hard => AiProfile { delay_ticks: 2, prediction: Prediction::Trajectory },
    }
}

/// The tiers follow their table: at 60 ticks per second the easy AI
/// reacts in 200 ms and only tracks the ball's height, the normal one in
/// 100 ms with a linear intercept, the hard one in about 33 ms with the
/// full trajectory.
pub proof fn lemma_profiles_follow_the_tier_table()
    ensures
        profile_of(Difficulty::Easy).delay_ticks * 1000 / 60 == 200,
        profile_of(Difficulty::Normal).delay_ticks * 1000 / 60 == 100,
        profile_of(Difficulty::Hard).delay_ticks * 1000 / 60 == 33,
        profile_of(Difficulty::Easy).prediction == Prediction::TrackOnly,
        profile_of(Difficulty::Normal).prediction == Prediction::Linear,
        profile_of(Difficulty::Hard).prediction == Prediction::Trajectory,
{
}

/// Harder tiers react faster.
pub proof fn lemma_harder_reacts_faster()
    ensures
        profile_of(Difficulty::Hard).delay_ticks < profile_of(Difficulty::Normal).delay_ticks,
        profile_of(Difficulty::Normal).delay_ticks < profile_of(Difficulty::Easy).delay_ticks,
{
}

/// The last `count` elements of `samples` (all of them if there are
/// fewer).
pub open spec fn newest<T>(samples: Seq<T>, count: nat) -> Seq<T> {
    if samples.len() > count {
        samples.subrange(samples.len() - count, samples.len() as int)
    } else {
        samples
    }
}

/// What the AI perceives in one tick.
#[derive(Debug, PartialEq, Eq)]
pub struct Observation<T> {
    /// The oldest remembered sample: the ball state `delay_ticks` ticks
    /// ago (or the first one seen, early on).
    pub perceived: T,
    /// Whether a new approach leg began: the ball turned toward the AI
    /// since the last tick, so a fresh aim-noise draw is due.
    pub new_approach: bool,
}

/// The AI's memory: recent ball states, oldest first, and whether the
/// ball was moving toward it last tick.
pub struct PerceptionModel<T> {
    pub delay_ticks: nat,
    pub history: Seq<T>,
    pub approaching: bool,
}

/// The AI's reaction-delay line and approach tracker.
#[derive(Debug)]
pub struct Perception<T> {
    delay_ticks: usize,
    history: VecDeque<T>,
    approaching: bool,
}

impl<T> View for Perception<T> {
    type V = PerceptionModel<T>;

    closed spec fn view(&self) -> PerceptionModel<T> {
        PerceptionModel {
            delay_ticks: self.delay_ticks as nat,
            history: self.history@,
            approaching: self.approaching,
        }
    }
}

impl<T: Copy> Perception<T> {
    /// At most `delay_ticks + 1` samples are remembered.
    pub open spec fn wf(&self) -> bool {
        self@.history.len() <= self@.delay_ticks + 1
    }

    /// An empty memory that will see the ball `delay_ticks` ticks late.
    pub fn new(delay_ticks: usize) -> (perception: Self)
        requires
            delay_ticks < usize::MAX,
        ensures
            perception@ == (PerceptionModel::<T> {
                delay_ticks: delay_ticks as nat,
                history: Seq::empty(),
                approaching: false,
            }),
            perception.wf(),
    {
        Perception { delay_ticks, history: VecDeque::new(), approaching: false }
    }

    /// Feeds this tick's ball state; `toward` tells whether the ball is
    /// moving toward the AI right now. Returns the delayed state the AI
    /// reacts to, and whether a new approach leg began.
    pub fn observe(&mut self, sample: T, toward: bool) -> (observation: Observation<T>)
        requires
            old(self).wf(),
            old(self)@.delay_ticks < usize::MAX,
        ensures
            final(self).wf(),
            final(self)@ == (PerceptionModel {
                history: newest(old(self)@.history.push(sample), old(self)@.delay_ticks + 1),
                approaching: toward,
                ..old(self)@
            }),
            observation.perceived == final(self)@.history[0],
            observation.new_approach == (toward && !old(self)@.approaching),
    {
        // A new approach leg begins when the ball turns toward the AI.
        let new_approach = toward && !self.approaching;
        self.approaching = toward;

        // Perceive the world as it was `delay_ticks` ago.
        self.history.push_back(sample);
        let ghost pushed = self.history@;
        while self.history.len() > self.delay_ticks + 1
            invariant
                self.delay_ticks == old(self)@.delay_ticks,
                self.delay_ticks < usize::MAX,
                self.approaching == toward,
                pushed == old(self)@.history.push(sample),
                self.history@.len() >= 1,
                self.history@.len() == pushed.len() || self.history@.len() >= self.delay_ticks + 1,
                self.history@.len() <= pushed.len(),
                self.history@ == pushed.subrange(
                    pushed.len() - self.history@.len(),
                    pushed.len() as int,
                ),
                pushed.len() <= self.delay_ticks + 2,
            decreases self.history@.len(),
        {
            self.history.pop_front();
        }
        proof {
            if pushed.len() <= self.delay_ticks + 1 {
                assert(self.history@ =~= pushed);
            }
        }
        assert(self.history@ =~= newest(pushed, self.delay_ticks as nat + 1));
        let perceived = self.history[0];
        Observation { perceived, new_approach }
    }
}

/// The reaction delay is real: once the memory is full, the state the AI
/// reacts to is the one fed exactly `delay_ticks` ticks before the newest
/// one; with no delay it is the newest one itself.
pub proof fn lemma_perceives_the_delayed_sample<T>(history: Seq<T>, sample: T, delay_ticks: nat)
    requires
        history.len() == delay_ticks + 1,
    ensures
        newest(history.push(sample), delay_ticks + 1)[0] == history.push(sample)[history.len()
            - delay_ticks],
        delay_ticks == 0 ==> newest(history.push(sample), delay_ticks + 1)[0] == sample,
{
}

} // verus!
