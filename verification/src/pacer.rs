//! The pacer: a frame counter that divides the stream of rendered frames into
//! generations, and can be paused and retuned while it runs.

use vstd::arithmetic::div_mod::{
    lemma_fundamental_div_mod, lemma_fundamental_div_mod_converse, lemma_mod_bound, lemma_small_mod,
};
use vstd::prelude::*;

verus! {

/// Why a pacer could not be made.
#[derive(Clone, Copy, Debug, PartialEq, Eq, Structural)]
pub enum PacerError {
    /// A rate is zero or negative, or the least rate exceeds the greatest.
    InvalidConfig,
}

/// A pacer as a mathematical object.
pub struct PacerModel {
    /// The number of frames that make one generation.
    pub rate: int,
    /// The least rate that can be set.
    pub min_rate: int,
    /// The greatest rate that can be set.
    pub max_rate: int,
    /// By how much one adjustment changes the rate, before clamping.
    pub step: int,
    /// The number of frames seen since the last generation fell due.
    pub counter: int,
    /// Whether generations are withheld.
    pub paused: bool,
}

/// `value`, moved into `[low, high]` where it lies outside.
pub open spec fn clamp(value: int, low: int, high: int) -> int {
    if value < low {
        low
    } else if value > high {
        high
    } else {
        value
    }
}

/// Whether the rates make a pacer: each is positive, and the least does not
/// exceed the greatest.
pub open spec fn valid_config(initial_rate: int, min_rate: int, max_rate: int) -> bool {
    0 < initial_rate && 0 < min_rate && 0 < max_rate && min_rate <= max_rate
}

impl PacerModel {
    /// The rate is positive and within its range, and the counter is below it.
    pub open spec fn wf(self) -> bool {
        0 < self.min_rate <= self.rate <= self.max_rate && 0 <= self.counter < self.rate
    }

    /// The pacer as it is made: the rate clamped into its range, no frame
    /// counted, running.
    pub open spec fn initial(
        initial_rate: int,
        min_rate: int,
        max_rate: int,
        step: int,
    ) -> PacerModel {
        PacerModel {
            rate: clamp(initial_rate, min_rate, max_rate),
            min_rate,
            max_rate,
            step,
            counter: 0,
            paused: false,
        }
    }

    /// Whether the next frame completes a cycle of the counter.
    pub open spec fn wraps(self) -> bool {
        self.counter + 1 >= self.rate
    }

    /// Whether a generation falls due on the next frame: the counter wraps
    /// and the pacer is not paused.
    pub open spec fn fires(self) -> bool {
        self.wraps() && !self.paused
    }

    /// The pacer after one frame: the counter is one further, or back at
    /// zero where it reached the rate. Pausing does not hold the counter.
    pub open spec fn tick(self) -> PacerModel {
        PacerModel {
            counter: if self.wraps() {
                0
            } else {
                self.counter + 1
            },
            ..self
        }
    }

    /// The pacer with `paused` flipped.
    pub open spec fn toggle_pause(self) -> PacerModel {
        PacerModel { paused: !self.paused, ..self }
    }

    /// The pacer at the rate `rate`. The counter keeps its value where that is
    /// below the new rate, and else is reduced modulo the new rate, so
    /// that the frame after next is counted as if the counter had run on.
    pub open spec fn with_rate(self, rate: int) -> PacerModel {
        PacerModel { rate, counter: self.counter % rate, ..self }
    }

    /// The pacer after one adjustment of the rate upwards.
    pub open spec fn increase_rate(self) -> PacerModel {
        self.with_rate(clamp(self.rate + self.step, self.min_rate, self.max_rate))
    }

    /// The pacer after one adjustment of the rate downwards.
    pub open spec fn decrease_rate(self) -> PacerModel {
        self.with_rate(clamp(self.rate - self.step, self.min_rate, self.max_rate))
    }

    /// The pacer after `frames` frames.
    pub open spec fn after(self, frames: nat) -> PacerModel
        decreases frames,
    {
        if frames == 0 {
            self
        } else {
            self.after((frames - 1) as nat).tick()
        }
    }
}

impl PacerModel {
    /// A valid configuration makes a valid pacer, whose rate is the initial
    /// rate wherever that lies within the range.
    pub proof fn lemma_initial_wf(initial_rate: int, min_rate: int, max_rate: int, step: int)
        requires
            valid_config(initial_rate, min_rate, max_rate),
        ensures
            Self::initial(initial_rate, min_rate, max_rate, step).wf(),
            min_rate <= initial_rate <= max_rate ==> Self::initial(
                initial_rate,
                min_rate,
                max_rate,
                step,
            ).rate == initial_rate,
    {
    }

    /// Frames, pauses and adjustments of the rate keep a valid pacer valid:
    /// the rate stays within its range and the counter below the rate.
    pub proof fn lemma_steps_keep_wf(self)
        requires
            self.wf(),
        ensures
            self.tick().wf(),
            self.toggle_pause().wf(),
            self.increase_rate().wf(),
            self.decrease_rate().wf(),
    {
    }

    /// An adjustment that leaves the counter below the new rate does not
    /// touch the counter.
    pub proof fn lemma_rate_change_keeps_counter(self)
        requires
            self.wf(),
        ensures
            self.counter < self.increase_rate().rate ==> self.increase_rate().counter
                == self.counter,
            self.counter < self.decrease_rate().rate ==> self.decrease_rate().counter
                == self.counter,
    {
        if self.counter < self.increase_rate().rate {
            lemma_small_mod(self.counter as nat, self.increase_rate().rate as nat);
        }
        if self.counter < self.decrease_rate().rate {
            lemma_small_mod(self.counter as nat, self.decrease_rate().rate as nat);
        }
    }

    /// To pause and resume, or resume and pause, leaves the pacer as it was.
    pub proof fn lemma_toggle_pause_twice(self)
        ensures
            self.toggle_pause().toggle_pause() == self,
    {
    }

    /// A paused pacer lets no generation fall due, yet its counter moves as
    /// that of a running one does.
    pub proof fn lemma_paused_counts_on(self)
        requires
            self.paused,
        ensures
            !self.fires(),
            self.tick().counter == self.toggle_pause().tick().counter,
            self.tick().paused,
    {
    }

    /// However many frames have gone by, the counter is the number of frames
    /// counted in all, reduced modulo the rate. Pausing plays no part in
    /// this, and rate, range and pause are as they were.
    pub proof fn lemma_counter_after(self, frames: nat)
        requires
            self.wf(),
        ensures
            self.after(frames).counter == (self.counter + frames) % self.rate,
            self.after(frames).rate == self.rate,
            self.after(frames).paused == self.paused,
            self.after(frames).wf(),
        decreases frames,
    {
        if frames == 0 {
            lemma_small_mod(self.counter as nat, self.rate as nat);
        } else {
            self.lemma_counter_after((frames - 1) as nat);
            lemma_mod_successor(self.counter + frames - 1, self.rate);
        }
    }

    /// The cadence of a running pacer: a generation falls due on the frame
    /// `frame`, counted from one, exactly if the frames counted in all by
    /// then are a multiple of the rate. From a counter at zero those are the
    /// frames whose number is a multiple of the rate.
    pub proof fn lemma_cadence(self, frame: nat)
        requires
            self.wf(),
            !self.paused,
            1 <= frame,
        ensures
            self.after((frame - 1) as nat).fires() <==> (self.counter + frame) % self.rate == 0,
            self.counter == 0 ==> (self.after((frame - 1) as nat).fires() <==> (frame as int)
                % self.rate == 0),
    {
        self.lemma_counter_after((frame - 1) as nat);
        lemma_mod_successor(self.counter + frame - 1, self.rate);
    }

    /// While the pacer is paused no generation falls due, on any frame.
    pub proof fn lemma_paused_never_fires(self, frames: nat)
        requires
            self.wf(),
            self.paused,
        ensures
            !self.after(frames).fires(),
    {
        self.lemma_counter_after(frames);
    }
}

/// One more than `n`, modulo `rate`, is one more than `n` modulo `rate`, or
/// zero where that reaches `rate`.
proof fn lemma_mod_successor(n: int, rate: int)
    requires
        0 <= n,
        0 < rate,
    ensures
        (n + 1) % rate == (if n % rate + 1 >= rate {
            0
        } else {
            n % rate + 1
        }),
{
    let q = n / rate;
    let r = n % rate;
    lemma_fundamental_div_mod(n, rate);
    lemma_mod_bound(n, rate);
    if r + 1 >= rate {
        assert(n + 1 == (q + 1) * rate + 0) by (nonlinear_arith)
            requires
                n == rate * q + r,
                r + 1 == rate,
        ;
        lemma_fundamental_div_mod_converse(n + 1, rate, q + 1, 0);
    } else {
        assert(n + 1 == q * rate + (r + 1)) by (nonlinear_arith)
            requires
                n == rate * q + r,
        ;
        lemma_fundamental_div_mod_converse(n + 1, rate, q, r + 1);
    }
}

/// The frame divider. One call of `on_frame` per rendered frame; a
/// generation falls due every `ticks_per_generation` frames.
#[derive(Debug)]
pub struct Pacer {
    ticks_per_generation: i32,
    min_rate: i32,
    max_rate: i32,
    step: i32,
    tick_counter: i32,
    paused: bool,
}

impl View for Pacer {
    type V = PacerModel;

    closed spec fn view(&self) -> PacerModel {
        PacerModel {
            rate: self.ticks_per_generation as int,
            min_rate: self.min_rate as int,
            max_rate: self.max_rate as int,
            step: self.step as int,
            counter: self.tick_counter as int,
            paused: self.paused,
        }
    }
}

impl Pacer {
    /// The pacer's state is valid.
    pub open spec fn wf(&self) -> bool {
        self@.wf()
    }

    /// A running pacer with no frame counted, at `initial_rate` frames per
    /// generation clamped into `[min_rate, max_rate]`; `InvalidConfig`
    /// where one of the three rates is not positive or `min_rate` exceeds
    /// `max_rate`.
    pub fn new(initial_rate: i32, min_rate: i32, max_rate: i32, step: i32) -> (r: Result<
        Pacer,
        PacerError,
    >)
        ensures
            match r {
                Ok(pacer) => valid_config(initial_rate as int, min_rate as int, max_rate as int)
                    && pacer.wf() && pacer@ == PacerModel::initial(
                    initial_rate as int,
                    min_rate as int,
                    max_rate as int,
                    step as int,
                ),
                Err(e) => !valid_config(initial_rate as int, min_rate as int, max_rate as int)
                    && e == PacerError::InvalidConfig,
            },
    {
        if initial_rate <= 0 || min_rate <= 0 || max_rate <= 0 || min_rate > max_rate {
            return Err(PacerError::InvalidConfig);
        }
        let rate = if initial_rate < min_rate {
            min_rate
        } else if initial_rate > max_rate {
            max_rate
        } else {
            initial_rate
        };
        Ok(
            Pacer {
                ticks_per_generation: rate,
                min_rate,
                max_rate,
                step,
                tick_counter: 0,
                paused: false,
            },
        )
    }

    /// Counts one rendered frame, and says whether a generation falls due on
    /// it: the counter came round to zero and the pacer is not paused.
    pub fn on_frame(&mut self) -> (due: bool)
        requires
            old(self).wf(),
        ensures
            final(self).wf(),
            final(self)@ == old(self)@.tick(),
            due == old(self)@.fires(),
    {
        let wrapped = self.tick_counter + 1 >= self.ticks_per_generation;
        if wrapped {
            self.tick_counter = 0;
        } else {
            self.tick_counter = self.tick_counter + 1;
        }
        wrapped && !self.paused
    }

    /// Pauses a running pacer and resumes a paused one. The counter is not
    /// touched.
    pub fn toggle_pause(&mut self)
        ensures
            final(self)@ == old(self)@.toggle_pause(),
    {
        self.paused = !self.paused;
    }

    /// Sets the rate to `rate` clamped into the pacer's range.
    fn retune(&mut self, rate: i64)
        requires
            old(self).wf(),
        ensures
            final(self).wf(),
            final(self)@ == old(self)@.with_rate(
                clamp(rate as int, old(self)@.min_rate, old(self)@.max_rate),
            ),
    {
        let clamped: i32 = if rate < self.min_rate as i64 {
            self.min_rate
        } else if rate > self.max_rate as i64 {
            self.max_rate
        } else {
            rate as i32
        };
        self.ticks_per_generation = clamped;
        self.tick_counter = self.tick_counter % clamped;
    }

    /// Raises the number of frames per generation by the step, as far as the
    /// range allows.
    pub fn increase_rate(&mut self)
        requires
            old(self).wf(),
        ensures
            final(self).wf(),
            final(self)@ == old(self)@.increase_rate(),
    {
        self.retune(self.ticks_per_generation as i64 + self.step as i64);
    }

    /// Lowers the number of frames per generation by the step, as far as the
    /// range allows.
    pub fn decrease_rate(&mut self)
        requires
            old(self).wf(),
        ensures
            final(self).wf(),
            final(self)@ == old(self)@.decrease_rate(),
    {
        self.retune(self.ticks_per_generation as i64 - self.step as i64);
    }

    /// The number of frames that make one generation.
    pub fn ticks_per_generation(&self) -> (rate: i32)
        ensures
            rate == self@.rate,
    {
        self.ticks_per_generation
    }

    /// The number of frames counted since the counter last came round.
    pub fn tick_counter(&self) -> (counter: i32)
        ensures
            counter == self@.counter,
    {
        self.tick_counter
    }

    /// Whether the pacer is paused.
    pub fn is_paused(&self) -> (paused: bool)
        ensures
            paused == self@.paused,
    {
        self.paused
    }
}

} // verus!
