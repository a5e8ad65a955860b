//! The generator itself: a small state machine that is stepped with the
//! time.
//!
//! As long as the clock moves on, an identifier holds the clock's tick
//! and the next sequence number of that tick. When the sequence numbers
//! of a tick are used up, the generator runs ahead of the clock, one
//! tick at a time, for a bounded number of ticks. When the clock goes
//! back, it gives identifiers of past ticks under one of four reserved
//! sequence numbers.

use crate::idgen::id_generator_options::two_to;
use crate::idgen::id_generator_options::IdError;
use crate::idgen::id_generator_options::IdGeneratorOptions;
use crate::idgen::id_generator_options::DEFAULT_BASE_TIME;
use vstd::arithmetic::power2::pow2;
use vstd::prelude::*;

verus! {

/// The largest tick that the generator accepts from the clock: the
/// number of milliseconds since the base time.
pub const MAX_TICK: i64 = 1099511627776;

/// The largest number of ticks by which the generator runs ahead.
pub const MAX_AHEAD: i64 = 10001;

/// A generator of identifiers.
#[derive(Clone, Copy, Debug)]
pub struct SnowWorker {
    /// The moment from which time is counted.
    pub base_time: i64,
    /// The number of this machine.
    pub worker_id: u32,
    /// How many bits hold the machine's number.
    pub worker_id_bit_length: u8,
    /// How many bits hold the sequence number.
    pub seq_bit_length: u8,
    /// The largest sequence number.
    pub max_seq_number: u32,
    /// The smallest sequence number.
    pub min_seq_number: u32,
    /// For how many ticks the generator may run ahead in one stretch.
    pub top_over_cost_count: u32,
    /// By how many bits the tick is shifted.
    pub timestamp_shift: u8,
    /// The sequence number of the next identifier.
    pub current_seq_number: u32,
    /// The tick of the last identifier.
    pub last_time_tick: i64,
    /// The past tick of the next identifier while the clock is behind.
    pub turn_back_time_tick: i64,
    /// The reserved sequence number in use while the clock is behind.
    pub turn_back_index: u8,
    /// Whether the generator runs ahead of the clock.
    pub is_over_cost: bool,
    /// By how many ticks it has run ahead in this stretch.
    pub over_cost_count_in_one_term: u32,
    /// A tally of the identifiers of this stretch; it wraps.
    pub gen_count_in_one_term: u32,
    /// A tally of the stretches; it wraps.
    pub term_index: u32,
}

/// One more in a tally that wraps.
pub open spec fn tallied(count: u32) -> u32 {
    if count == u32::MAX {
        0
    } else {
        (count + 1) as u32
    }
}

fn tally(count: u32) -> (r: u32)
    ensures
        r == tallied(count),
{
    if count == u32::MAX {
        0
    } else {
        count + 1
    }
}

impl SnowWorker {
    /// What the generator's state must satisfy.
    pub open spec fn wf(self) -> bool {
        &&& 1 <= self.worker_id_bit_length
        &&& 2 <= self.seq_bit_length <= 21
        &&& self.worker_id_bit_length + self.seq_bit_length <= 22
        &&& self.timestamp_shift == self.worker_id_bit_length + self.seq_bit_length
        &&& self.worker_id < pow2(self.worker_id_bit_length as nat)
        &&& self.max_seq_number < 2097152
        &&& self.min_seq_number < 2097152
        &&& self.current_seq_number <= 2097152
        &&& self.top_over_cost_count <= 10000
        &&& self.turn_back_index <= 4
        &&& -1 <= self.turn_back_time_tick <= MAX_TICK + MAX_AHEAD
        &&& 0 <= self.last_time_tick
        &&& if self.is_over_cost {
            &&& 1 <= self.over_cost_count_in_one_term <= MAX_AHEAD
            &&& self.last_time_tick <= MAX_TICK + self.over_cost_count_in_one_term
        } else {
            self.last_time_tick <= MAX_TICK
        }
    }

    /// Whether the generator's state is in order.
    pub fn is_wf(&self) -> (r: bool)
        ensures
            r == self.wf(),
    {
        if self.worker_id_bit_length < 1 || self.seq_bit_length < 2 || self.seq_bit_length > 21
            || self.worker_id_bit_length > 22 - self.seq_bit_length {
            return false;
        }
        self.timestamp_shift == self.worker_id_bit_length + self.seq_bit_length
            && (self.worker_id as u64) < two_to(self.worker_id_bit_length)
            && self.max_seq_number < 2097152 && self.min_seq_number < 2097152
            && self.current_seq_number <= 2097152 && self.top_over_cost_count <= 10000
            && self.turn_back_index <= 4 && -1 <= self.turn_back_time_tick
            && self.turn_back_time_tick <= MAX_TICK + MAX_AHEAD && 0 <= self.last_time_tick && if self.is_over_cost {
            1 <= self.over_cost_count_in_one_term && self.over_cost_count_in_one_term as i64
                <= MAX_AHEAD && self.last_time_tick <= MAX_TICK
                + self.over_cost_count_in_one_term as i64
        } else {
            self.last_time_tick <= MAX_TICK
        }
    }

    /// The identifier of a tick and a sequence number: the tick in the
    /// high bits, then the machine's number, then the sequence number.
    pub open spec fn id_of(self, tick: int, seq: int) -> int {
        tick * pow2(self.timestamp_shift as nat) + self.worker_id * pow2(
            self.seq_bit_length as nat,
        ) + seq
    }

    /// The generator after an identifier of the current sequence number
    /// was given.
    pub open spec fn counted(self) -> SnowWorker {
        SnowWorker { current_seq_number: (self.current_seq_number + 1) as u32, ..self }
    }

    /// The generator after the clock has caught up with it: at the tick
    /// `tick`, with the sequence numbers of that tick unused.
    pub open spec fn caught_up(self, tick: i64) -> SnowWorker {
        SnowWorker {
            last_time_tick: tick,
            current_seq_number: self.min_seq_number,
            is_over_cost: false,
            over_cost_count_in_one_term: 0,
            gen_count_in_one_term: 0,
            ..self
        }
    }

    /// One step of a generator that runs ahead of the clock, at the tick
    /// `tick`: the state after it and the identifier, if one is given.
    ///
    /// Once the clock has passed the generator's tick, the generator
    /// goes back to following the clock. While it has not, and the bound
    /// on running ahead is reached, nothing is given and nothing
    /// changes: the caller asks again later. Else the generator moves on
    /// to the next tick where the sequence numbers are used up, and gives
    /// the next sequence number.
    pub open spec fn after_over_cost(self, tick: i64) -> (SnowWorker, Option<i64>) {
        if tick > self.last_time_tick {
            let next = self.caught_up(tick);
            (next.counted(), Some(next.id_of(tick as int, next.current_seq_number as int) as i64))
        } else if self.over_cost_count_in_one_term >= self.top_over_cost_count {
            (self, None)
        } else if self.current_seq_number > self.max_seq_number {
            let next = SnowWorker {
                last_time_tick: (self.last_time_tick + 1) as i64,
                current_seq_number: self.min_seq_number,
                is_over_cost: true,
                over_cost_count_in_one_term: (self.over_cost_count_in_one_term + 1) as u32,
                gen_count_in_one_term: tallied(self.gen_count_in_one_term),
                ..self
            };
            (
                next.counted(),
                Some(
                    next.id_of(next.last_time_tick as int, next.current_seq_number as int) as i64,
                ),
            )
        } else {
            let next = SnowWorker {
                gen_count_in_one_term: tallied(self.gen_count_in_one_term),
                ..self
            };
            (
                next.counted(),
                Some(
                    next.id_of(next.last_time_tick as int, next.current_seq_number as int) as i64,
                ),
            )
        }
    }

    /// One step of a generator that follows the clock, at the tick
    /// `tick`: the state after it and the identifier.
    ///
    /// Where the clock is behind the generator's tick, the identifier is
    /// that of a past tick, one further back with each step, under a
    /// reserved sequence number from 1 to 4 that changes each time the
    /// clock goes back anew. Where the clock has moved on, the
    /// identifier is the first of the new tick. Within one tick the
    /// sequence numbers are given in turn, and when they are used up the
    /// generator starts to run ahead.
    pub open spec fn after_normal(self, tick: i64) -> (SnowWorker, Option<i64>) {
        if tick < self.last_time_tick {
            let back = if self.turn_back_time_tick < 1 {
                SnowWorker {
                    turn_back_time_tick: (self.last_time_tick - 1) as i64,
                    turn_back_index: if self.turn_back_index + 1 > 4 {
                        1
                    } else {
                        (self.turn_back_index + 1) as u8
                    },
                    ..self
                }
            } else {
                self
            };
            (
                SnowWorker { turn_back_time_tick: (back.turn_back_time_tick - 1) as i64, ..back },
                Some(
                    back.id_of(back.turn_back_time_tick as int, back.turn_back_index as int) as i64,
                ),
            )
        } else {
            let level = SnowWorker { turn_back_time_tick: 0, ..self };
            let level = if self.turn_back_time_tick > 0 {
                level
            } else {
                self
            };
            if tick > level.last_time_tick {
                let next = SnowWorker {
                    last_time_tick: tick,
                    current_seq_number: level.min_seq_number,
                    ..level
                };
                (
                    next.counted(),
                    Some(next.id_of(tick as int, next.current_seq_number as int) as i64),
                )
            } else if level.current_seq_number > level.max_seq_number {
                let next = SnowWorker {
                    term_index: tallied(level.term_index),
                    last_time_tick: (level.last_time_tick + 1) as i64,
                    current_seq_number: level.min_seq_number,
                    is_over_cost: true,
                    over_cost_count_in_one_term: 1,
                    gen_count_in_one_term: 1,
                    ..level
                };
                (
                    next.counted(),
                    Some(
                        next.id_of(
                            next.last_time_tick as int,
                            next.current_seq_number as int,
                        ) as i64,
                    ),
                )
            } else {
                (
                    level.counted(),
                    Some(
                        level.id_of(
                            level.last_time_tick as int,
                            level.current_seq_number as int,
                        ) as i64,
                    ),
                )
            }
        }
    }

    /// Whether the sequence numbers fit the bits that hold them, so that
    /// no identifier of one tick reaches into the next.
    pub open spec fn fits_bits(self) -> bool {
        self.max_seq_number < pow2(self.seq_bit_length as nat) && self.min_seq_number < pow2(
            self.seq_bit_length as nat,
        )
    }

    /// One step of the generator at the tick `tick`.
    pub open spec fn after(self, tick: i64) -> (SnowWorker, Option<i64>) {
        if self.is_over_cost {
            self.after_over_cost(tick)
        } else {
            self.after_normal(tick)
        }
    }

    /// The generator that the settings describe, before its first
    /// identifier; `self` gives the fields that the settings leave
    /// alone.
    pub open spec fn configured(self, options: IdGeneratorOptions) -> SnowWorker {
        SnowWorker {
            base_time: if options.base_time == 0 {
                DEFAULT_BASE_TIME
            } else {
                options.base_time
            },
            worker_id_bit_length: options.worker_id_bit_length,
            worker_id: options.worker_id,
            seq_bit_length: options.seq_bit_length,
            max_seq_number: if options.max_seq_number == 0 {
                63
            } else {
                options.max_seq_number
            },
            min_seq_number: options.min_seq_number,
            top_over_cost_count: options.top_over_cost_count,
            timestamp_shift: (options.worker_id_bit_length + options.seq_bit_length) as u8,
            current_seq_number: options.min_seq_number,
            ..self
        }
    }

    /// A generator with nothing set.
    pub open spec fn blank() -> SnowWorker {
        SnowWorker {
            base_time: DEFAULT_BASE_TIME,
            worker_id_bit_length: 0,
            worker_id: 0,
            seq_bit_length: 0,
            max_seq_number: 0,
            min_seq_number: 0,
            top_over_cost_count: 0,
            timestamp_shift: 0,
            current_seq_number: 0,
            last_time_tick: 0,
            turn_back_time_tick: 0,
            turn_back_index: 0,
            is_over_cost: false,
            over_cost_count_in_one_term: 0,
            gen_count_in_one_term: 0,
            term_index: 0,
        }
    }

    /// Takes the settings over, if they are acceptable at the time
    /// `now_millis`; else the generator stays as it is.
    pub fn set_options_at(&mut self, options: IdGeneratorOptions, now_millis: i64) -> (r: Result<
        (),
        IdError,
    >)
        ensures
            match r {
                Ok(_) => options.fault(now_millis) is None && *final(self) == old(
                    self,
                ).configured(options),
                Err(e) => options.fault(now_millis) == Some(e) && *final(self) == *old(self),
            },
    {
        match options.check(now_millis) {
            Ok(_) => {},
            Err(e) => {
                return Err(e);
            },
        }
        self.base_time = if options.base_time == 0 {
            DEFAULT_BASE_TIME
        } else {
            options.base_time
        };
        self.worker_id_bit_length = options.worker_id_bit_length;
        self.worker_id = options.worker_id;
        self.seq_bit_length = options.seq_bit_length;
        self.max_seq_number = if options.max_seq_number == 0 {
            63
        } else {
            options.max_seq_number
        };
        self.min_seq_number = options.min_seq_number;
        self.top_over_cost_count = options.top_over_cost_count;
        self.timestamp_shift = self.worker_id_bit_length + self.seq_bit_length;
        self.current_seq_number = self.min_seq_number;
        Ok(())
    }

    /// The generator that the settings describe, if they are acceptable
    /// at the time `now_millis`.
    pub fn new_at(options: IdGeneratorOptions, now_millis: i64) -> (r: Result<SnowWorker, IdError>)
        ensures
            match r {
                Ok(worker) => options.fault(now_millis) is None && worker == Self::blank().configured(
                    options,
                ) && worker.wf(),
                Err(e) => options.fault(now_millis) == Some(e),
            },
    {
        let mut worker = SnowWorker {
            base_time: DEFAULT_BASE_TIME,
            worker_id_bit_length: 0,
            worker_id: 0,
            seq_bit_length: 0,
            max_seq_number: 0,
            min_seq_number: 0,
            top_over_cost_count: 0,
            timestamp_shift: 0,
            current_seq_number: 0,
            last_time_tick: 0,
            turn_back_time_tick: 0,
            turn_back_index: 0,
            is_over_cost: false,
            over_cost_count_in_one_term: 0,
            gen_count_in_one_term: 0,
            term_index: 0,
        };
        match worker.set_options_at(options, now_millis) {
            Ok(_) => {
                proof {
                    lemma_configured_wf(Self::blank(), options, now_millis);
                }
                Ok(worker)
            },
            Err(e) => Err(e),
        }
    }
}

impl SnowWorker {
    /// The identifier of a tick and a sequence number.
    fn compose(&self, tick: i64, seq: u32) -> (r: i64)
        requires
            self.wf(),
            0 <= tick <= MAX_TICK + MAX_AHEAD,
            seq < 2097152,
        ensures
            r == self.id_of(tick as int, seq as int),
    {
        let shift = two_to(self.timestamp_shift);
        let place = two_to(self.seq_bit_length);
        assert(tick * shift <= (MAX_TICK + MAX_AHEAD) * 4194304) by (nonlinear_arith)
            requires
                0 <= tick <= MAX_TICK + MAX_AHEAD,
                0 <= shift <= 4194304,
        ;
        assert(self.worker_id * place <= 4294967295 * 4194304) by (nonlinear_arith)
            requires
                0 <= self.worker_id <= 4294967295,
                0 <= place <= 4194304,
        ;
        let high = (tick as u64) * shift;
        let middle = (self.worker_id as u64) * place;
        (high + middle + seq as u64) as i64
    }

    /// The identifier of `use_time_tick` and the current sequence
    /// number, which is then used up.
    fn calc_id(&mut self, use_time_tick: i64) -> (r: i64)
        requires
            old(self).wf(),
            0 <= use_time_tick <= MAX_TICK + MAX_AHEAD,
            old(self).current_seq_number < 2097152,
        ensures
            r == old(self).id_of(use_time_tick as int, old(self).current_seq_number as int),
            *final(self) == old(self).counted(),
    {
        let result = self.compose(use_time_tick, self.current_seq_number);
        self.current_seq_number = self.current_seq_number + 1;
        result
    }

    /// The identifier of the past tick `use_time_tick` under the
    /// reserved sequence number in use; the next one lies one tick
    /// further back.
    fn calc_turn_back_id(&mut self, use_time_tick: i64) -> (r: i64)
        requires
            old(self).wf(),
            0 <= use_time_tick <= MAX_TICK + MAX_AHEAD,
            0 <= old(self).turn_back_time_tick,
        ensures
            r == old(self).id_of(use_time_tick as int, old(self).turn_back_index as int),
            *final(self) == (SnowWorker {
                turn_back_time_tick: (old(self).turn_back_time_tick - 1) as i64,
                ..*old(self)
            }),
    {
        let result = self.compose(use_time_tick, self.turn_back_index as u32);
        self.turn_back_time_tick = self.turn_back_time_tick - 1;
        result
    }

    /// One step while the generator runs ahead of the clock.
    fn next_over_cost_id(&mut self, current_time_tick: i64) -> (r: Option<i64>)
        requires
            old(self).wf(),
            old(self).is_over_cost,
            0 <= current_time_tick <= MAX_TICK,
        ensures
            final(self).wf(),
            (*final(self), r) == old(self).after_over_cost(current_time_tick),
    {
        if current_time_tick > self.last_time_tick {
            self.last_time_tick = current_time_tick;
            self.current_seq_number = self.min_seq_number;
            self.is_over_cost = false;
            self.over_cost_count_in_one_term = 0;
            self.gen_count_in_one_term = 0;
            return Some(self.calc_id(self.last_time_tick));
        }
        if self.over_cost_count_in_one_term >= self.top_over_cost_count {
            return None;
        }
        if self.current_seq_number > self.max_seq_number {
            self.last_time_tick = self.last_time_tick + 1;
            self.current_seq_number = self.min_seq_number;
            self.is_over_cost = true;
            self.over_cost_count_in_one_term = self.over_cost_count_in_one_term + 1;
            self.gen_count_in_one_term = tally(self.gen_count_in_one_term);
            return Some(self.calc_id(self.last_time_tick));
        }
        self.gen_count_in_one_term = tally(self.gen_count_in_one_term);
        Some(self.calc_id(self.last_time_tick))
    }

    /// One step while the generator follows the clock.
    fn next_normal_id(&mut self, current_time_tick: i64) -> (r: Option<i64>)
        requires
            old(self).wf(),
            !old(self).is_over_cost,
            0 <= current_time_tick <= MAX_TICK,
        ensures
            final(self).wf(),
            r is Some,
            (*final(self), r) == old(self).after_normal(current_time_tick),
    {
        if current_time_tick < self.last_time_tick {
            if self.turn_back_time_tick < 1 {
                self.turn_back_time_tick = self.last_time_tick - 1;
                self.turn_back_index = self.turn_back_index + 1;
                if self.turn_back_index > 4 {
                    self.turn_back_index = 1;
                }
            }
            return Some(self.calc_turn_back_id(self.turn_back_time_tick));
        }
        if self.turn_back_time_tick > 0 {
            self.turn_back_time_tick = 0;
        }
        if current_time_tick > self.last_time_tick {
            self.last_time_tick = current_time_tick;
            self.current_seq_number = self.min_seq_number;
            return Some(self.calc_id(self.last_time_tick));
        }
        if self.current_seq_number > self.max_seq_number {
            self.term_index = tally(self.term_index);
            self.last_time_tick = self.last_time_tick + 1;
            self.current_seq_number = self.min_seq_number;
            self.is_over_cost = true;
            self.over_cost_count_in_one_term = 1;
            self.gen_count_in_one_term = 1;
            return Some(self.calc_id(self.last_time_tick));
        }
        Some(self.calc_id(self.last_time_tick))
    }

    /// The next identifier at the tick `current_time_tick`: the number
    /// of milliseconds that have passed since the base time. Nothing is
    /// given, and nothing changes, while the generator has run ahead of
    /// the clock as far as it may: the caller then asks again once the
    /// clock has moved on.
    pub fn next_id(&mut self, current_time_tick: i64) -> (r: Option<i64>)
        requires
            old(self).wf(),
            0 <= current_time_tick <= MAX_TICK,
        ensures
            final(self).wf(),
            (*final(self), r) == old(self).after(current_time_tick),
            r is None <==> old(self).must_wait(current_time_tick),
    {
        if self.is_over_cost {
            self.next_over_cost_id(current_time_tick)
        } else {
            self.next_normal_id(current_time_tick)
        }
    }

    /// Whether the generator has run ahead of the clock as far as it may
    /// and the clock, at `tick`, has not caught up.
    pub open spec fn must_wait(self, tick: i64) -> bool {
        self.is_over_cost && tick <= self.last_time_tick && self.over_cost_count_in_one_term
            >= self.top_over_cost_count
    }

    /// The tick of the moment `now_millis`, if it lies in the range that
    /// the generator accepts.
    pub fn tick_at(&self, now_millis: i64) -> (r: Option<i64>)
        ensures
            r is Some <==> 0 <= now_millis - self.base_time <= MAX_TICK,
            r matches Some(tick) ==> tick == now_millis - self.base_time,
    {
        match now_millis.checked_sub(self.base_time) {
            Some(tick) => if 0 <= tick && tick <= MAX_TICK {
                Some(tick)
            } else {
                None
            },
            None => None,
        }
    }
}

/// `chrono::Utc::now` and `DateTime::timestamp_millis`: what the clock
/// reads, in milliseconds since the epoch. Nothing is claimed of it.
#[verifier::external_body]
pub(crate) fn current_millis() -> (now: i64) {
    chrono::Utc::now().timestamp_millis()
}

/// For how many milliseconds a caller lets a generator rest after it has
/// taken new settings over: half a second under method 1, else not at
/// all.
pub fn settle_millis(options: &IdGeneratorOptions) -> (r: u64)
    ensures
        r == if options.method == 1 {
            500u64
        } else {
            0u64
        },
{
    if options.method == 1 {
        500
    } else {
        0
    }
}

impl SnowWorker {
    /// The generator for machine 1 with every setting at its default,
    /// before its first identifier.
    pub open spec fn fresh() -> SnowWorker {
        SnowWorker {
            base_time: DEFAULT_BASE_TIME,
            worker_id_bit_length: 6,
            worker_id: 1,
            seq_bit_length: 6,
            max_seq_number: 63,
            min_seq_number: 5,
            top_over_cost_count: 2000,
            timestamp_shift: 12,
            current_seq_number: 5,
            last_time_tick: 0,
            turn_back_time_tick: 0,
            turn_back_index: 0,
            is_over_cost: false,
            over_cost_count_in_one_term: 0,
            gen_count_in_one_term: 0,
            term_index: 0,
        }
    }

    /// Takes the settings over, if they are acceptable now; else the
    /// generator stays as it is. The settings are judged at what the
    /// clock reads during the call.
    pub fn set_options(&mut self, options: IdGeneratorOptions) -> (r: Result<(), IdError>)
        ensures
            exists|now: i64|
                match r {
                    Ok(_) => #[trigger] options.fault(now) is None && *final(self) == old(
                        self,
                    ).configured(options),
                    Err(e) => options.fault(now) == Some(e) && *final(self) == *old(self),
                },
    {
        let now = current_millis();
        self.set_options_at(options, now)
    }

    /// The generator that the settings describe, if they are acceptable
    /// now.
    pub fn new(options: IdGeneratorOptions) -> (r: Result<SnowWorker, IdError>)
        ensures
            exists|now: i64|
                match r {
                    Ok(worker) => #[trigger] options.fault(now) is None && worker
                        == Self::blank().configured(options) && worker.wf(),
                    Err(e) => options.fault(now) == Some(e),
                },
    {
        let now = current_millis();
        Self::new_at(options, now)
    }

    /// The generator for machine 1 with every setting at its default, at
    /// the time `now_millis`. It is refused with `BaseTime` where that
    /// time is before the default base time.
    pub fn default_at(now_millis: i64) -> (r: Result<SnowWorker, IdError>)
        ensures
            r == if now_millis < DEFAULT_BASE_TIME {
                Err::<SnowWorker, IdError>(IdError::BaseTime)
            } else {
                Ok(Self::fresh())
            },
            r matches Ok(worker) ==> worker.wf(),
    {
        let options = IdGeneratorOptions::new(1);
        proof {
            vstd::arithmetic::power2::lemma2_to64();
        }
        Self::new_at(options, now_millis)
    }

    /// The generator for machine 1 with every setting at its default. It
    /// is refused with `BaseTime` where the clock reads a time before
    /// the default base time.
    pub fn default() -> (r: Result<SnowWorker, IdError>)
        ensures
            match r {
                Ok(worker) => worker == Self::fresh() && worker.wf(),
                Err(e) => e == IdError::BaseTime,
            },
    {
        Self::default_at(current_millis())
    }
}

/// Acceptable settings make a generator whose state is in order, where
/// it was in order in what the settings leave alone.
pub proof fn lemma_configured_wf(worker: SnowWorker, options: IdGeneratorOptions, now: i64)
    requires
        options.fault(now) is None,
        worker.turn_back_index <= 4,
        -1 <= worker.turn_back_time_tick <= MAX_TICK + MAX_AHEAD,
        0 <= worker.last_time_tick,
        if worker.is_over_cost {
            1 <= worker.over_cost_count_in_one_term <= MAX_AHEAD && worker.last_time_tick
                <= MAX_TICK + worker.over_cost_count_in_one_term
        } else {
            worker.last_time_tick <= MAX_TICK
        },
    ensures
        worker.configured(options).wf(),
        worker.configured(options).fits_bits() <==> options.max_seq_number != 0
            || options.seq_bit_length >= 6,
{
    vstd::arithmetic::power2::lemma2_to64();
    if options.seq_bit_length < 21 {
        vstd::arithmetic::power2::lemma_pow2_strictly_increases(
            options.seq_bit_length as nat,
            21,
        );
    }
    if options.seq_bit_length < 6 {
        vstd::arithmetic::power2::lemma_pow2_strictly_increases(options.seq_bit_length as nat, 6);
    }
    if options.seq_bit_length > 6 {
        vstd::arithmetic::power2::lemma_pow2_strictly_increases(6, options.seq_bit_length as nat);
    }
}

/// Identifiers are ordered as their ticks and, within a tick, as their
/// sequence numbers, where the sequence numbers fit their bits; and
/// they fit into 63 bits.
pub proof fn lemma_id_order(worker: SnowWorker, tick1: int, seq1: int, tick2: int, seq2: int)
    requires
        worker.wf(),
        0 <= tick1 <= tick2 <= MAX_TICK + MAX_AHEAD,
        0 <= seq1 < pow2(worker.seq_bit_length as nat),
        0 <= seq2 < pow2(worker.seq_bit_length as nat),
        tick1 < tick2 || seq1 < seq2,
    ensures
        0 <= worker.id_of(tick1, seq1) < worker.id_of(tick2, seq2) <= i64::MAX,
{
    let low = pow2(worker.seq_bit_length as nat) as int;
    let high = pow2(worker.worker_id_bit_length as nat) as int;
    let shift = pow2(worker.timestamp_shift as nat) as int;
    let machine = worker.worker_id as int;
    vstd::arithmetic::power2::lemma_pow2_adds(
        worker.worker_id_bit_length as nat,
        worker.seq_bit_length as nat,
    );
    vstd::arithmetic::power2::lemma2_to64();
    if worker.timestamp_shift < 22 {
        vstd::arithmetic::power2::lemma_pow2_strictly_increases(worker.timestamp_shift as nat, 22);
    }
    vstd::arithmetic::power2::lemma_pow2_pos(worker.seq_bit_length as nat);
    vstd::arithmetic::power2::lemma_pow2_pos(worker.worker_id_bit_length as nat);
    assert(shift == high * low);
    assert(shift <= 4194304);
    assert(0 <= machine * low <= shift - low) by (nonlinear_arith)
        requires
            0 <= machine <= high - 1,
            0 < low,
            shift == high * low,
    ;
    assert(0 <= tick1 * shift) by (nonlinear_arith)
        requires
            0 <= tick1,
            0 <= shift,
    ;
    assert(tick2 * shift <= (MAX_TICK + MAX_AHEAD) * 4194304) by (nonlinear_arith)
        requires
            0 <= tick2 <= MAX_TICK + MAX_AHEAD,
            0 <= shift <= 4194304,
    ;
    if tick1 < tick2 {
        assert(tick1 * shift + shift <= tick2 * shift) by (nonlinear_arith)
            requires
                tick1 + 1 <= tick2,
                0 <= shift,
        ;
    }
}

/// The identifier after the one of the tick `tick` and the sequence
/// number `seq` is the larger of the two, where the clock is not behind
/// a generator that follows it.
proof fn lemma_next_is_larger(worker: SnowWorker, tick: int, seq: int, now: i64)
    requires
        worker.wf(),
        worker.max_seq_number < pow2(worker.seq_bit_length as nat),
        worker.min_seq_number < pow2(worker.seq_bit_length as nat),
        worker.last_time_tick == tick,
        worker.current_seq_number == seq + 1,
        0 <= seq < pow2(worker.seq_bit_length as nat),
        0 <= now <= MAX_TICK,
        !worker.is_over_cost ==> tick <= now,
        worker.after(now).1 is Some,
    ensures
        0 <= worker.id_of(tick, seq) < worker.after(now).1->0,
{
    let min = worker.min_seq_number as int;
    if now > tick {
        lemma_id_order(worker, tick, seq, now as int, min);
    } else if worker.current_seq_number > worker.max_seq_number {
        lemma_id_order(worker, tick, seq, tick + 1, min);
    } else {
        lemma_id_order(worker, tick, seq, tick, seq + 1);
    }
}

/// As long as the clock does not go back, identifiers grow: of two
/// identifiers that a generator gives one after the other, the second is
/// the larger. This holds of a generator whose sequence numbers fit
/// their bits and which, where it follows the clock, is not ahead of the
/// first tick.
pub proof fn law_identifiers_grow(worker: SnowWorker, first_tick: i64, second_tick: i64)
    requires
        worker.wf(),
        0 <= first_tick <= second_tick <= MAX_TICK,
        worker.fits_bits(),
        !worker.is_over_cost ==> worker.last_time_tick <= first_tick,
        worker.after(first_tick).1 is Some,
        worker.after(first_tick).0.after(second_tick).1 is Some,
    ensures
        worker.after(first_tick).1->0 < worker.after(first_tick).0.after(second_tick).1->0,
{
    let min = worker.min_seq_number as int;
    let next = worker.after(first_tick).0;
    let tick = next.last_time_tick as int;
    let seq = next.current_seq_number - 1;
    assert(next.wf());
    assert(0 <= seq < pow2(worker.seq_bit_length as nat));
    assert(forall|t: int, q: int| #[trigger] next.id_of(t, q) == worker.id_of(t, q));
    lemma_id_order(worker, tick, seq, tick + 1, seq);
    assert(worker.after(first_tick).1->0 == worker.id_of(tick, seq));
    lemma_next_is_larger(next, tick, seq, second_tick);
}

} // verus!
