//! Identifiers from one generator that is kept between the requests:
//! whoever hands identifiers out holds the helper and asks it, so that
//! each identifier comes after the last.

use crate::idgen::default_id_generator::DefaultIdGenerator;
use crate::idgen::id_generator_options::IdError;
use crate::idgen::id_generator_options::IdGeneratorOptions;
use crate::idgen::id_generator_options::DEFAULT_BASE_TIME;
use crate::idgen::snow_worker::current_millis;
use crate::idgen::snow_worker::law_identifiers_grow;
use crate::idgen::snow_worker::lemma_configured_wf;
use crate::idgen::snow_worker::SnowWorker;
use crate::idgen::snow_worker::MAX_TICK;
use vstd::prelude::*;

verus! {

/// The keeper of the generator.
#[derive(Clone, Copy, Debug)]
pub struct IdHelper {
    pub generator: DefaultIdGenerator,
}

impl IdHelper {
    /// Whether the generator's state is in order.
    pub open spec fn wf(self) -> bool {
        self.generator.worker.wf()
    }

    /// The helper that holds the worker `worker`.
    pub open spec fn holding(worker: SnowWorker) -> IdHelper {
        IdHelper { generator: DefaultIdGenerator { worker } }
    }

    /// The tick of the moment `now` for the generator, if the moment
    /// lies in the range that the generator accepts.
    pub open spec fn tick_of(self, now: i64) -> Option<i64> {
        if 0 <= now - self.generator.worker.base_time <= MAX_TICK {
            Some((now - self.generator.worker.base_time) as i64)
        } else {
            None
        }
    }

    /// What a request for an identifier at the moment `now` does: the
    /// helper after it, and what the request gets. The generator takes
    /// one step at the moment's tick. It gives the next identifier, or
    /// nothing while it has run ahead of the clock as far as it may: the
    /// request is then made again later. A moment before the base time,
    /// or beyond the last tick, is refused with `Clock`, and the
    /// generator stays as it is.
    pub open spec fn served(self, now: i64) -> (IdHelper, Result<Option<i64>, IdError>) {
        match self.tick_of(now) {
            Some(tick) => (
                Self::holding(self.generator.worker.after(tick).0),
                Ok(self.generator.worker.after(tick).1),
            ),
            None => (self, Err(IdError::Clock)),
        }
    }

    /// A helper with the default generator, at the time `now_millis`.
    pub fn new_at(now_millis: i64) -> (r: Result<Self, IdError>)
        ensures
            r == if now_millis < DEFAULT_BASE_TIME {
                Err::<IdHelper, IdError>(IdError::BaseTime)
            } else {
                Ok(Self::holding(SnowWorker::fresh()))
            },
            r matches Ok(helper) ==> helper.wf(),
    {
        match DefaultIdGenerator::default_at(now_millis) {
            Ok(generator) => {
                proof {
                    vstd::arithmetic::power2::lemma2_to64();
                }
                Ok(IdHelper { generator })
            },
            Err(e) => Err(e),
        }
    }

    /// A helper with the default generator. It is refused with
    /// `BaseTime` where the clock reads a time before the default base
    /// time.
    pub fn new() -> (r: Result<Self, IdError>)
        ensures
            match r {
                Ok(helper) => helper == Self::holding(SnowWorker::fresh()) && helper.wf(),
                Err(e) => e == IdError::BaseTime,
            },
    {
        Self::new_at(current_millis())
    }

    /// The generator that the helper holds.
    pub fn id_gen_instance(&self) -> (r: DefaultIdGenerator)
        ensures
            r == self.generator,
    {
        self.generator
    }

    /// Gives the generator the settings, if they are acceptable at the
    /// time `now_millis`; else the generator stays as it is.
    pub fn set_id_generator_at(&mut self, options: IdGeneratorOptions, now_millis: i64) -> (r:
        Result<(), IdError>)
        requires
            old(self).wf(),
        ensures
            final(self).wf(),
            match r {
                Ok(_) => options.fault(now_millis) is None && *final(self) == Self::holding(
                    old(self).generator.worker.configured(options),
                ),
                Err(e) => options.fault(now_millis) == Some(e) && *final(self) == *old(self),
            },
    {
        match self.generator.worker.set_options_at(options, now_millis) {
            Ok(_) => {
                proof {
                    lemma_configured_wf(old(self).generator.worker, options, now_millis);
                }
                Ok(())
            },
            Err(e) => Err(e),
        }
    }

    /// Gives the generator the settings, if they are acceptable at what
    /// the clock reads; else the generator stays as it is.
    pub fn set_id_generator(&mut self, options: IdGeneratorOptions) -> (r: Result<(), IdError>)
        requires
            old(self).wf(),
        ensures
            final(self).wf(),
            exists|now: i64|
                match r {
                    Ok(_) => #[trigger] options.fault(now) is None && *final(self)
                        == Self::holding(old(self).generator.worker.configured(options)),
                    Err(e) => options.fault(now) == Some(e) && *final(self) == *old(self),
                },
    {
        self.set_id_generator_at(options, current_millis())
    }

    /// Gives the generator the default settings for the machine
    /// `worker_id`, if they are acceptable at what the clock reads.
    pub fn set_worker_id(&mut self, worker_id: u32) -> (r: Result<(), IdError>)
        requires
            old(self).wf(),
        ensures
            final(self).wf(),
            exists|now: i64|
                match r {
                    Ok(_) => #[trigger] IdGeneratorOptions::defaults(worker_id).fault(now) is None
                        && *final(self) == Self::holding(
                        old(self).generator.worker.configured(
                            IdGeneratorOptions::defaults(worker_id),
                        ),
                    ),
                    Err(e) => IdGeneratorOptions::defaults(worker_id).fault(now) == Some(e)
                        && *final(self) == *old(self),
                },
    {
        let options = IdGeneratorOptions::new(worker_id);
        self.set_id_generator_at(options, current_millis())
    }

    /// The next identifier at the time `now_millis`, or nothing while
    /// the generator waits for the clock.
    pub fn next_id_at(&mut self, now_millis: i64) -> (r: Result<Option<i64>, IdError>)
        requires
            old(self).wf(),
        ensures
            final(self).wf(),
            (*final(self), r) == old(self).served(now_millis),
    {
        match self.generator.worker.tick_at(now_millis) {
            Some(tick) => Ok(self.generator.worker.next_id(tick)),
            None => Err(IdError::Clock),
        }
    }

    /// The next identifier at what the clock reads, or nothing while the
    /// generator waits for the clock.
    pub fn next_id(&mut self) -> (r: Result<Option<i64>, IdError>)
        requires
            old(self).wf(),
        ensures
            final(self).wf(),
            exists|now: i64| (*final(self), r) == #[trigger] old(self).served(now),
    {
        self.next_id_at(current_millis())
    }
}

/// Identifiers grow from request to request: of two identifiers that a
/// helper gives one after the other, at moments of which the second is
/// not before the first, the second is the larger, and so no identifier
/// is given twice. This holds of a generator whose sequence numbers fit
/// their bits and which, where it follows the clock, is not ahead of the
/// first moment.
pub proof fn law_requests_get_growing_identifiers(helper: IdHelper, first: i64, second: i64)
    requires
        helper.wf(),
        helper.generator.worker.fits_bits(),
        first <= second,
        helper.served(first).1 matches Ok(Some(_)),
        helper.served(first).0.served(second).1 matches Ok(Some(_)),
        !helper.generator.worker.is_over_cost ==> helper.generator.worker.last_time_tick
            <= first - helper.generator.worker.base_time,
    ensures
        helper.served(first).1->Ok_0->0 < helper.served(first).0.served(second).1->Ok_0->0,
{
    let worker = helper.generator.worker;
    let tick1 = helper.tick_of(first)->0;
    let next = helper.served(first).0;
    assert(next.generator.worker.base_time == worker.base_time);
    let tick2 = next.tick_of(second)->0;
    law_identifiers_grow(worker, tick1, tick2);
}

} // verus!
