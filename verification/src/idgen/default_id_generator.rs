//! The generator that is used where none is set up.

use crate::idgen::id_generator_options::IdError;
use crate::idgen::id_generator_options::DEFAULT_BASE_TIME;
use crate::idgen::snow_worker::SnowWorker;
use vstd::prelude::*;

verus! {

/// A generator with default settings.
#[derive(Clone, Copy, Debug)]
pub struct DefaultIdGenerator {
    pub worker: SnowWorker,
}

impl DefaultIdGenerator {
    /// The generator for machine 1 with every setting at its default, at
    /// the time `now_millis`.
    pub fn default_at(now_millis: i64) -> (r: Result<Self, IdError>)
        ensures
            r == if now_millis < DEFAULT_BASE_TIME {
                Err::<DefaultIdGenerator, IdError>(IdError::BaseTime)
            } else {
                Ok(DefaultIdGenerator { worker: SnowWorker::fresh() })
            },
    {
        match SnowWorker::default_at(now_millis) {
            Ok(worker) => Ok(Self { worker }),
            Err(e) => Err(e),
        }
    }

    /// The generator for machine 1 with every setting at its default. It
    /// is refused with `BaseTime` where the clock reads a time before
    /// the default base time.
    pub fn default() -> (r: Result<Self, IdError>)
        ensures
            match r {
                Ok(generator) => generator.worker == SnowWorker::fresh(),
                Err(e) => e == IdError::BaseTime,
            },
    {
        match SnowWorker::default() {
            Ok(worker) => Ok(Self { worker }),
            Err(e) => Err(e),
        }
    }
}

} // verus!
