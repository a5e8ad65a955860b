//! Identifiers that grow with time: a count of milliseconds since a base
//! time, the number of the machine, and a sequence number within the
//! millisecond, packed into 63 bits.

pub mod default_id_generator;
pub mod id_generator_options;
pub mod id_helper;
pub mod over_cost_action_arg;
pub mod snow_worker;

pub use default_id_generator::DefaultIdGenerator;
pub use id_generator_options::IdError;
pub use id_generator_options::IdGeneratorOptions;
pub use id_helper::IdHelper;
pub use over_cost_action_arg::OverCostActionArg;
pub use snow_worker::SnowWorker;

use vstd::prelude::*;

verus! {

/// Gives the helper's generator the settings, if they are acceptable at
/// what the clock reads.
pub fn set_id_generator(helper: &mut IdHelper, options: IdGeneratorOptions) -> (r: Result<
    (),
    IdError,
>)
    requires
        old(helper).wf(),
    ensures
        final(helper).wf(),
        exists|now: i64|
            match r {
                Ok(_) => #[trigger] options.fault(now) is None && *final(helper)
                    == IdHelper::holding(old(helper).generator.worker.configured(options)),
                Err(e) => options.fault(now) == Some(e) && *final(helper) == *old(helper),
            },
{
    helper.set_id_generator(options)
}

/// The default settings for the machine `worker_id`, with the given
/// numbers of bits for the machine's number and the sequence number.
pub open spec fn options_with(
    worker_id: u32,
    worker_id_bit_length: u8,
    seq_bit_length: u8,
) -> IdGeneratorOptions {
    IdGeneratorOptions {
        worker_id_bit_length,
        seq_bit_length,
        ..IdGeneratorOptions::defaults(worker_id)
    }
}

/// Gives the helper's generator the default settings with the given
/// machine number and numbers of bits, if they are acceptable at what
/// the clock reads.
pub fn set_options(
    helper: &mut IdHelper,
    worker_id: u32,
    worker_id_bit_length: u8,
    seq_bit_length: u8,
) -> (r: Result<(), IdError>)
    requires
        old(helper).wf(),
    ensures
        final(helper).wf(),
        exists|now: i64|
            match r {
                Ok(_) => #[trigger] options_with(
                    worker_id,
                    worker_id_bit_length,
                    seq_bit_length,
                ).fault(now) is None && *final(helper) == IdHelper::holding(
                    old(helper).generator.worker.configured(
                        options_with(worker_id, worker_id_bit_length, seq_bit_length),
                    ),
                ),
                Err(e) => options_with(worker_id, worker_id_bit_length, seq_bit_length).fault(now)
                    == Some(e) && *final(helper) == *old(helper),
            },
{
    let mut options = IdGeneratorOptions::new(worker_id);
    options.worker_id_bit_length = worker_id_bit_length;
    options.seq_bit_length = seq_bit_length;
    assert(options == options_with(worker_id, worker_id_bit_length, seq_bit_length));
    helper.set_id_generator(options)
}

/// Gives the helper's generator the default settings for the machine
/// `worker_id`, if they are acceptable at what the clock reads.
pub fn set_worker_id(helper: &mut IdHelper, worker_id: u32) -> (r: Result<(), IdError>)
    requires
        old(helper).wf(),
    ensures
        final(helper).wf(),
        exists|now: i64|
            match r {
                Ok(_) => #[trigger] IdGeneratorOptions::defaults(worker_id).fault(now) is None
                    && *final(helper) == IdHelper::holding(
                    old(helper).generator.worker.configured(
                        IdGeneratorOptions::defaults(worker_id),
                    ),
                ),
                Err(e) => IdGeneratorOptions::defaults(worker_id).fault(now) == Some(e)
                    && *final(helper) == *old(helper),
            },
{
    helper.set_worker_id(worker_id)
}

/// The next identifier of the helper's generator at what the clock
/// reads, or nothing while the generator waits for the clock. The
/// generator's state is kept in the helper, so that identifiers grow
/// from call to call.
pub fn next_id(helper: &mut IdHelper) -> (r: Result<Option<i64>, IdError>)
    requires
        old(helper).wf(),
    ensures
        final(helper).wf(),
        exists|now: i64| (*final(helper), r) == #[trigger] old(helper).served(now),
{
    helper.next_id()
}

} // verus!
