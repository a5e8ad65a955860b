//! The settings of an identifier generator, and what makes them
//! acceptable.

use crate::text::push_decimal;
use vstd::arithmetic::power2::lemma2_to64;
use vstd::arithmetic::power2::lemma_pow2_strictly_increases;
use vstd::arithmetic::power2::pow2;
use vstd::bits::lemma_u64_shl_is_mul;
use vstd::prelude::*;

verus! {

/// The base time that stands for "none given", in milliseconds since the
/// epoch.
pub const DEFAULT_BASE_TIME: i64 = 1582136402000;

/// The earliest base time that is accepted.
pub const EARLIEST_BASE_TIME: i64 = 631123200000;

/// The settings of a generator.
#[derive(Clone, Copy, Debug)]
pub struct IdGeneratorOptions {
    /// How identifiers are computed: 1 lets the generator run ahead of
    /// the clock under load.
    pub method: u8,
    /// The moment from which time is counted, in milliseconds since the
    /// epoch; 0 stands for the default.
    pub base_time: i64,
    /// The number of this machine.
    pub worker_id: u32,
    /// How many bits of an identifier hold the machine's number.
    pub worker_id_bit_length: u8,
    /// How many bits of an identifier hold the sequence number.
    pub seq_bit_length: u8,
    /// The largest sequence number; 0 stands for the default.
    pub max_seq_number: u32,
    /// The smallest sequence number; those below 5 are kept back.
    pub min_seq_number: u32,
    /// For how many milliseconds the generator may run ahead of the
    /// clock in one stretch.
    pub top_over_cost_count: u32,
}

/// Why settings are refused, or why no identifier can be given.
#[derive(Clone, Copy, Debug, PartialEq, Eq, Structural)]
pub enum IdError {
    /// The base time is before 1990 or after the present.
    BaseTime,
    /// No bit holds the machine's number.
    WorkerIdBitLength,
    /// The machine's number and the sequence number take more than 22
    /// bits together.
    BitLengthSum,
    /// The machine's number is above the largest that its bits hold,
    /// which is given.
    WorkerId(u32),
    /// The sequence number has fewer than 2 bits or more than 21.
    SeqBitLength,
    /// The largest sequence number is above the ceiling, which is given.
    MaxSeqNumber(u32),
    /// The smallest sequence number is below 5 or above the ceiling,
    /// which is given.
    MinSeqNumber(u32),
    /// The generator may run ahead for more than 10000 milliseconds.
    TopOverCostCount,
    /// The clock is before the base time, or so far after it that an
    /// identifier would not fit into 63 bits.
    Clock,
}

/// 2 to the power of `bits`.
pub fn two_to(bits: u8) -> (r: u64)
    requires
        bits <= 22,
    ensures
        r == pow2(bits as nat),
        1 <= r <= 4194304,
{
    proof {
        lemma2_to64();
        if bits < 22 {
            lemma_pow2_strictly_increases(bits as nat, 22);
        }
        lemma_u64_shl_is_mul(1, bits as u64);
    }
    1u64 << (bits as u64)
}

impl IdGeneratorOptions {
    /// The largest number that a machine can have under these settings.
    pub open spec fn max_worker_id(self) -> int {
        pow2(self.worker_id_bit_length as nat) - 1
    }

    /// The ceiling of the sequence numbers: 63 where the settings name
    /// no largest sequence number, else the largest that the bits hold.
    pub open spec fn seq_ceiling(self) -> int {
        if self.max_seq_number == 0 {
            63
        } else {
            pow2(self.seq_bit_length as nat) - 1
        }
    }

    /// What is wrong with the settings at the time `now`, the first fault
    /// in the order of the fields; nothing where they are acceptable.
    pub open spec fn fault(self, now: i64) -> Option<IdError> {
        if self.base_time != 0 && (self.base_time < EARLIEST_BASE_TIME || self.base_time > now) {
            Some(IdError::BaseTime)
        } else if self.worker_id_bit_length == 0 {
            Some(IdError::WorkerIdBitLength)
        } else if self.seq_bit_length + self.worker_id_bit_length > 22 {
            Some(IdError::BitLengthSum)
        } else if self.worker_id > self.max_worker_id() {
            Some(IdError::WorkerId(self.max_worker_id() as u32))
        } else if self.seq_bit_length < 2 || self.seq_bit_length > 21 {
            Some(IdError::SeqBitLength)
        } else if self.max_seq_number > self.seq_ceiling() {
            Some(IdError::MaxSeqNumber(self.seq_ceiling() as u32))
        } else if self.min_seq_number < 5 || self.min_seq_number > self.seq_ceiling() {
            Some(IdError::MinSeqNumber(self.seq_ceiling() as u32))
        } else if self.top_over_cost_count > 10000 {
            Some(IdError::TopOverCostCount)
        } else {
            None
        }
    }

    /// The settings for the machine `worker_id`, with everything else at
    /// its default: method 1, the default base time, 6 bits each for the
    /// machine's number and the sequence number, sequence numbers from 5
    /// up to the ceiling, and at most 2000 ticks ahead of the clock.
    pub open spec fn defaults(worker_id: u32) -> IdGeneratorOptions {
        IdGeneratorOptions {
            method: 1,
            base_time: DEFAULT_BASE_TIME,
            worker_id,
            worker_id_bit_length: 6,
            seq_bit_length: 6,
            max_seq_number: 0,
            min_seq_number: 5,
            top_over_cost_count: 2000,
        }
    }

    /// The settings for the machine `worker_id`, with everything else at
    /// its default.
    pub fn new(worker_id: u32) -> (r: IdGeneratorOptions)
        ensures
            r == Self::defaults(worker_id),
    {
        IdGeneratorOptions {
            method: 1,
            base_time: DEFAULT_BASE_TIME,
            worker_id,
            worker_id_bit_length: 6,
            seq_bit_length: 6,
            max_seq_number: 0,
            min_seq_number: 5,
            top_over_cost_count: 2000,
        }
    }

    /// Checks the settings at the time `now_millis`, in milliseconds
    /// since the epoch.
    pub fn check(&self, now_millis: i64) -> (r: Result<(), IdError>)
        ensures
            match r {
                Ok(_) => self.fault(now_millis) is None,
                Err(e) => self.fault(now_millis) == Some(e),
            },
    {
        if self.base_time != 0 && (self.base_time < EARLIEST_BASE_TIME || self.base_time
            > now_millis) {
            return Err(IdError::BaseTime);
        }
        if self.worker_id_bit_length == 0 {
            return Err(IdError::WorkerIdBitLength);
        }
        if self.seq_bit_length > 22 || self.worker_id_bit_length > 22 - self.seq_bit_length {
            return Err(IdError::BitLengthSum);
        }
        let max_worker_id = two_to(self.worker_id_bit_length) - 1;
        if self.worker_id as u64 > max_worker_id {
            return Err(IdError::WorkerId(max_worker_id as u32));
        }
        if self.seq_bit_length < 2 || self.seq_bit_length > 21 {
            return Err(IdError::SeqBitLength);
        }
        let ceiling: u64 = if self.max_seq_number == 0 {
            63
        } else {
            two_to(self.seq_bit_length) - 1
        };
        if self.max_seq_number as u64 > ceiling {
            return Err(IdError::MaxSeqNumber(ceiling as u32));
        }
        if self.min_seq_number < 5 || self.min_seq_number as u64 > ceiling {
            return Err(IdError::MinSeqNumber(ceiling as u32));
        }
        if self.top_over_cost_count > 10000 {
            return Err(IdError::TopOverCostCount);
        }
        Ok(())
    }
}

impl IdError {
    /// What is said of the error.
    pub open spec fn text(self) -> Seq<char> {
        match self {
            IdError::BaseTime => "BaseTime error."@,
            IdError::WorkerIdBitLength => "WorkerIdBitLength error.(range:[1, 21])"@,
            IdError::BitLengthSum => "error: WorkerIdBitLength + SeqBitLength <= 22"@,
            IdError::WorkerId(max) => "WorkerId error. (range:[0, "@ + crate::text::decimal(
                max as nat,
            ) + " ]"@,
            IdError::SeqBitLength => "SeqBitLength error. (range:[2, 21])"@,
            IdError::MaxSeqNumber(max) => "MaxSeqNumber error. (range:[1, "@
                + crate::text::decimal(max as nat) + "]"@,
            IdError::MinSeqNumber(max) => "MinSeqNumber error. (range:[5, "@
                + crate::text::decimal(max as nat) + "]"@,
            IdError::TopOverCostCount => "TopOverCostCount error. (range:[0, 10000]"@,
            IdError::Clock => "Clock error."@,
        }
    }

    /// The message of the error, with the range that was left.
    pub fn message(&self) -> (r: String)
        ensures
            r@ == self.text(),
    {
        match self {
            IdError::BaseTime => String::from_str("BaseTime error."),
            IdError::WorkerIdBitLength => String::from_str(
                "WorkerIdBitLength error.(range:[1, 21])",
            ),
            IdError::BitLengthSum => String::from_str(
                "error: WorkerIdBitLength + SeqBitLength <= 22",
            ),
            IdError::WorkerId(max) => {
                let mut r = String::from_str("WorkerId error. (range:[0, ");
                push_decimal(&mut r, *max as u64);
                r.append(" ]");
                r
            },
            IdError::SeqBitLength => String::from_str("SeqBitLength error. (range:[2, 21])"),
            IdError::MaxSeqNumber(max) => {
                let mut r = String::from_str("MaxSeqNumber error. (range:[1, ");
                push_decimal(&mut r, *max as u64);
                r.append("]");
                r
            },
            IdError::MinSeqNumber(max) => {
                let mut r = String::from_str("MinSeqNumber error. (range:[5, ");
                push_decimal(&mut r, *max as u64);
                r.append("]");
                r
            },
            IdError::TopOverCostCount => String::from_str(
                "TopOverCostCount error. (range:[0, 10000]",
            ),
            IdError::Clock => String::from_str("Clock error."),
        }
    }
}

} // verus!
