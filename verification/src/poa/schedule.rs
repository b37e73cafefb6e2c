//! What the scheduler remembers, and the decisions that follow from it
//! and from what the clocks and the pool tell.

use vstd::prelude::*;
use crate::blockchain::primitives::{BlockHeight, Tai64};
use crate::poa::config::{Duration, Instant, Trigger};
use crate::poa::ports::ImporterError;
use crate::producer::block_producer::ProductionError;

verus! {

/// Why the scheduler did not get a block committed.
#[derive(Clone, Copy, Debug, PartialEq, Eq)]
#[non_exhaustive]
pub enum Error {
    /// No key is configured to seal blocks with.
    NoSigningKey,
    /// The configured key is no secret key of the curve.
    InvalidSigningKey,
    /// The block's time lies before the time of the last block.
    TimestampNotMonotonic,
    /// The time of the next block cannot be counted.
    TimeOverflow,
    /// The height of the next block cannot be counted.
    HeightOverflow,
    /// The producer failed.
    Producer(ProductionError),
    /// The importer did not commit.
    Importer(ImporterError),
}

/// What asked for a block.
#[derive(Clone, Copy, Debug, PartialEq, Eq, Structural)]
pub enum RequestType {
    /// An operator.
    Manual,
    /// The trigger policy.
    Trigger,
}

/// An operator's request for blocks.
#[derive(Clone, Copy, Debug, PartialEq, Eq)]
pub struct ManualProduction {
    /// The time of the first block, where the operator chose one.
    pub start_time: Option<Tai64>,
    /// How many blocks to produce.
    pub number_of_blocks: u32,
}

/// The time `duration` after `time`, in whole seconds.
pub open spec fn spec_increase_time(time: Tai64, duration: Duration) -> Result<Tai64, Error> {
    if time.0 + duration.as_secs() > u64::MAX {
        Err(Error::TimeOverflow)
    } else {
        Ok(Tai64((time.0 + duration.as_secs()) as u64))
    }
}

/// The time `duration` after `time`, in whole seconds.
pub fn increase_time(time: Tai64, duration: Duration) -> (later: Result<Tai64, Error>)
    ensures
        later == spec_increase_time(time, duration),
{
    match time.0.checked_add(duration.as_secs()) {
        Some(timestamp) => Ok(Tai64(timestamp)),
        None => Err(Error::TimeOverflow),
    }
}

/// The earlier of two readings.
pub open spec fn earlier(a: Instant, b: Instant) -> Instant {
    if a.0 <= b.0 {
        a
    } else {
        b
    }
}

/// The later of two readings.
pub open spec fn later(a: Instant, b: Instant) -> Instant {
    if a.0 >= b.0 {
        a
    } else {
        b
    }
}

/// What the scheduler remembers from one decision to the next.
#[derive(Clone, Copy, Debug, PartialEq, Eq)]
pub struct Schedule {
    /// When blocks are produced.
    pub trigger: Trigger,
    /// The most gas that the transactions of one block may use.
    pub block_gas_limit: u64,
    /// The height of the last block.
    pub last_height: BlockHeight,
    /// The time that the last block carries.
    pub last_timestamp: Tai64,
    /// The clock reading at which the last block was produced.
    pub last_block_created: Instant,
    /// The clock reading at which the timer goes off, where it is set.
    pub deadline: Option<Instant>,
}

impl Schedule {
    /// The timer is set exactly under the policies that produce on time,
    /// and under the hybrid policy never later than `max_block_time` after
    /// the last block.
    pub open spec fn wf(self) -> bool {
        match self.trigger {
            Trigger::Never | Trigger::Instant => self.deadline.is_none(),
            Trigger::Interval { .. } => self.deadline.is_some(),
            Trigger::Hybrid { max_block_time, .. } => self.deadline matches Some(d) && d.0
                <= self.last_block_created.after(max_block_time).0,
        }
    }

    /// The height of the next block, where it can be counted.
    pub open spec fn spec_next_height(self) -> Option<BlockHeight> {
        if self.last_height.0 < u32::MAX {
            Some(BlockHeight((self.last_height.0 + 1) as u32))
        } else {
            None
        }
    }

    /// The span that an operator's next block lies after the last one:
    /// the time that went by on the clock where blocks are not produced on
    /// time, the policy's block time where they are.
    pub open spec fn spec_manual_step(self, now: Instant) -> Duration {
        match self.trigger {
            Trigger::Never | Trigger::Instant => Duration::spec_from_millis(
                now.spec_duration_since(self.last_block_created),
            ),
            Trigger::Interval { block_time } => block_time,
            Trigger::Hybrid { min_block_time, .. } => min_block_time,
        }
    }

    /// The time that the next block carries: for the trigger the wall
    /// clock's `now_tai` where that lies after the last block, and else,
    /// as for an operator, the last block's time moved on by the policy's
    /// step.
    pub open spec fn spec_next_time(
        self,
        request_type: RequestType,
        now: Instant,
        now_tai: Tai64,
    ) -> Result<Tai64, Error> {
        if request_type == RequestType::Trigger && now_tai.0 > self.last_timestamp.0 {
            Ok(now_tai)
        } else {
            spec_increase_time(self.last_timestamp, self.spec_manual_step(now))
        }
    }

    /// Under the hybrid policy: the pool holds more than a block can take,
    /// and `min_block_time` has gone by since the last block.
    pub open spec fn spec_full_block_due(self, consumable_gas: u64, now: Instant) -> bool {
        match self.trigger {
            Trigger::Hybrid { min_block_time, .. } => consumable_gas > self.block_gas_limit
                && self.last_block_created.after(min_block_time).0 < now.0,
            _ => false,
        }
    }

    /// Under the hybrid policy, the reading at which the timer goes off
    /// once a transaction has come in at `now`: when the pool has been
    /// quiet for `max_tx_idle_time` and `min_block_time` has gone by since
    /// the last block, and at the latest `max_block_time` after the last
    /// block.
    pub open spec fn spec_idle_deadline(self, now: Instant) -> Instant {
        match self.trigger {
            Trigger::Hybrid { min_block_time, max_tx_idle_time, max_block_time } => earlier(
                later(now.after(max_tx_idle_time), self.last_block_created.after(min_block_time)),
                self.last_block_created.after(max_block_time),
            ),
            _ => now,
        }
    }

    /// The timer after a block was committed at `now`, with the pool in
    /// the state that `consumable_gas` and `pending` tell.
    pub open spec fn spec_deadline_after_block(
        self,
        now: Instant,
        consumable_gas: u64,
        pending: usize,
    ) -> Option<Instant> {
        match self.trigger {
            Trigger::Never | Trigger::Instant => self.deadline,
            Trigger::Interval { block_time } => Some(now.after(block_time)),
            Trigger::Hybrid { min_block_time, max_tx_idle_time, max_block_time } => {
                let latest = now.after(max_block_time);
                if pending > 0 && consumable_gas > self.block_gas_limit {
                    Some(earlier(now.after(min_block_time), latest))
                } else if pending > 0 {
                    Some(
                        earlier(
                            later(now.after(max_tx_idle_time), now.after(min_block_time)),
                            latest,
                        ),
                    )
                } else {
                    Some(latest)
                }
            },
        }
    }

    /// The schedule after the block at `height` and `block_time` was
    /// committed at `now`.
    pub open spec fn spec_after_block(
        self,
        height: BlockHeight,
        block_time: Tai64,
        now: Instant,
        consumable_gas: u64,
        pending: usize,
    ) -> Schedule {
        Schedule {
            trigger: self.trigger,
            block_gas_limit: self.block_gas_limit,
            last_height: height,
            last_timestamp: block_time,
            last_block_created: now,
            deadline: self.spec_deadline_after_block(now, consumable_gas, pending),
        }
    }

    /// The timer is set and has gone off at `now`.
    pub open spec fn spec_timer_due(self, now: Instant) -> bool {
        self.deadline matches Some(d) && d.0 <= now.0
    }

    /// The clock reading at which a block with time `last_timestamp` was
    /// produced, as far as the wall clock's `now_tai` and the clock's `now`
    /// tell: as long before `now` as the block's time lies before
    /// `now_tai`, and `now` where the clock does not reach that far back.
    pub open spec fn spec_created_at(last_timestamp: Tai64, now: Instant, now_tai: Tai64) -> Instant {
        let secs: int = if now_tai.0 >= last_timestamp.0 {
            now_tai.0 - last_timestamp.0
        } else {
            0
        };
        if secs * 1000 <= now.0 {
            Instant((now.0 - secs * 1000) as u64)
        } else {
            now
        }
    }

    /// The schedule of a scheduler that starts at `now` on top of a last
    /// block at `last_height` and `last_timestamp`.
    pub open spec fn spec_new(
        trigger: Trigger,
        block_gas_limit: u64,
        last_height: BlockHeight,
        last_timestamp: Tai64,
        now: Instant,
        now_tai: Tai64,
    ) -> Schedule {
        Schedule {
            trigger,
            block_gas_limit,
            last_height,
            last_timestamp,
            last_block_created: Self::spec_created_at(last_timestamp, now, now_tai),
            deadline: match trigger {
                Trigger::Never | Trigger::Instant => None,
                Trigger::Interval { block_time } => Some(now.after(block_time)),
                Trigger::Hybrid { max_block_time, .. } => Some(
                    Self::spec_created_at(last_timestamp, now, now_tai).after(max_block_time),
                ),
            },
        }
    }

    /// The schedule of a scheduler that starts at `now` on top of a last
    /// block at `last_height` and `last_timestamp`. Under the interval
    /// policy the timer is set to the block time from `now`, under the
    /// hybrid policy to `max_block_time` from the last block.
    pub fn new(
        trigger: Trigger,
        block_gas_limit: u64,
        last_height: BlockHeight,
        last_timestamp: Tai64,
        now: Instant,
        now_tai: Tai64,
    ) -> (schedule: Self)
        ensures
            schedule == Self::spec_new(
                trigger,
                block_gas_limit,
                last_height,
                last_timestamp,
                now,
                now_tai,
            ),
    {
        let secs = now_tai.0.saturating_sub(last_timestamp.0);
        let last_block_created = match secs.checked_mul(1000) {
            Some(millis) => if millis <= now.0 {
                Instant(now.0 - millis)
            } else {
                now
            },
            None => now,
        };
        let deadline = match trigger {
            Trigger::Never | Trigger::Instant => None,
            Trigger::Interval { block_time } => Some(now.after(block_time)),
            Trigger::Hybrid { max_block_time, .. } => Some(last_block_created.after(max_block_time)),
        };
        Schedule {
            trigger,
            block_gas_limit,
            last_height,
            last_timestamp,
            last_block_created,
            deadline,
        }
    }

    /// The height of the next block.
    pub fn next_height(&self) -> (height: Option<BlockHeight>)
        ensures
            height == self.spec_next_height(),
    {
        self.last_height.succ()
    }

    /// The time that the next block carries.
    pub fn next_time(&self, request_type: RequestType, now: Instant, now_tai: Tai64) -> (time: Result<
        Tai64,
        Error,
    >)
        ensures
            time == self.spec_next_time(request_type, now, now_tai),
    {
        let from_trigger = match request_type {
            RequestType::Trigger => true,
            RequestType::Manual => false,
        };
        if from_trigger && now_tai.0 > self.last_timestamp.0 {
            Ok(now_tai)
        } else {
            let step = match self.trigger {
                Trigger::Never | Trigger::Instant => now.duration_since(self.last_block_created),
                Trigger::Interval { block_time } => block_time,
                Trigger::Hybrid { min_block_time, .. } => min_block_time,
            };
            increase_time(self.last_timestamp, step)
        }
    }

    /// Whether the hybrid policy has a full block due at `now`.
    pub fn full_block_due(&self, consumable_gas: u64, now: Instant) -> (due: bool)
        ensures
            due == self.spec_full_block_due(consumable_gas, now),
    {
        match self.trigger {
            Trigger::Hybrid { min_block_time, .. } => consumable_gas > self.block_gas_limit
                && self.last_block_created.after(min_block_time).0 < now.0,
            _ => false,
        }
    }

    /// The reading at which the hybrid policy's timer goes off once a
    /// transaction has come in at `now`.
    pub fn idle_deadline(&self, now: Instant) -> (deadline: Instant)
        ensures
            deadline == self.spec_idle_deadline(now),
    {
        match self.trigger {
            Trigger::Hybrid { min_block_time, max_tx_idle_time, max_block_time } => {
                let idle = now.after(max_tx_idle_time);
                let spaced = self.last_block_created.after(min_block_time);
                let latest = self.last_block_created.after(max_block_time);
                let wanted = if idle.0 >= spaced.0 {
                    idle
                } else {
                    spaced
                };
                if wanted.0 <= latest.0 {
                    wanted
                } else {
                    latest
                }
            },
            _ => now,
        }
    }

    /// Whether the timer is set and has gone off at `now`.
    pub fn timer_due(&self, now: Instant) -> (due: bool)
        ensures
            due == self.spec_timer_due(now),
    {
        match self.deadline {
            Some(d) => d.0 <= now.0,
            None => false,
        }
    }
}

/// A new schedule is well formed.
pub proof fn lemma_new_schedule_is_well_formed(
    trigger: Trigger,
    block_gas_limit: u64,
    last_height: BlockHeight,
    last_timestamp: Tai64,
    now: Instant,
    now_tai: Tai64,
)
    ensures
        Schedule::spec_new(trigger, block_gas_limit, last_height, last_timestamp, now, now_tai).wf(),
{
}

/// A schedule stays well formed over a committed block: the timer is set
/// anew, under the hybrid policy no later than `max_block_time` after the
/// block.
pub proof fn lemma_schedule_after_block_is_well_formed(
    schedule: Schedule,
    height: BlockHeight,
    block_time: Tai64,
    now: Instant,
    consumable_gas: u64,
    pending: usize,
)
    requires
        schedule.wf(),
    ensures
        schedule.spec_after_block(height, block_time, now, consumable_gas, pending).wf(),
{
}

/// Under the hybrid policy the timer that a transaction sets goes off no
/// later than `max_block_time` after the last block, and not before
/// `min_block_time` has gone by since the last block unless `max_block_time`
/// has.
pub proof fn lemma_idle_deadline_bounds(schedule: Schedule, now: Instant)
    requires
        schedule.trigger is Hybrid,
    ensures
        ({
            let d = schedule.spec_idle_deadline(now);
            &&& d.0 <= schedule.last_block_created.after(schedule.trigger->max_block_time).0
            &&& d.0 >= schedule.last_block_created.after(schedule.trigger->min_block_time).0 || d
                == schedule.last_block_created.after(schedule.trigger->max_block_time)
            &&& d.0 >= now.after(schedule.trigger->max_tx_idle_time).0 || d
                == schedule.last_block_created.after(schedule.trigger->max_block_time)
        }),
{
}

} // verus!
