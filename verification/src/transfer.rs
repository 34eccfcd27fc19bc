//! The transfer protocol that tasks and rewards share: a one-shot transfer,
//! or one that accrues by the minute between a start and a stop.

use vstd::prelude::*;

verus! {

/// Milliseconds in one minute.
pub const MILLIS_PER_MINUTE: i64 = 60_000;

/// Sixtieths in one unit: an hourly amount, charged for one minute, is one
/// sixtieth of the amount.
pub const SIXTIETHS_PER_UNIT: i64 = 60;

/// An instant of wall-clock time, in milliseconds since the Unix epoch.
#[derive(Clone, Copy, Debug, PartialEq, Eq, Structural)]
pub struct Timestamp {
    pub millis: i64,
}

/// How points move when an item is ticked.
///
/// `HourlyTransfer` carries the instant at which the item was started, and
/// carries it exactly while the item is running.
#[derive(Clone, Copy, Debug, PartialEq, Eq, Structural)]
pub enum RewardPointTransferProtocol {
    HourlyTransfer(Option<Timestamp>),
    SingularTransfer,
}

/// What a tick did to the protocol.
#[derive(Clone, Copy, Debug, PartialEq, Eq, Structural)]
pub enum TransferPhase {
    /// A one-shot transfer took place.
    Completion,
    /// An hourly item was started; nothing is transferred yet.
    Activation,
    /// A running hourly item was stopped and its time is transferred.
    Deactivation,
}

/// The outcome of one tick: the protocol afterwards, the points moved (in
/// sixtieths of a unit) and what kind of step it was.
#[derive(Clone, Copy, Debug, PartialEq, Eq, Structural)]
pub struct Transfer {
    pub protocol: RewardPointTransferProtocol,
    pub points_delta: i128,
    pub phase: TransferPhase,
}

/// Whole minutes from `start` to `now`, rounded down; zero when the clock
/// went backwards.
pub open spec fn spec_elapsed_minutes(start: Timestamp, now: Timestamp) -> int {
    if now.millis <= start.millis {
        0
    } else {
        (now.millis - start.millis) / (MILLIS_PER_MINUTE as int)
    }
}

/// The sixtieths that an hourly `amount` yields over `minutes` minutes.
pub open spec fn spec_accrued(minutes: int, amount: int) -> int {
    minutes * amount
}

/// The sixtieths that a one-shot `amount` is worth.
pub open spec fn spec_whole(amount: int) -> int {
    SIXTIETHS_PER_UNIT * amount
}

/// The transfer protocol as a function: the step that a tick at `now` takes.
pub open spec fn spec_tick(
    protocol: RewardPointTransferProtocol,
    amount: i64,
    now: Timestamp,
) -> Transfer {
    match protocol {
        RewardPointTransferProtocol::SingularTransfer => Transfer {
            protocol: RewardPointTransferProtocol::SingularTransfer,
            points_delta: spec_whole(amount as int) as i128,
            phase: TransferPhase::Completion,
        },
        RewardPointTransferProtocol::HourlyTransfer(None) => Transfer {
            protocol: RewardPointTransferProtocol::HourlyTransfer(Some(now)),
            points_delta: 0,
            phase: TransferPhase::Activation,
        },
        RewardPointTransferProtocol::HourlyTransfer(Some(start)) => Transfer {
            protocol: RewardPointTransferProtocol::HourlyTransfer(None),
            points_delta: spec_accrued(spec_elapsed_minutes(start, now), amount as int) as i128,
            phase: TransferPhase::Deactivation,
        },
    }
}

/// The system clock: chrono's `Utc::now`, read through
/// `DateTime::timestamp_millis` as milliseconds since the Unix epoch. What the
/// clock says is not known in advance, so nothing is claimed of the value.
#[verifier::external_body]
fn read_clock() -> (millis: i64) {
    chrono::Utc::now().timestamp_millis()
}

impl Timestamp {
    /// The present instant by the system clock.
    pub fn now() -> (now: Timestamp) {
        Timestamp { millis: read_clock() }
    }
}

impl RewardPointTransferProtocol {
    /// Whether an hourly item is running.
    pub open spec fn spec_is_active(&self) -> bool {
        self matches RewardPointTransferProtocol::HourlyTransfer(Some(_))
    }

    #[verifier::when_used_as_spec(spec_is_active)]
    pub fn is_active(&self) -> (b: bool)
        ensures
            b == self.spec_is_active(),
    {
        match self {
            RewardPointTransferProtocol::HourlyTransfer(Some(_)) => true,
            _ => false,
        }
    }
}

/// The protocol that a choice from the menu of protocols stands for: one is
/// the hourly protocol, not yet started, two the one-shot protocol. Any
/// other number is no choice.
pub fn protocol_from_choice(choice: i64) -> (protocol: Option<RewardPointTransferProtocol>)
    ensures
        protocol == if choice == 1 {
            Some(RewardPointTransferProtocol::HourlyTransfer(None))
        } else if choice == 2 {
            Some(RewardPointTransferProtocol::SingularTransfer)
        } else {
            None::<RewardPointTransferProtocol>
        },
{
    if choice == 1 {
        Some(RewardPointTransferProtocol::HourlyTransfer(None))
    } else if choice == 2 {
        Some(RewardPointTransferProtocol::SingularTransfer)
    } else {
        None
    }
}

impl Transfer {
    /// Whether the step finished a piece of work: a one-shot transfer or the
    /// stop of a running item. A start finishes nothing.
    pub open spec fn spec_finalizes(&self) -> bool {
        self.phase != TransferPhase::Activation
    }

    #[verifier::when_used_as_spec(spec_finalizes)]
    pub fn finalizes(&self) -> (b: bool)
        ensures
            b == self.spec_finalizes(),
    {
        match self.phase {
            TransferPhase::Activation => false,
            _ => true,
        }
    }
}

/// Whole minutes from `start` to `now`, the seconds left over dropped. A
/// clock that went backwards counts as no time at all, so that time is never
/// paid back.
pub fn elapsed_minutes(start: Timestamp, now: Timestamp) -> (minutes: i64)
    ensures
        minutes == spec_elapsed_minutes(start, now),
        0 <= minutes,
{
    if now.millis <= start.millis {
        0
    } else {
        let span: i128 = now.millis as i128 - start.millis as i128;
        let minutes: i128 = span / (MILLIS_PER_MINUTE as i128);
        minutes as i64
    }
}

/// One tick of the protocol at the instant `now`, for an item worth `amount`
/// units (per completion, or per hour).
///
/// A one-shot item transfers its whole amount every time. An hourly item
/// that is idle starts and transfers nothing; one that is running stops and
/// transfers one sixtieth of its amount for each whole minute since it
/// started. The caller decides whether to commit the returned protocol.
pub fn tick(protocol: RewardPointTransferProtocol, amount: i64, now: Timestamp) -> (step: Transfer)
    ensures
        step == spec_tick(protocol, amount, now),
        step.points_delta == match protocol {
            RewardPointTransferProtocol::SingularTransfer => 60 * amount,
            RewardPointTransferProtocol::HourlyTransfer(None) => 0,
            RewardPointTransferProtocol::HourlyTransfer(Some(start)) => spec_elapsed_minutes(
                start,
                now,
            ) * amount,
        },
{
    match protocol {
        RewardPointTransferProtocol::SingularTransfer => Transfer {
            protocol: RewardPointTransferProtocol::SingularTransfer,
            points_delta: (SIXTIETHS_PER_UNIT as i128) * (amount as i128),
            phase: TransferPhase::Completion,
        },
        RewardPointTransferProtocol::HourlyTransfer(None) => Transfer {
            protocol: RewardPointTransferProtocol::HourlyTransfer(Some(now)),
            points_delta: 0,
            phase: TransferPhase::Activation,
        },
        RewardPointTransferProtocol::HourlyTransfer(Some(start)) => {
            let minutes = elapsed_minutes(start, now);
            assert(-0x4000_0000_0000_0000_0000_0000_0000_0000 <= minutes * amount
                <= 0x4000_0000_0000_0000_0000_0000_0000_0000) by (nonlinear_arith)
                requires
                    0 <= minutes <= 0x7fff_ffff_ffff_ffff,
                    -0x8000_0000_0000_0000 <= amount <= 0x7fff_ffff_ffff_ffff,
            ;
            Transfer {
                protocol: RewardPointTransferProtocol::HourlyTransfer(None),
                points_delta: (minutes as i128) * (amount as i128),
                phase: TransferPhase::Deactivation,
            }
        },
    }
}

/// A one-shot transfer has no memory: whatever the instant, and however
/// often it is ticked, each tick leaves the protocol as it was, moves the
/// whole amount and finalizes.
pub proof fn lemma_singular_tick_is_stateless(amount: i64, first: Timestamp, second: Timestamp)
    ensures
        spec_tick(RewardPointTransferProtocol::SingularTransfer, amount, first).protocol
            == RewardPointTransferProtocol::SingularTransfer,
        spec_tick(RewardPointTransferProtocol::SingularTransfer, amount, first).points_delta == 60
            * amount,
        spec_tick(RewardPointTransferProtocol::SingularTransfer, amount, first).finalizes(),
        spec_tick(
            spec_tick(RewardPointTransferProtocol::SingularTransfer, amount, first).protocol,
            amount,
            second,
        ) == spec_tick(RewardPointTransferProtocol::SingularTransfer, amount, first),
{
}

/// Starting an idle hourly item and stopping it `minutes` whole minutes (and
/// less than one minute more) later moves `minutes` sixtieths of the amount
/// and leaves the item idle again.
pub proof fn lemma_hourly_round_trip(amount: i64, start: Timestamp, stop: Timestamp, minutes: int)
    requires
        0 <= minutes,
        minutes * 60_000 <= stop.millis - start.millis < (minutes + 1) * 60_000,
    ensures
        ({
            let idle = RewardPointTransferProtocol::HourlyTransfer(None);
            let started = spec_tick(idle, amount, start);
            let stopped = spec_tick(started.protocol, amount, stop);
            &&& started.protocol == RewardPointTransferProtocol::HourlyTransfer(Some(start))
            &&& started.points_delta == 0
            &&& !started.finalizes()
            &&& stopped.protocol == RewardPointTransferProtocol::HourlyTransfer(None)
            &&& stopped.points_delta == minutes * amount
            &&& stopped.finalizes()
        }),
{
    if stop.millis > start.millis {
        assert((stop.millis - start.millis) / 60_000 == minutes) by (nonlinear_arith)
            requires
                0 <= minutes,
                minutes * 60_000 <= stop.millis - start.millis < (minutes + 1) * 60_000,
        ;
    } else {
        assert(minutes == 0) by (nonlinear_arith)
            requires
                0 <= minutes,
                minutes * 60_000 <= 0,
        ;
    }
    assert(-0x4000_0000_0000_0000_0000_0000_0000_0000 <= minutes * amount
        <= 0x4000_0000_0000_0000_0000_0000_0000_0000) by (nonlinear_arith)
        requires
            0 <= minutes <= 0x7fff_ffff_ffff_ffff,
            -0x8000_0000_0000_0000 <= amount <= 0x7fff_ffff_ffff_ffff,
    ;
}

} // verus!
