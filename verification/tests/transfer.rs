use point_ledger::transfer::{
    elapsed_minutes, protocol_from_choice, tick, RewardPointTransferProtocol, Timestamp,
    TransferPhase,
};

const MINUTE: i64 = 60_000;

#[test]
fn singular_tick_moves_the_whole_amount() {
    let step = tick(RewardPointTransferProtocol::SingularTransfer, 10, Timestamp { millis: 0 });
    assert_eq!(step.points_delta, 600);
    assert_eq!(step.protocol, RewardPointTransferProtocol::SingularTransfer);
    assert_eq!(step.phase, TransferPhase::Completion);
    assert!(step.finalizes());
}

#[test]
fn singular_tick_is_the_same_every_time() {
    let mut protocol = RewardPointTransferProtocol::SingularTransfer;
    for round in 0..5 {
        let step = tick(protocol, 7, Timestamp { millis: round * 12_345 });
        assert_eq!(step.points_delta, 420);
        assert!(step.finalizes());
        protocol = step.protocol;
    }
    assert_eq!(protocol, RewardPointTransferProtocol::SingularTransfer);
}

#[test]
fn hourly_tick_starts_without_moving_points() {
    let now = Timestamp { millis: 1_700_000_000_000 };
    let step = tick(RewardPointTransferProtocol::HourlyTransfer(None), 5, now);
    assert_eq!(step.points_delta, 0);
    assert_eq!(step.protocol, RewardPointTransferProtocol::HourlyTransfer(Some(now)));
    assert_eq!(step.phase, TransferPhase::Activation);
    assert!(!step.finalizes());
}

#[test]
fn hourly_round_trip_moves_a_sixtieth_per_minute() {
    let start = Timestamp { millis: 1_700_000_000_000 };
    let started = tick(RewardPointTransferProtocol::HourlyTransfer(None), 5, start);
    let stop = Timestamp { millis: start.millis + 30 * MINUTE };
    let stopped = tick(started.protocol, 5, stop);
    assert_eq!(stopped.points_delta, 150);
    assert_eq!(stopped.points_delta as f64 / 60.0, 2.5);
    assert_eq!(stopped.protocol, RewardPointTransferProtocol::HourlyTransfer(None));
    assert_eq!(stopped.phase, TransferPhase::Deactivation);
    assert!(stopped.finalizes());
}

#[test]
fn hourly_round_trip_with_a_negative_amount() {
    let start = Timestamp { millis: 0 };
    let stopped = tick(
        RewardPointTransferProtocol::HourlyTransfer(Some(start)),
        -4,
        Timestamp { millis: 90 * MINUTE + 59_999 },
    );
    assert_eq!(stopped.points_delta, -360);
}

#[test]
fn hourly_tick_after_a_clock_rollback_moves_nothing() {
    let start = Timestamp { millis: 10 * MINUTE };
    let stopped =
        tick(RewardPointTransferProtocol::HourlyTransfer(Some(start)), 9, Timestamp { millis: 0 });
    assert_eq!(stopped.points_delta, 0);
    assert_eq!(stopped.protocol, RewardPointTransferProtocol::HourlyTransfer(None));
}

#[test]
fn hourly_tick_at_the_widest_span_does_not_overflow() {
    let stopped = tick(
        RewardPointTransferProtocol::HourlyTransfer(Some(Timestamp { millis: i64::MIN })),
        i64::MIN,
        Timestamp { millis: i64::MAX },
    );
    let minutes = (u64::MAX / 60_000) as i128;
    assert_eq!(stopped.points_delta, minutes * (i64::MIN as i128));
}

#[test]
fn elapsed_minutes_rounds_down_and_clamps() {
    let start = Timestamp { millis: 1_000 };
    assert_eq!(elapsed_minutes(start, Timestamp { millis: 1_000 + 59_999 }), 0);
    assert_eq!(elapsed_minutes(start, Timestamp { millis: 1_000 + 60_000 }), 1);
    assert_eq!(elapsed_minutes(start, Timestamp { millis: 1_000 + 30 * 60_000 }), 30);
    assert_eq!(elapsed_minutes(start, Timestamp { millis: 1_000 }), 0);
    assert_eq!(elapsed_minutes(start, Timestamp { millis: 0 }), 0);
    assert_eq!(elapsed_minutes(start, Timestamp { millis: -600_000 }), 0);
}

#[test]
fn protocol_choices() {
    assert_eq!(protocol_from_choice(1), Some(RewardPointTransferProtocol::HourlyTransfer(None)));
    assert_eq!(protocol_from_choice(2), Some(RewardPointTransferProtocol::SingularTransfer));
    assert_eq!(protocol_from_choice(0), None);
    assert_eq!(protocol_from_choice(3), None);
    assert_eq!(protocol_from_choice(-1), None);
}

#[test]
fn protocol_activity() {
    assert!(!RewardPointTransferProtocol::SingularTransfer.is_active());
    assert!(!RewardPointTransferProtocol::HourlyTransfer(None).is_active());
    assert!(RewardPointTransferProtocol::HourlyTransfer(Some(Timestamp { millis: 1 })).is_active());
}

#[test]
fn the_clock_is_past_the_year_2020_and_does_not_run_backwards_by_much() {
    let first = Timestamp::now();
    let second = Timestamp::now();
    assert!(first.millis > 1_577_836_800_000);
    assert!(second.millis + 60_000 > first.millis);
}
