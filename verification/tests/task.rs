use point_ledger::app_state::AppState;
use point_ledger::task::{Task, TickResponse};
use point_ledger::transfer::{RewardPointTransferProtocol, Timestamp};

fn task(name: &str, is_regular: bool, protocol: RewardPointTransferProtocol, reward: i64) -> Task {
    Task {
        is_regular,
        reward_system: protocol,
        reward,
        description: String::from("to be done"),
        name: String::from(name),
    }
}

#[test]
fn one_shot_task_is_removed_and_pays_ten() {
    let mut state = AppState::get_default();
    state.add_task(task("Clean", false, RewardPointTransferProtocol::SingularTransfer, 10));
    assert_eq!(state.cur_points, 0);
    let response = state.tick_task(0, Timestamp { millis: 1_000 });
    assert_eq!(response, TickResponse { task_is_to_be_removed: true, reward_acquired: 600 });
    assert_eq!(state.cur_points, 600);
    assert_eq!(state.cur_points as f64 / 60.0, 10.0);
    assert!(state.tasks.is_empty());
}

#[test]
fn regular_task_stays_on_the_list() {
    let mut state = AppState::get_default();
    state.add_task(task("Dishes", true, RewardPointTransferProtocol::SingularTransfer, 3));
    state.tick_task(0, Timestamp { millis: 0 });
    state.tick_task(0, Timestamp { millis: 1 });
    assert_eq!(state.cur_points, 360);
    assert_eq!(state.tasks.len(), 1);
    assert_eq!(state.tasks[0].reward_system, RewardPointTransferProtocol::SingularTransfer);
}

#[test]
fn hourly_task_starts_then_pays_by_the_minute() {
    let mut work = task("Study", false, RewardPointTransferProtocol::HourlyTransfer(None), 6);
    let start = Timestamp { millis: 50_000 };
    let first = work.tick_task_at(start);
    assert_eq!(first, TickResponse { task_is_to_be_removed: false, reward_acquired: 0 });
    assert_eq!(work.reward_system, RewardPointTransferProtocol::HourlyTransfer(Some(start)));
    let second = work.tick_task_at(Timestamp { millis: start.millis + 45 * 60_000 });
    assert_eq!(second, TickResponse { task_is_to_be_removed: true, reward_acquired: 270 });
    assert_eq!(work.reward_system, RewardPointTransferProtocol::HourlyTransfer(None));
    assert_eq!(work.name, "Study");
    assert_eq!(work.reward, 6);
}

#[test]
fn regular_hourly_task_is_kept_after_it_stops() {
    let mut work =
        task("Run", true, RewardPointTransferProtocol::HourlyTransfer(Some(Timestamp { millis: 0 })), 60);
    let response = work.tick_task_at(Timestamp { millis: 61_000 });
    assert_eq!(response, TickResponse { task_is_to_be_removed: false, reward_acquired: 60 });
}

#[test]
fn tick_by_the_clock_starts_an_hourly_task() {
    let mut work = task("Read", false, RewardPointTransferProtocol::HourlyTransfer(None), 6);
    let response = work.tick_task();
    assert_eq!(response, TickResponse { task_is_to_be_removed: false, reward_acquired: 0 });
    match work.reward_system {
        RewardPointTransferProtocol::HourlyTransfer(Some(start)) => {
            assert!(start.millis > 1_577_836_800_000)
        }
        other => panic!("not started: {:?}", other),
    }
    let stopped = work.tick_task();
    assert!(stopped.task_is_to_be_removed);
    assert_eq!(stopped.reward_acquired, 0);
}

#[test]
fn ticking_in_the_middle_of_the_list_removes_only_that_task() {
    let mut state = AppState::get_default();
    state.add_task(task("a", true, RewardPointTransferProtocol::SingularTransfer, 1));
    state.add_task(task("b", false, RewardPointTransferProtocol::SingularTransfer, 2));
    state.add_task(task("c", false, RewardPointTransferProtocol::HourlyTransfer(None), 3));
    state.tick_task(1, Timestamp { millis: 0 });
    assert_eq!(state.cur_points, 120);
    assert_eq!(state.tasks.len(), 2);
    assert_eq!(state.tasks[0].name, "a");
    assert_eq!(state.tasks[1].name, "c");
    state.tick_task(1, Timestamp { millis: 7 });
    assert_eq!(state.tasks.len(), 2);
    assert_eq!(
        state.tasks[1].reward_system,
        RewardPointTransferProtocol::HourlyTransfer(Some(Timestamp { millis: 7 }))
    );
    let removed = state.remove_task(0);
    assert_eq!(removed.name, "a");
    assert_eq!(state.tasks.len(), 1);
}

#[test]
fn the_balance_stops_at_its_bounds() {
    let mut state = AppState::get_default();
    state.cur_points = i128::MAX - 10;
    state.add_task(task("much", true, RewardPointTransferProtocol::SingularTransfer, 1));
    state.tick_task(0, Timestamp { millis: 0 });
    assert_eq!(state.cur_points, i128::MAX);
    state.cur_points = i128::MIN + 10;
    state.add_task(task("debt", true, RewardPointTransferProtocol::SingularTransfer, -1));
    state.tick_task(1, Timestamp { millis: 0 });
    assert_eq!(state.cur_points, i128::MIN);
}

#[test]
fn task_from_answers() {
    let made = Task::init_task_from_cli(
        String::from("Clean"),
        String::from("the kitchen"),
        "Y",
        1,
        10,
    )
    .unwrap();
    assert_eq!(made, task_with_description("Clean", "the kitchen", true, RewardPointTransferProtocol::HourlyTransfer(None), 10));
    let other =
        Task::init_task_from_cli(String::from("x"), String::from("y"), "n", 2, -3).unwrap();
    assert!(!other.is_regular);
    assert_eq!(other.reward_system, RewardPointTransferProtocol::SingularTransfer);
    assert_eq!(other.reward, -3);
    assert_eq!(Task::init_task_from_cli(String::new(), String::new(), "yes", 1, 0), None);
    assert_eq!(Task::init_task_from_cli(String::new(), String::new(), "y", 3, 0), None);
    assert_eq!(Task::init_task_from_cli(String::new(), String::new(), "", 2, 0), None);
}

fn task_with_description(
    name: &str,
    description: &str,
    is_regular: bool,
    protocol: RewardPointTransferProtocol,
    reward: i64,
) -> Task {
    Task {
        is_regular,
        reward_system: protocol,
        reward,
        description: String::from(description),
        name: String::from(name),
    }
}

#[test]
fn task_descriptions() {
    let once = task("Clean", false, RewardPointTransferProtocol::SingularTransfer, 10);
    assert_eq!(
        once.describe("10"),
        "name: Clean\ndescription: to be done\nis_regular: false\nreward system description: Per-completion reward (10)"
    );
    let idle = task("Study", true, RewardPointTransferProtocol::HourlyTransfer(None), 5);
    assert_eq!(
        idle.describe("2.5"),
        "name: Study\ndescription: to be done\nis_regular: true\nreward system description: Per-hour reward (2.5), not started"
    );
    let running = task(
        "Study",
        true,
        RewardPointTransferProtocol::HourlyTransfer(Some(Timestamp { millis: 3 })),
        5,
    );
    assert_eq!(
        running.describe("5"),
        "name: Study\ndescription: to be done\nis_regular: true\nreward system description: Per-hour reward (5), started"
    );
}
