//! Tasks: ticking one earns points through the transfer protocol.

use crate::cli_utils::{spec_yes_or_no, yes_or_no};
use crate::transfer::{
    protocol_from_choice, spec_tick, tick, RewardPointTransferProtocol, Timestamp,
};
use vstd::prelude::*;
use vstd::string::*;

verus! {

/// Something to do, worth `reward` units per completion or per hour.
///
/// A regular task stays on the list when it is completed; any other task is
/// done once and then removed.
#[derive(Clone, Debug, PartialEq, Eq)]
pub struct Task {
    pub is_regular: bool,
    pub reward_system: RewardPointTransferProtocol,
    pub reward: i64,
    pub description: String,
    pub name: String,
}

/// What ticking a task yields: the points earned, in sixtieths of a unit,
/// and whether the task has to leave the list.
#[derive(Clone, Copy, Debug, PartialEq, Eq, Structural)]
pub struct TickResponse {
    pub task_is_to_be_removed: bool,
    pub reward_acquired: i128,
}

impl Task {
    /// Makes a task from the answers that were given for it. `regular_answer`
    /// answers whether the task is regular, by `y` or `n`; `protocol_choice`
    /// is one for an hourly reward and two for a reward per completion.
    /// `None` where one of the two is no such answer.
    pub fn init_task_from_cli(
        name: String,
        description: String,
        regular_answer: &str,
        protocol_choice: i64,
        reward: i64,
    ) -> (task: Option<Task>)
        ensures
            task is Some <==> spec_yes_or_no(regular_answer@) is Some && (protocol_choice == 1
                || protocol_choice == 2),
            task matches Some(made) ==> {
                &&& made.name == name
                &&& made.description == description
                &&& made.reward == reward
                &&& Some(made.is_regular) == spec_yes_or_no(regular_answer@)
                &&& made.reward_system == if protocol_choice == 1 {
                    RewardPointTransferProtocol::HourlyTransfer(None)
                } else {
                    RewardPointTransferProtocol::SingularTransfer
                }
            },
    {
        match (yes_or_no(regular_answer), protocol_from_choice(protocol_choice)) {
            (Some(is_regular), Some(reward_system)) => Some(
                Task { is_regular, reward_system, reward, description, name },
            ),
            _ => None,
        }
    }

    /// The text that describes how the task pays, with `amount` as the way
    /// its reward is written.
    pub open spec fn spec_payment_text(self, amount: Seq<char>) -> Seq<char> {
        match self.reward_system {
            RewardPointTransferProtocol::SingularTransfer => "Per-completion reward ("@ + amount
                + ")"@,
            RewardPointTransferProtocol::HourlyTransfer(Some(_)) => "Per-hour reward ("@ + amount
                + "), started"@,
            RewardPointTransferProtocol::HourlyTransfer(None) => "Per-hour reward ("@ + amount
                + "), not started"@,
        }
    }

    /// The text that describes the task, with `amount` as the way its
    /// reward is written.
    pub open spec fn spec_description(self, amount: Seq<char>) -> Seq<char> {
        "name: "@ + self.name@ + "\ndescription: "@ + self.description@ + "\nis_regular: "@ + (
        if self.is_regular {
            "true"@
        } else {
            "false"@
        }) + "\nreward system description: "@ + self.spec_payment_text(amount)
    }

    /// Describes the task in four lines: its name, its description, whether
    /// it is regular, and how it pays. `amount` is the reward as it is to be
    /// written.
    pub fn describe(&self, amount: &str) -> (text: String)
        ensures
            text@ == self.spec_description(amount@),
    {
        let mut text = String::from_str("name: ");
        text.append(self.name.as_str());
        text.append("\ndescription: ");
        text.append(self.description.as_str());
        text.append("\nis_regular: ");
        text.append(if self.is_regular {
            "true"
        } else {
            "false"
        });
        text.append("\nreward system description: ");
        let ghost head = text@;
        match self.reward_system {
            RewardPointTransferProtocol::SingularTransfer => {
                text.append("Per-completion reward (");
                text.append(amount);
                text.append(")");
            },
            RewardPointTransferProtocol::HourlyTransfer(started) => {
                text.append("Per-hour reward (");
                text.append(amount);
                text.append(if started.is_some() {
                    "), started"
                } else {
                    "), not started"
                });
            },
        }
        assert(text@ =~= head + self.spec_payment_text(amount@));
        text
    }

    /// The task after a tick at `now`: only its protocol changes.
    pub open spec fn spec_ticked(self, now: Timestamp) -> Task {
        Task { reward_system: spec_tick(self.reward_system, self.reward, now).protocol, ..self }
    }

    /// What a tick at `now` yields. A task is removed when the tick
    /// completes it and it is not regular; starting it removes nothing.
    pub open spec fn spec_response(self, now: Timestamp) -> TickResponse {
        let step = spec_tick(self.reward_system, self.reward, now);
        TickResponse {
            task_is_to_be_removed: step.finalizes() && !self.is_regular,
            reward_acquired: step.points_delta,
        }
    }

    /// Ticks the task at the instant `now`.
    pub fn tick_task_at(&mut self, now: Timestamp) -> (response: TickResponse)
        ensures
            *final(self) == old(self).spec_ticked(now),
            response == old(self).spec_response(now),
    {
        let step = tick(self.reward_system, self.reward, now);
        self.reward_system = step.protocol;
        TickResponse {
            task_is_to_be_removed: step.finalizes() && !self.is_regular,
            reward_acquired: step.points_delta,
        }
    }

    /// Ticks the task at the present instant, read from the system clock.
    /// Whatever the clock says, the outcome is that of a tick at that instant.
    pub fn tick_task(&mut self) -> (response: TickResponse)
        ensures
            exists|now: Timestamp|
                *final(self) == old(self).spec_ticked(now) && response
                    == #[trigger] old(self).spec_response(now),
    {
        let now = Timestamp::now();
        self.tick_task_at(now)
    }
}

} // verus!
