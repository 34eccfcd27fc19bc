//! The whole ledger: the balance, the tasks, the rewards and the folder
//! pool, and the steps that change them.

use crate::io_utils::FileMove;
use crate::reward_collection::{RewardCollection, RewardType, SingularFileToDecode};
use crate::task::Task;
use crate::transfer::Timestamp;
use vstd::prelude::*;

verus! {

/// Everything that is kept between runs.
///
/// `cur_points` is the balance in sixtieths of a unit; it may be negative.
/// `folder_pool` lists the folders that gated files are moved to.
#[derive(Clone, Debug, PartialEq, Eq)]
pub struct AppState {
    pub cur_points: i128,
    pub tasks: Vec<Task>,
    pub rewards: Vec<RewardCollection>,
    pub folder_pool: Vec<String>,
}

/// What the user asked for in an editing menu.
#[derive(Clone, Copy, Debug, PartialEq, Eq, Structural)]
pub enum MenuAction {
    Add,
    Remove,
    Tick,
}

/// Why a file could not be registered with a reward.
#[derive(Clone, Copy, Debug, PartialEq, Eq, Structural)]
pub enum RegistrationError {
    /// The arguments name no reward to register the file with.
    MissingCollection,
    /// No reward of the state has the name that was given.
    UnknownCollection,
    /// The folder pool is empty, so the file has nowhere to go.
    EmptyPool,
}

/// Where the state is kept, relative to the working directory.
pub fn get_app_state_filepath() -> (path: &'static str)
    ensures
        path@ == "./state"@,
{
    "./state"
}

/// The state that a first run begins with, for the caller to store.
pub fn initialize_default_app_state() -> (state: AppState)
    ensures
        state.cur_points == 0,
        state.tasks@.len() == 0,
        state.rewards@.len() == 0,
        state.folder_pool@.len() == 0,
        state.well_formed(),
{
    AppState::get_default()
}

/// The number nearest to `value` that a balance can hold.
pub open spec fn spec_saturated(value: int) -> i128 {
    if value > i128::MAX {
        i128::MAX
    } else if value < i128::MIN {
        i128::MIN
    } else {
        value as i128
    }
}

/// `balance + delta`, held at the largest or smallest balance where the sum
/// would pass it.
pub fn saturating_sum(balance: i128, delta: i128) -> (sum: i128)
    ensures
        sum == spec_saturated(balance + delta),
{
    match balance.checked_add(delta) {
        Some(sum) => sum,
        None => if delta > 0 {
            i128::MAX
        } else {
            i128::MIN
        },
    }
}

/// `balance - delta`, held at the largest or smallest balance where the
/// difference would pass it.
pub fn saturating_difference(balance: i128, delta: i128) -> (difference: i128)
    ensures
        difference == spec_saturated(balance - delta),
{
    match balance.checked_sub(delta) {
        Some(difference) => difference,
        None => if delta > 0 {
            i128::MIN
        } else {
            i128::MAX
        },
    }
}

impl AppState {
    /// Every reward of the state is well formed.
    pub open spec fn well_formed(self) -> bool {
        forall|i: int| 0 <= i < self.rewards@.len() ==> (#[trigger] self.rewards@[i]).well_formed()
    }

    /// Tests whether the state is well formed.
    pub fn is_well_formed(&self) -> (b: bool)
        ensures
            b == self.well_formed(),
    {
        let mut index: usize = 0;
        while index < self.rewards.len()
            invariant
                index <= self.rewards@.len(),
                forall|i: int| 0 <= i < index ==> (#[trigger] self.rewards@[i]).well_formed(),
            decreases self.rewards@.len() - index,
        {
            if !self.rewards[index].is_well_formed() {
                return false;
            }
            index += 1;
        }
        true
    }

    /// The state to start from: no points, no tasks, no rewards, no folders.
    pub fn get_default() -> (state: AppState)
        ensures
            state.cur_points == 0,
            state.tasks@.len() == 0,
            state.rewards@.len() == 0,
            state.folder_pool@.len() == 0,
            state.well_formed(),
    {
        AppState { cur_points: 0, tasks: Vec::new(), rewards: Vec::new(), folder_pool: Vec::new() }
    }

    /// Ticks the task at `index` at the instant `now`: the points it yields
    /// are added to the balance, and the task leaves the list if the tick
    /// completed it and it is not regular.
    pub fn tick_task(&mut self, index: usize, now: Timestamp) -> (response:
        crate::task::TickResponse)
        requires
            index < old(self).tasks@.len(),
        ensures
            response == old(self).tasks@[index as int].spec_response(now),
            final(self).cur_points == spec_saturated(
                old(self).cur_points + response.reward_acquired,
            ),
            final(self).tasks@ == if response.task_is_to_be_removed {
                old(self).tasks@.remove(index as int)
            } else {
                old(self).tasks@.update(
                    index as int,
                    old(self).tasks@[index as int].spec_ticked(now),
                )
            },
            final(self).rewards == old(self).rewards,
            final(self).folder_pool == old(self).folder_pool,
    {
        let response = self.tasks[index].tick_task_at(now);
        if response.task_is_to_be_removed {
            self.tasks.remove(index);
        }
        self.cur_points = saturating_sum(self.cur_points, response.reward_acquired);
        response
    }

    /// Appends a task to the list.
    pub fn add_task(&mut self, new_task: Task)
        ensures
            final(self).tasks@ == old(self).tasks@.push(new_task),
            final(self).cur_points == old(self).cur_points,
            final(self).rewards == old(self).rewards,
            final(self).folder_pool == old(self).folder_pool,
    {
        self.tasks.push(new_task);
    }

    /// Takes the task at `index` off the list.
    pub fn remove_task(&mut self, index: usize) -> (removed: Task)
        requires
            index < old(self).tasks@.len(),
        ensures
            removed == old(self).tasks@[index as int],
            final(self).tasks@ == old(self).tasks@.remove(index as int),
            final(self).cur_points == old(self).cur_points,
            final(self).rewards == old(self).rewards,
            final(self).folder_pool == old(self).folder_pool,
    {
        self.tasks.remove(index)
    }

    /// Ticks the reward at `index` at the instant `now`, with `file_index`
    /// as the file chosen for the step: the points it costs are taken from
    /// the balance. The returned move is for the caller to carry out.
    pub fn tick_reward(
        &mut self,
        index: usize,
        file_index: Option<usize>,
        now: Timestamp,
    ) -> (response: crate::reward_collection::TickResponse)
        requires
            old(self).well_formed(),
            index < old(self).rewards@.len(),
            old(self).rewards@[index as int].spec_can_tick(),
            file_index matches Some(chosen) ==> chosen < old(
                self,
            ).rewards@[index as int].spec_files().files_to_decode@.len(),
        ensures
            final(self).well_formed(),
            final(self).rewards@.len() == old(self).rewards@.len(),
            final(self).rewards@[index as int].spec_can_tick(),
            old(self).rewards@[index as int].spec_ticked(
                file_index,
                now,
                final(self).rewards@[index as int],
                response,
            ),
            forall|i: int|
                0 <= i < old(self).rewards@.len() && i != index ==> final(self).rewards@[i] == old(
                    self,
                ).rewards@[i],
            final(self).cur_points == spec_saturated(old(self).cur_points - response.points_spent),
            final(self).tasks == old(self).tasks,
            final(self).folder_pool == old(self).folder_pool,
    {
        let response = self.rewards[index].tick_reward_at(file_index, now);
        self.cur_points = saturating_difference(self.cur_points, response.points_spent);
        response
    }

    /// Appends a reward to the list.
    pub fn add_reward(&mut self, new_reward: RewardCollection)
        requires
            old(self).well_formed(),
            new_reward.well_formed(),
        ensures
            final(self).well_formed(),
            final(self).rewards@ == old(self).rewards@.push(new_reward),
            final(self).cur_points == old(self).cur_points,
            final(self).tasks == old(self).tasks,
            final(self).folder_pool == old(self).folder_pool,
    {
        self.rewards.push(new_reward);
    }

    /// Takes the reward at `index` off the list.
    pub fn remove_reward(&mut self, index: usize) -> (removed: RewardCollection)
        requires
            old(self).well_formed(),
            index < old(self).rewards@.len(),
        ensures
            final(self).well_formed(),
            removed == old(self).rewards@[index as int],
            final(self).rewards@ == old(self).rewards@.remove(index as int),
            final(self).cur_points == old(self).cur_points,
            final(self).tasks == old(self).tasks,
            final(self).folder_pool == old(self).folder_pool,
    {
        self.rewards.remove(index)
    }

    /// Validates every reward, see [`RewardCollection::validate`]:
    /// `present[i][j]` tells whether the gated path of the `j`-th file of the
    /// `i`-th reward still exists.
    pub fn validate_rewards(&mut self, present: &Vec<Vec<bool>>)
        requires
            old(self).well_formed(),
            present.len() == old(self).rewards@.len(),
            forall|i: int|
                0 <= i < present.len() ==> (#[trigger] present[i]).len() == old(
                    self,
                ).rewards@[i].spec_files().files_to_decode@.len(),
        ensures
            final(self).well_formed(),
            final(self).rewards@.len() == old(self).rewards@.len(),
            forall|i: int|
                0 <= i < old(self).rewards@.len() ==> (#[trigger] old(
                    self,
                ).rewards@[i]).spec_validated(present[i]@, final(self).rewards@[i]),
            final(self).cur_points == old(self).cur_points,
            final(self).tasks == old(self).tasks,
            final(self).folder_pool == old(self).folder_pool,
    {
        let total = self.rewards.len();
        let mut index: usize = 0;
        while index < total
            invariant
                index <= total,
                total == present.len(),
                self.rewards@.len() == total,
                old(self).rewards@.len() == total,
                self.well_formed(),
                forall|i: int|
                    0 <= i < present.len() ==> (#[trigger] present[i]).len() == old(
                        self,
                    ).rewards@[i].spec_files().files_to_decode@.len(),
                forall|i: int|
                    0 <= i < index ==> (#[trigger] old(self).rewards@[i]).spec_validated(
                        present[i]@,
                        self.rewards@[i],
                    ),
                forall|i: int| index <= i < total ==> self.rewards@[i] == old(self).rewards@[i],
                self.cur_points == old(self).cur_points,
                self.tasks == old(self).tasks,
                self.folder_pool == old(self).folder_pool,
            decreases total - index,
        {
            assert(self.rewards@[index as int].well_formed());
            self.rewards[index].validate(&present[index]);
            index += 1;
        }
    }

    /// The place of the first reward called `name`.
    pub fn find_reward(&self, name: &String) -> (found: Option<usize>)
        ensures
            match found {
                Some(index) => {
                    &&& index < self.rewards@.len()
                    &&& self.rewards@[index as int].name@ == name@
                    &&& forall|j: int|
                        0 <= j < index ==> (#[trigger] self.rewards@[j]).name@ != name@
                },
                None => forall|j: int|
                    0 <= j < self.rewards@.len() ==> (#[trigger] self.rewards@[j]).name@ != name@,
            },
    {
        let mut index: usize = 0;
        while index < self.rewards.len()
            invariant
                index <= self.rewards@.len(),
                forall|j: int| 0 <= j < index ==> (#[trigger] self.rewards@[j]).name@ != name@,
            decreases self.rewards@.len() - index,
        {
            if self.rewards[index].name == *name {
                return Some(index);
            }
            index += 1;
        }
        None
    }

    /// Whether a reward of the state is called `name`.
    pub open spec fn spec_has_reward(self, name: Seq<char>) -> bool {
        exists|j: int| 0 <= j < self.rewards@.len() && (#[trigger] self.rewards@[j]).name@ == name
    }

    /// Whether `after` is the state with the file at `file_to_encode`
    /// appended, as `reward_name`, to the first reward called
    /// `reward_collection`, and `file_move` the move that locks the file
    /// away in a folder of the pool under a name fit for a locked file.
    pub open spec fn spec_file_added(
        self,
        file_to_encode: String,
        reward_collection: Seq<char>,
        reward_name: String,
        after: AppState,
        file_move: FileMove,
    ) -> bool {
        exists|index: int|
            {
                let before = (#[trigger] self.rewards@[index]);
                let changed = after.rewards@[index];
                let files = changed.spec_files().files_to_decode@;
                &&& 0 <= index < self.rewards@.len()
                &&& before.name@ == reward_collection
                &&& forall|j: int|
                    0 <= j < index ==> (#[trigger] self.rewards@[j]).name@ != reward_collection
                &&& forall|j: int|
                    0 <= j < self.rewards@.len() && j != index ==> after.rewards@[j]
                        == self.rewards@[j]
                &&& changed.name == before.name
                &&& changed.description == before.description
                &&& changed.cost == before.cost
                &&& changed.spending_protocol == before.spending_protocol
                &&& changed.spec_files().currently_decoded_file_index
                    == before.spec_files().currently_decoded_file_index
                &&& files.len() == before.spec_files().files_to_decode@.len() + 1
                &&& files.drop_last() == before.spec_files().files_to_decode@
                &&& files.last().path_before_encoding == file_to_encode
                &&& files.last().reward_name == reward_name
                &&& files.last().path_after_encoding@ == file_move.to@
                &&& file_move.from@ == file_to_encode@
                &&& exists|choice: int, name: Seq<char>|
                    0 <= choice < self.folder_pool@.len() && crate::io_utils::is_gate_name(name)
                        && file_move.to@ == #[trigger] (self.folder_pool@[choice]@ + name)
            }
    }

    /// Registers the file at `file_to_encode` with the first reward called
    /// `reward_collection`, to be offered as `reward_name`: the file is put
    /// under lock, in a folder drawn from the pool under a fresh random
    /// name, and appended to that reward's files. The returned move locks
    /// it away.
    ///
    /// A name that no reward has is an error, and so is an empty pool; the
    /// state is then left as it was.
    pub fn reward_addition(
        &mut self,
        file_to_encode: String,
        reward_collection: &String,
        reward_name: String,
    ) -> (plan: Result<FileMove, RegistrationError>)
        requires
            old(self).well_formed(),
        ensures
            final(self).well_formed(),
            final(self).cur_points == old(self).cur_points,
            final(self).tasks == old(self).tasks,
            final(self).folder_pool == old(self).folder_pool,
            final(self).rewards@.len() == old(self).rewards@.len(),
            plan matches Err(error) ==> *final(self) == *old(self),
            plan is Err <==> !old(self).spec_has_reward(reward_collection@) || old(
                self,
            ).folder_pool@.len() == 0,
            plan matches Err(error) ==> error == if !old(self).spec_has_reward(
                reward_collection@,
            ) {
                RegistrationError::UnknownCollection
            } else {
                RegistrationError::EmptyPool
            },
            plan matches Ok(file_move) ==> old(self).spec_file_added(
                file_to_encode,
                reward_collection@,
                reward_name,
                *final(self),
                file_move,
            ),
    {
        let index = match self.find_reward(reward_collection) {
            None => {
                return Err(RegistrationError::UnknownCollection);
            },
            Some(index) => index,
        };
        if self.folder_pool.len() == 0 {
            return Err(RegistrationError::EmptyPool);
        }
        let new_file = SingularFileToDecode {
            path_before_encoding: file_to_encode,
            reward_name,
            path_after_encoding: String::new(),
        };
        let added = match &mut self.rewards[index].reward_type {
            RewardType::DecodeFiles(files) => files.add_new_file(new_file, &self.folder_pool),
        };
        match added {
            Err(_) => Err(RegistrationError::EmptyPool),
            Ok(file_move) => Ok(file_move),
        }
    }

    /// Registers one file as the command line asks: `args` are the
    /// arguments of the program, of which the fourth names the reward and
    /// the fifth, where there is one, the name to offer the file under.
    /// Without a fifth argument the file is offered under `file_name`, its
    /// own name. See [`AppState::reward_addition`] for the rest.
    ///
    /// Fewer than four arguments are an error, and the state stays as it
    /// was.
    pub fn add_rewards_in_file(
        &mut self,
        file_path: String,
        file_name: String,
        args: &Vec<String>,
    ) -> (plan: Result<FileMove, RegistrationError>)
        requires
            old(self).well_formed(),
        ensures
            final(self).well_formed(),
            final(self).cur_points == old(self).cur_points,
            final(self).tasks == old(self).tasks,
            final(self).folder_pool == old(self).folder_pool,
            final(self).rewards@.len() == old(self).rewards@.len(),
            plan matches Err(error) ==> *final(self) == *old(self),
            plan is Err <==> args.len() < 4 || !old(self).spec_has_reward(args[3]@) || old(
                self,
            ).folder_pool@.len() == 0,
            plan matches Err(error) ==> error == if args.len() < 4 {
                RegistrationError::MissingCollection
            } else if !old(self).spec_has_reward(args[3]@) {
                RegistrationError::UnknownCollection
            } else {
                RegistrationError::EmptyPool
            },
            plan matches Ok(file_move) ==> args.len() >= 4 && exists|reward_name: String|
                reward_name@ == (if args.len() >= 5 {
                    args[4]@
                } else {
                    file_name@
                }) && #[trigger] old(self).spec_file_added(
                    file_path,
                    args[3]@,
                    reward_name,
                    *final(self),
                    file_move,
                ),
    {
        if args.len() < 4 {
            return Err(RegistrationError::MissingCollection);
        }
        let reward_name = if args.len() >= 5 {
            args[4].clone()
        } else {
            file_name
        };
        self.reward_addition(file_path, &args[3], reward_name)
    }

    /// What a choice from the menu of tasks asks for: one adds a task, and
    /// while there are tasks, two removes one and three ticks one. Any other
    /// number asks for nothing.
    pub fn edit_tasks(&self, choice: i64) -> (action: Option<MenuAction>)
        ensures
            action == if choice == 1 {
                Some(MenuAction::Add)
            } else if choice == 2 && self.tasks@.len() > 0 {
                Some(MenuAction::Remove)
            } else if choice == 3 && self.tasks@.len() > 0 {
                Some(MenuAction::Tick)
            } else {
                None::<MenuAction>
            },
    {
        if choice == 1 {
            Some(MenuAction::Add)
        } else if choice == 2 && self.tasks.len() > 0 {
            Some(MenuAction::Remove)
        } else if choice == 3 && self.tasks.len() > 0 {
            Some(MenuAction::Tick)
        } else {
            None
        }
    }

    /// The menu of tasks: what can be chosen as the state stands.
    pub fn tasks_prompt(&self) -> (prompt: &'static str)
        ensures
            prompt@ == if self.tasks@.len() == 0 {
                "1 - add task"@
            } else {
                "1 - add task\n2 - remove task\n3 - tick task"@
            },
    {
        if self.tasks.len() == 0 {
            "1 - add task"
        } else {
            "1 - add task\n2 - remove task\n3 - tick task"
        }
    }

    /// What a choice from the menu of rewards asks for: one adds a reward,
    /// and while there are rewards, two removes one and three ticks one. A
    /// reward can be ticked only on a balance above zero. Any other number
    /// asks for nothing.
    pub fn edit_rewards(&self, choice: i64) -> (action: Option<MenuAction>)
        ensures
            action == if choice == 1 {
                Some(MenuAction::Add)
            } else if choice == 2 && self.rewards@.len() > 0 {
                Some(MenuAction::Remove)
            } else if choice == 3 && self.rewards@.len() > 0 && self.cur_points > 0 {
                Some(MenuAction::Tick)
            } else {
                None::<MenuAction>
            },
    {
        if choice == 1 {
            Some(MenuAction::Add)
        } else if choice == 2 && self.rewards.len() > 0 {
            Some(MenuAction::Remove)
        } else if choice == 3 && self.rewards.len() > 0 && self.cur_points > 0 {
            Some(MenuAction::Tick)
        } else {
            None
        }
    }

    /// The menu of rewards: what can be chosen as the state stands.
    pub fn rewards_prompt(&self) -> (prompt: &'static str)
        ensures
            prompt@ == if self.rewards@.len() == 0 {
                "1 - add reward"@
            } else if self.cur_points <= 0 {
                "1 - add reward\n2 - remove reward"@
            } else {
                "1 - add reward\n2 - remove reward\n3 - tick reward"@
            },
    {
        if self.rewards.len() == 0 {
            "1 - add reward"
        } else if self.cur_points <= 0 {
            "1 - add reward\n2 - remove reward"
        } else {
            "1 - add reward\n2 - remove reward\n3 - tick reward"
        }
    }
}



} // verus!
