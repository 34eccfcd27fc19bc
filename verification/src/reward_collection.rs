//! Rewards: ticking one spends points through the transfer protocol, and a
//! reward of gated files unlocks a file for as long as it is paid for.

use crate::cli_utils::index_from_entry;
use crate::io_utils::{decode_file_from_moving, encode_file_by_moving, FileMove, GateError};
use crate::transfer::{
    protocol_from_choice, spec_elapsed_minutes, tick, RewardPointTransferProtocol, Timestamp,
    TransferPhase, SIXTIETHS_PER_UNIT,
};
use vstd::prelude::*;
use vstd::string::*;

verus! {

/// A file under lock: where it belongs, where it is kept while it is
/// locked, and the name it is offered under.
#[derive(Clone, Debug, PartialEq, Eq)]
pub struct SingularFileToDecode {
    pub path_before_encoding: String,
    pub reward_name: String,
    pub path_after_encoding: String,
}

/// The files of one reward, in the order they were added, and the one file,
/// if any, that is rented out and so stands unlocked at its own path.
#[derive(Clone, Debug, PartialEq, Eq)]
pub struct DecodeFilesReward {
    pub files_to_decode: Vec<SingularFileToDecode>,
    pub currently_decoded_file_index: Option<usize>,
}

/// What a reward consists of.
#[derive(Clone, Debug, PartialEq, Eq)]
pub enum RewardType {
    DecodeFiles(DecodeFilesReward),
}

/// A named reward: what it costs, per redemption or per hour, how it is
/// paid for, and what it consists of.
#[derive(Clone, Debug, PartialEq, Eq)]
pub struct RewardCollection {
    pub name: String,
    pub description: String,
    pub reward_type: RewardType,
    pub cost: i64,
    pub spending_protocol: RewardPointTransferProtocol,
}

/// What ticking a reward yields: the points spent, in sixtieths of a unit,
/// and the move of a file that goes with the step, for the caller to carry
/// out. With no move, nothing happened and nothing is spent.
#[derive(Clone, Debug, PartialEq, Eq)]
pub struct TickResponse {
    pub points_spent: i128,
    pub file_move: Option<FileMove>,
}

/// The items that are still there, in their old order: `items[i]` is kept
/// exactly when `present[i]` holds.
pub open spec fn spec_kept<T>(items: Seq<T>, present: Seq<bool>) -> Seq<T>
    decreases items.len(),
{
    if items.len() == 0 || present.len() == 0 {
        Seq::empty()
    } else if present.last() {
        spec_kept(items.drop_last(), present.drop_last()).push(items.last())
    } else {
        spec_kept(items.drop_last(), present.drop_last())
    }
}

/// How many of the first `position` items are missing.
pub open spec fn spec_missing_before(present: Seq<bool>, position: int) -> int
    decreases position,
{
    if position <= 0 {
        0
    } else if present[position - 1] {
        spec_missing_before(present, position - 1)
    } else {
        spec_missing_before(present, position - 1) + 1
    }
}

/// The index of the rented file once the missing files are gone: none if
/// the rented file itself is missing, else the old index less the number of
/// missing files in front of it.
pub open spec fn spec_repaired_index(active: Option<usize>, present: Seq<bool>) -> Option<usize> {
    match active {
        Some(index) if present[index as int] => Some(
            (index - spec_missing_before(present, index as int)) as usize,
        ),
        _ => None,
    }
}

/// No more files are missing in front of a position than there are files.
pub proof fn lemma_missing_before_bounds(present: Seq<bool>, position: int)
    requires
        0 <= position,
    ensures
        0 <= spec_missing_before(present, position) <= position,
    decreases position,
{
    if position > 0 {
        lemma_missing_before_bounds(present, position - 1);
    }
}

/// What is kept of a list is as long as the list less its missing items.
pub proof fn lemma_kept_len<T>(items: Seq<T>, present: Seq<bool>)
    requires
        items.len() == present.len(),
    ensures
        spec_kept(items, present).len() == items.len() - spec_missing_before(
            present,
            items.len() as int,
        ),
    decreases items.len(),
{
    if items.len() > 0 {
        lemma_kept_len(items.drop_last(), present.drop_last());
        lemma_missing_before_prefix(present, present.drop_last(), items.len() - 1);
    }
}

/// Counting the missing items in front of a position looks at nothing from
/// that position on.
pub proof fn lemma_missing_before_prefix(present: Seq<bool>, other: Seq<bool>, position: int)
    requires
        0 <= position <= present.len(),
        position <= other.len(),
        forall|i: int| 0 <= i < position ==> present[i] == other[i],
    ensures
        spec_missing_before(present, position) == spec_missing_before(other, position),
    decreases position,
{
    if position > 0 {
        lemma_missing_before_prefix(present, other, position - 1);
    }
}

/// An item that is present keeps its place among the kept items: it stands
/// at its old position less the number of missing items in front of it.
pub proof fn lemma_kept_item<T>(items: Seq<T>, present: Seq<bool>, position: int)
    requires
        items.len() == present.len(),
        0 <= position < items.len(),
        present[position],
    ensures
        0 <= position - spec_missing_before(present, position) < spec_kept(items, present).len(),
        spec_kept(items, present)[position - spec_missing_before(present, position)]
            == items[position],
    decreases items.len(),
{
    let shorter = items.drop_last();
    let fewer = present.drop_last();
    lemma_missing_before_bounds(present, position);
    lemma_kept_len(shorter, fewer);
    lemma_missing_before_prefix(present, fewer, items.len() - 1);
    if position == items.len() - 1 {
    } else {
        lemma_kept_item(shorter, fewer, position);
        lemma_missing_before_prefix(present, fewer, position);
    }
}

impl SingularFileToDecode {
    /// The text that describes the file: the name it is offered under and
    /// the path where it belongs.
    pub open spec fn spec_description(self) -> Seq<char> {
        self.reward_name@ + " --- "@ + self.path_before_encoding@
    }

    /// Describes the file in one line.
    pub fn describe(&self) -> (text: String)
        ensures
            text@ == self.spec_description(),
    {
        let mut text = self.reward_name.clone();
        text.append(" --- ");
        text.append(self.path_before_encoding.as_str());
        text
    }

    /// The move that unlocks the file: from where it is kept to where it
    /// belongs.
    pub fn unlock_move(&self) -> (file_move: FileMove)
        ensures
            file_move.from@ == self.path_after_encoding@,
            file_move.to@ == self.path_before_encoding@,
    {
        decode_file_from_moving(&self.path_after_encoding, &self.path_before_encoding)
    }

    /// The move that locks the file again: from where it belongs back to
    /// where it is kept.
    pub fn relock_move(&self) -> (file_move: FileMove)
        ensures
            file_move.from@ == self.path_before_encoding@,
            file_move.to@ == self.path_after_encoding@,
    {
        FileMove {
            from: self.path_before_encoding.clone(),
            to: self.path_after_encoding.clone(),
        }
    }
}

impl DecodeFilesReward {
    /// The rented index, if there is one, points at a file of the list.
    pub open spec fn well_formed(self) -> bool {
        self.currently_decoded_file_index matches Some(index) ==> index
            < self.files_to_decode@.len()
    }

    /// Tests whether the reward is well formed.
    pub fn is_well_formed(&self) -> (b: bool)
        ensures
            b == self.well_formed(),
    {
        match self.currently_decoded_file_index {
            Some(index) => index < self.files_to_decode.len(),
            None => true,
        }
    }

    /// A reward with no files and nothing rented out.
    pub fn get_default() -> (reward: DecodeFilesReward)
        ensures
            reward.files_to_decode@.len() == 0,
            reward.currently_decoded_file_index is None,
            reward.well_formed(),
    {
        DecodeFilesReward { files_to_decode: Vec::new(), currently_decoded_file_index: None }
    }

    /// Puts `new_file` under lock and appends it to the list, recording
    /// `gated_path` as the place where it is kept. Returns the move that
    /// locks it away.
    pub fn add_new_file_at(
        &mut self,
        new_file: SingularFileToDecode,
        gated_path: String,
    ) -> (file_move: FileMove)
        requires
            old(self).well_formed(),
        ensures
            final(self).well_formed(),
            final(self).currently_decoded_file_index == old(self).currently_decoded_file_index,
            final(self).files_to_decode@.len() == old(self).files_to_decode@.len() + 1,
            final(self).files_to_decode@.drop_last() == old(self).files_to_decode@,
            final(self).files_to_decode@.last().path_before_encoding
                == new_file.path_before_encoding,
            final(self).files_to_decode@.last().reward_name == new_file.reward_name,
            final(self).files_to_decode@.last().path_after_encoding == gated_path,
            file_move.from@ == new_file.path_before_encoding@,
            file_move.to@ == gated_path@,
    {
        let file = SingularFileToDecode {
            path_before_encoding: new_file.path_before_encoding,
            reward_name: new_file.reward_name,
            path_after_encoding: gated_path,
        };
        let file_move = file.relock_move();
        self.files_to_decode.push(file);
        assert(self.files_to_decode@.drop_last() =~= old(self).files_to_decode@);
        file_move
    }

    /// Puts `new_file` under lock, in a folder drawn from `folder_pool`
    /// under a fresh random name, and appends it to the list. Whatever path
    /// `new_file` named as its gated path is replaced by the drawn one.
    ///
    /// With an empty pool nothing is added and the error says so.
    pub fn add_new_file(
        &mut self,
        new_file: SingularFileToDecode,
        folder_pool: &Vec<String>,
    ) -> (plan: Result<FileMove, GateError>)
        requires
            old(self).well_formed(),
        ensures
            final(self).well_formed(),
            final(self).currently_decoded_file_index == old(self).currently_decoded_file_index,
            plan is Err <==> folder_pool.len() == 0,
            plan matches Err(error) ==> error == GateError::EmptyPool && *final(self) == *old(self),
            plan matches Ok(file_move) ==> {
                &&& final(self).files_to_decode@.len() == old(self).files_to_decode@.len() + 1
                &&& final(self).files_to_decode@.drop_last() == old(self).files_to_decode@
                &&& final(self).files_to_decode@.last().path_before_encoding
                    == new_file.path_before_encoding
                &&& final(self).files_to_decode@.last().reward_name == new_file.reward_name
                &&& final(self).files_to_decode@.last().path_after_encoding@ == file_move.to@
                &&& file_move.from@ == new_file.path_before_encoding@
                &&& exists|choice: int, name: Seq<char>|
                    0 <= choice < folder_pool.len() && crate::io_utils::is_gate_name(name)
                        && file_move.to@ == #[trigger] (folder_pool[choice]@ + name)
            },
    {
        match encode_file_by_moving(folder_pool, &new_file.path_before_encoding) {
            Err(error) => Err(error),
            Ok(planned) => Ok(self.add_new_file_at(new_file, planned.to)),
        }
    }

    /// Reads the number that was entered for a file, counted from one as
    /// the list is shown, as an index into the list. `None` when there is
    /// no such file, and so always when the list is empty.
    pub fn choose_file(&self, entered: i64) -> (choice: Option<usize>)
        ensures
            choice is Some <==> 0 < entered <= self.files_to_decode@.len(),
            choice matches Some(index) ==> index == entered - 1,
    {
        index_from_entry(entered, self.files_to_decode.len())
    }

    /// Rents out the file at `index`: it is recorded as the rented file,
    /// and the returned move unlocks it. Nothing may be rented out already.
    pub fn activate(&mut self, index: usize) -> (file_move: FileMove)
        requires
            old(self).currently_decoded_file_index is None,
            index < old(self).files_to_decode@.len(),
        ensures
            final(self).well_formed(),
            final(self).files_to_decode == old(self).files_to_decode,
            final(self).currently_decoded_file_index == Some(index),
            file_move.from@ == old(self).files_to_decode@[index as int].path_after_encoding@,
            file_move.to@ == old(self).files_to_decode@[index as int].path_before_encoding@,
    {
        self.currently_decoded_file_index = Some(index);
        self.files_to_decode[index].unlock_move()
    }

    /// Takes the rented file back: the returned move locks it away where
    /// it was kept before, and nothing is rented out any more. A file must
    /// be rented out.
    pub fn deactivate(&mut self) -> (file_move: FileMove)
        requires
            old(self).well_formed(),
            old(self).currently_decoded_file_index is Some,
        ensures
            final(self).well_formed(),
            final(self).files_to_decode == old(self).files_to_decode,
            final(self).currently_decoded_file_index is None,
            file_move.from@ == old(self).files_to_decode@[old(
                self,
            ).currently_decoded_file_index.unwrap() as int].path_before_encoding@,
            file_move.to@ == old(self).files_to_decode@[old(
                self,
            ).currently_decoded_file_index.unwrap() as int].path_after_encoding@,
    {
        let index = self.currently_decoded_file_index.unwrap();
        self.currently_decoded_file_index = None;
        self.files_to_decode[index].relock_move()
    }

    /// Redeems the file at `index` for good: the returned move unlocks it,
    /// and it leaves the list, the files behind it moving up by one. This
    /// is for rewards that rent nothing out.
    pub fn execute(&mut self, index: usize) -> (file_move: FileMove)
        requires
            old(self).currently_decoded_file_index is None,
            index < old(self).files_to_decode@.len(),
        ensures
            final(self).well_formed(),
            final(self).files_to_decode@ == old(self).files_to_decode@.remove(index as int),
            final(self).currently_decoded_file_index is None,
            file_move.from@ == old(self).files_to_decode@[index as int].path_after_encoding@,
            file_move.to@ == old(self).files_to_decode@[index as int].path_before_encoding@,
    {
        let file = self.files_to_decode.remove(index);
        file.unlock_move()
    }

    /// Drops every file that is no longer kept where the list says, and
    /// repairs the rented index so that it goes on pointing at the same
    /// file. `present[i]` tells whether the gated path of the `i`-th file
    /// still exists.
    ///
    /// The files that remain keep their order. If the rented file itself is
    /// gone, nothing is rented out afterwards; otherwise the rented index
    /// drops by one for each missing file in front of it.
    pub fn validate(&mut self, present: &Vec<bool>)
        requires
            old(self).well_formed(),
            present.len() == old(self).files_to_decode@.len(),
        ensures
            final(self).well_formed(),
            final(self).files_to_decode@ == spec_kept(old(self).files_to_decode@, present@),
            final(self).currently_decoded_file_index == spec_repaired_index(
                old(self).currently_decoded_file_index,
                present@,
            ),
            final(self).currently_decoded_file_index matches Some(index) ==> {
                &&& old(self).currently_decoded_file_index matches Some(before)
                &&& final(self).files_to_decode@[index as int] == old(
                    self,
                ).files_to_decode@[before as int]
            },
    {
        let ghost before = self.files_to_decode@;
        let active = self.currently_decoded_file_index;
        let total = present.len();
        let mut removed: usize = 0;
        let mut removed_in_front: usize = 0;
        let mut position: usize = 0;
        while position < total
            invariant
                total == present.len(),
                total == before.len(),
                position <= total,
                removed == spec_missing_before(present@, position as int),
                removed <= position,
                self.currently_decoded_file_index == active,
                active matches Some(index) ==> index < total,
                active matches Some(index) ==> removed_in_front == spec_missing_before(
                    present@,
                    if position <= index {
                        position as int
                    } else {
                        index as int
                    },
                ),
                self.files_to_decode@ == spec_kept(
                    before.take(position as int),
                    present@.take(position as int),
                ) + before.skip(position as int),
                spec_kept(before.take(position as int), present@.take(position as int)).len()
                    == position - removed,
            decreases total - position,
        {
            proof {
                assert(before.take(position + 1).drop_last() =~= before.take(position as int));
                assert(present@.take(position + 1).drop_last() =~= present@.take(position as int));
                assert(before.skip(position as int) =~= seq![before[position as int]]
                    + before.skip(position + 1));
            }
            if !present[position] {
                self.files_to_decode.remove(position - removed);
                removed += 1;
                match active {
                    Some(index) if position < index => {
                        removed_in_front += 1;
                    },
                    _ => {},
                }
            }
            assert(self.files_to_decode@ =~= spec_kept(
                before.take(position + 1),
                present@.take(position + 1),
            ) + before.skip(position + 1));
            position += 1;
        }
        proof {
            assert(before.take(total as int) =~= before);
            assert(present@.take(total as int) =~= present@);
        }
        match active {
            Some(index) => {
                if present[index] {
                    proof {
                        lemma_kept_item(before, present@, index as int);
                    }
                    self.currently_decoded_file_index = Some(index - removed_in_front);
                } else {
                    self.currently_decoded_file_index = None;
                }
            },
            None => {},
        }
    }
}

/// After a validation the rented index, where there still is one, points
/// at the very file it pointed at before; and there is none exactly when
/// none was rented out or the rented file is among the missing.
pub proof fn lemma_repaired_index_keeps_its_file<T>(
    files: Seq<T>,
    present: Seq<bool>,
    active: Option<usize>,
)
    requires
        files.len() == present.len(),
        active matches Some(index) ==> index < files.len(),
    ensures
        match spec_repaired_index(active, present) {
            Some(repaired) => {
                &&& active matches Some(index)
                &&& present[index as int]
                &&& repaired < spec_kept(files, present).len()
                &&& spec_kept(files, present)[repaired as int] == files[index as int]
            },
            None => active matches Some(index) ==> !present[index as int],
        },
{
    if let Some(index) = active {
        if present[index as int] {
            lemma_kept_item(files, present, index as int);
            lemma_missing_before_bounds(present, index as int);
        }
    }
}

impl RewardType {
    /// The gated files that the reward consists of.
    pub open spec fn spec_files(self) -> DecodeFilesReward {
        self->DecodeFiles_0
    }

    /// The reward's files are well formed.
    pub open spec fn well_formed(self) -> bool {
        self.spec_files().well_formed()
    }

    /// Names the kind of reward.
    pub fn describe(&self) -> (text: &'static str)
        ensures
            text@ == "Decode files"@,
    {
        match self {
            RewardType::DecodeFiles(_) => "Decode files",
        }
    }

    /// Whether the reward is one of gated files.
    pub fn is_decode_files(&self) -> (b: bool)
        ensures
            b == (self is DecodeFiles),
    {
        match self {
            RewardType::DecodeFiles(_) => true,
        }
    }

    /// Redeems the chosen file for good, see [`DecodeFilesReward::execute`].
    /// With no file chosen nothing happens and `None` is returned.
    pub fn execute_reward(&mut self, file_index: Option<usize>) -> (file_move: Option<FileMove>)
        requires
            old(self).spec_files().currently_decoded_file_index is None,
            file_index matches Some(index) ==> index < old(
                self,
            ).spec_files().files_to_decode@.len(),
        ensures
            final(self).well_formed(),
            final(self).spec_files().currently_decoded_file_index is None,
            file_move is Some <==> file_index is Some,
            file_index is None ==> *final(self) == *old(self),
            file_index matches Some(index) ==> {
                &&& final(self).spec_files().files_to_decode@ == old(
                    self,
                ).spec_files().files_to_decode@.remove(index as int)
                &&& file_move.unwrap().from@ == old(
                    self,
                ).spec_files().files_to_decode@[index as int].path_after_encoding@
                &&& file_move.unwrap().to@ == old(
                    self,
                ).spec_files().files_to_decode@[index as int].path_before_encoding@
            },
    {
        match file_index {
            None => None,
            Some(index) => match self {
                RewardType::DecodeFiles(reward) => Some(reward.execute(index)),
            },
        }
    }

    /// Rents out the chosen file, see [`DecodeFilesReward::activate`]. With
    /// no file chosen nothing is rented out and `None` is returned.
    pub fn activate_reward(&mut self, file_index: Option<usize>) -> (file_move: Option<FileMove>)
        requires
            old(self).spec_files().currently_decoded_file_index is None,
            file_index matches Some(index) ==> index < old(
                self,
            ).spec_files().files_to_decode@.len(),
        ensures
            final(self).well_formed(),
            final(self).spec_files().files_to_decode == old(self).spec_files().files_to_decode,
            final(self).spec_files().currently_decoded_file_index == file_index,
            file_move is Some <==> file_index is Some,
            file_index is None ==> *final(self) == *old(self),
            file_index matches Some(index) ==> {
                &&& file_move.unwrap().from@ == old(
                    self,
                ).spec_files().files_to_decode@[index as int].path_after_encoding@
                &&& file_move.unwrap().to@ == old(
                    self,
                ).spec_files().files_to_decode@[index as int].path_before_encoding@
            },
    {
        match file_index {
            None => None,
            Some(index) => match self {
                RewardType::DecodeFiles(reward) => Some(reward.activate(index)),
            },
        }
    }

    /// Takes the rented file back, see [`DecodeFilesReward::deactivate`].
    /// A file must be rented out; the move that locks it away is returned.
    pub fn deactivate_reward(&mut self) -> (file_move: Option<FileMove>)
        requires
            old(self).well_formed(),
            old(self).spec_files().currently_decoded_file_index is Some,
        ensures
            final(self).well_formed(),
            final(self).spec_files().files_to_decode == old(self).spec_files().files_to_decode,
            final(self).spec_files().currently_decoded_file_index is None,
            file_move is Some,
            file_move.unwrap().from@ == old(self).spec_files().files_to_decode@[old(
                self,
            ).spec_files().currently_decoded_file_index.unwrap() as int].path_before_encoding@,
            file_move.unwrap().to@ == old(self).spec_files().files_to_decode@[old(
                self,
            ).spec_files().currently_decoded_file_index.unwrap() as int].path_after_encoding@,
    {
        match self {
            RewardType::DecodeFiles(reward) => Some(reward.deactivate()),
        }
    }
}

impl RewardCollection {
    /// Makes a reward from the answers that were given for it, with no
    /// files yet. `protocol_choice` is one for an hourly cost and two for a
    /// one-time cost; `type_choice` is one, for a reward of gated files.
    /// `None` where one of the two is no such choice.
    pub fn init_rewards_from_cli(
        name: String,
        description: String,
        protocol_choice: i64,
        cost: i64,
        type_choice: i64,
    ) -> (reward: Option<RewardCollection>)
        ensures
            reward is Some <==> (protocol_choice == 1 || protocol_choice == 2) && type_choice == 1,
            reward matches Some(made) ==> {
                &&& made.name == name
                &&& made.description == description
                &&& made.cost == cost
                &&& made.spending_protocol == if protocol_choice == 1 {
                    RewardPointTransferProtocol::HourlyTransfer(None)
                } else {
                    RewardPointTransferProtocol::SingularTransfer
                }
                &&& made.spec_files().files_to_decode@.len() == 0
                &&& made.spec_files().currently_decoded_file_index is None
                &&& made.spec_can_tick()
            },
    {
        if type_choice != 1 {
            return None;
        }
        match protocol_from_choice(protocol_choice) {
            Some(spending_protocol) => Some(
                RewardCollection {
                    name,
                    description,
                    reward_type: RewardType::DecodeFiles(DecodeFilesReward::get_default()),
                    cost,
                    spending_protocol,
                },
            ),
            None => None,
        }
    }

    /// The text that describes how the reward is paid for, with `amount` as
    /// the way its cost is written.
    pub open spec fn spec_payment_text(self, amount: Seq<char>) -> Seq<char> {
        match self.spending_protocol {
            RewardPointTransferProtocol::SingularTransfer => "One-time payment ("@ + amount + ")"@,
            RewardPointTransferProtocol::HourlyTransfer(Some(_)) => "Per-hour payment ("@ + amount
                + "), started"@,
            RewardPointTransferProtocol::HourlyTransfer(None) => "Per-hour payment ("@ + amount
                + "), not started"@,
        }
    }

    /// The text that describes the reward, with `amount` as the way its
    /// cost is written.
    pub open spec fn spec_description(self, amount: Seq<char>) -> Seq<char> {
        "name: "@ + self.name@ + "\ndescription: "@ + self.description@
            + "\nreward system description: "@ + self.spec_payment_text(amount) + "\ntype:"@
            + "Decode files"@
    }

    /// Describes the reward in four lines: its name, its description, how
    /// it is paid for, and its kind. `amount` is the cost as it is to be
    /// written.
    pub fn describe(&self, amount: &str) -> (text: String)
        ensures
            text@ == self.spec_description(amount@),
    {
        let mut text = String::from_str("name: ");
        text.append(self.name.as_str());
        text.append("\ndescription: ");
        text.append(self.description.as_str());
        text.append("\nreward system description: ");
        let ghost head = text@;
        match self.spending_protocol {
            RewardPointTransferProtocol::SingularTransfer => {
                text.append("One-time payment (");
                text.append(amount);
                text.append(")");
            },
            RewardPointTransferProtocol::HourlyTransfer(started) => {
                text.append("Per-hour payment (");
                text.append(amount);
                text.append(if started.is_some() {
                    "), started"
                } else {
                    "), not started"
                });
            },
        }
        assert(text@ =~= head + self.spec_payment_text(amount@));
        text.append("\ntype:");
        text.append(self.reward_type.describe());
        assert(text@ =~= self.spec_description(amount@));
        text
    }

    /// The gated files of the reward.
    pub open spec fn spec_files(self) -> DecodeFilesReward {
        self.reward_type.spec_files()
    }

    /// The files are well formed, and a file is rented out only while the
    /// protocol is running.
    pub open spec fn well_formed(self) -> bool {
        &&& self.reward_type.well_formed()
        &&& !self.spending_protocol.is_active()
            ==> self.spec_files().currently_decoded_file_index is None
    }

    /// Tests whether the reward is well formed.
    pub fn is_well_formed(&self) -> (b: bool)
        ensures
            b == self.well_formed(),
    {
        match &self.reward_type {
            RewardType::DecodeFiles(reward) => reward.is_well_formed() && (
            self.spending_protocol.is_active() || reward.currently_decoded_file_index.is_none()),
        }
    }

    /// Whether the reward can be ticked: it is well formed, and while the
    /// protocol is running a file is rented out. A validation that found the
    /// rented file missing leaves a running reward that cannot be ticked.
    pub open spec fn spec_can_tick(&self) -> bool {
        &&& self.well_formed()
        &&& self.spending_protocol.is_active()
            ==> self.spec_files().currently_decoded_file_index is Some
    }

    #[verifier::when_used_as_spec(spec_can_tick)]
    pub fn can_tick(&self) -> (b: bool)
        ensures
            b == self.spec_can_tick(),
    {
        match &self.reward_type {
            RewardType::DecodeFiles(reward) => reward.is_well_formed() && (
            self.spending_protocol.is_active() == reward.currently_decoded_file_index.is_some()),
        }
    }

    /// Whether the next tick needs a file to be chosen: stopping a running
    /// reward needs none, and from an empty list there is none to choose.
    pub open spec fn spec_choice_needed(&self) -> bool {
        !self.spending_protocol.is_active() && self.spec_files().files_to_decode@.len() > 0
    }

    #[verifier::when_used_as_spec(spec_choice_needed)]
    pub fn choice_needed(&self) -> (b: bool)
        ensures
            b == (!self.spending_protocol.is_active()
                && self.spec_files().files_to_decode@.len() > 0),
    {
        match &self.reward_type {
            RewardType::DecodeFiles(reward) => !self.spending_protocol.is_active()
                && reward.files_to_decode.len() > 0,
        }
    }

    /// What to ask when a file is to be chosen for the next tick: a one-shot
    /// reward decodes the file, an hourly reward rents it out.
    pub fn choice_prompt(&self) -> (prompt: &'static str)
        ensures
            prompt@ == if self.spending_protocol == RewardPointTransferProtocol::SingularTransfer {
                "Enter index of file to decode: "@
            } else {
                "Enter index of file to rent: "@
            },
    {
        match self.spending_protocol {
            RewardPointTransferProtocol::SingularTransfer => "Enter index of file to decode: ",
            RewardPointTransferProtocol::HourlyTransfer(_) => "Enter index of file to rent: ",
        }
    }

    /// What a tick at `now` with the choice `file_index` makes of the
    /// reward: whether `after` and `response` are its outcome.
    pub open spec fn spec_ticked(
        self,
        file_index: Option<usize>,
        now: Timestamp,
        after: RewardCollection,
        response: TickResponse,
    ) -> bool {
        let files = self.spec_files().files_to_decode;
        let rented = self.spec_files().currently_decoded_file_index;
        let files_after = after.spec_files().files_to_decode;
        let rented_after = after.spec_files().currently_decoded_file_index;
        &&& after.name == self.name
        &&& after.description == self.description
        &&& after.cost == self.cost
        &&& match (self.spending_protocol, file_index) {
            (RewardPointTransferProtocol::HourlyTransfer(Some(start)), _) => {
                &&& after.spending_protocol == RewardPointTransferProtocol::HourlyTransfer(None)
                &&& files_after == files
                &&& rented_after is None
                &&& response.points_spent == spec_elapsed_minutes(start, now) * self.cost
                &&& response.file_move matches Some(file_move)
                &&& file_move.from@ == files@[rented.unwrap() as int].path_before_encoding@
                &&& file_move.to@ == files@[rented.unwrap() as int].path_after_encoding@
            },
            (RewardPointTransferProtocol::HourlyTransfer(None), Some(index)) => {
                &&& after.spending_protocol == RewardPointTransferProtocol::HourlyTransfer(
                    Some(now),
                )
                &&& files_after == files
                &&& rented_after == Some(index)
                &&& response.points_spent == 0
                &&& response.file_move matches Some(file_move)
                &&& file_move.from@ == files@[index as int].path_after_encoding@
                &&& file_move.to@ == files@[index as int].path_before_encoding@
            },
            (RewardPointTransferProtocol::SingularTransfer, Some(index)) => {
                &&& after.spending_protocol == RewardPointTransferProtocol::SingularTransfer
                &&& files_after@ == files@.remove(index as int)
                &&& rented_after is None
                &&& response.points_spent == SIXTIETHS_PER_UNIT * self.cost
                &&& response.file_move matches Some(file_move)
                &&& file_move.from@ == files@[index as int].path_after_encoding@
                &&& file_move.to@ == files@[index as int].path_before_encoding@
            },
            (_, None) => {
                &&& after == self
                &&& response.points_spent == 0
                &&& response.file_move is None
            },
        }
    }

    /// Ticks the reward at the instant `now`. `file_index` is the file that
    /// was chosen for the step, or `None` where none was chosen; stopping a
    /// running reward needs no choice and ignores it.
    ///
    /// A one-shot reward redeems the chosen file for good and costs its
    /// whole amount. An idle hourly reward starts: the chosen file is rented
    /// out, and nothing is spent yet. A running hourly reward stops: the
    /// rented file is locked away again, and one sixtieth of the cost is
    /// spent for each whole minute since the start. Where a choice was
    /// needed and none was made, the reward stays exactly as it was and
    /// nothing is spent.
    pub fn tick_reward_at(&mut self, file_index: Option<usize>, now: Timestamp) -> (response:
        TickResponse)
        requires
            old(self).spec_can_tick(),
            file_index matches Some(index) ==> index < old(
                self,
            ).spec_files().files_to_decode@.len(),
        ensures
            final(self).spec_can_tick(),
            old(self).spec_ticked(file_index, now, *final(self), response),
    {
        let step = tick(self.spending_protocol, self.cost, now);
        let file_move = match step.phase {
            TransferPhase::Deactivation => self.reward_type.deactivate_reward(),
            TransferPhase::Activation => self.reward_type.activate_reward(file_index),
            TransferPhase::Completion => self.reward_type.execute_reward(file_index),
        };
        match file_move {
            None => TickResponse { points_spent: 0, file_move: None },
            Some(planned) => {
                self.spending_protocol = step.protocol;
                TickResponse { points_spent: step.points_delta, file_move: Some(planned) }
            },
        }
    }

    /// Ticks the reward at the present instant, read from the system clock.
    /// Whatever the clock says, the outcome is that of a tick at that instant.
    pub fn tick_reward(&mut self, file_index: Option<usize>) -> (response: TickResponse)
        requires
            old(self).spec_can_tick(),
            file_index matches Some(index) ==> index < old(
                self,
            ).spec_files().files_to_decode@.len(),
        ensures
            final(self).spec_can_tick(),
            exists|now: Timestamp| #[trigger]
                old(self).spec_ticked(file_index, now, *final(self), response),
    {
        let now = Timestamp::now();
        self.tick_reward_at(file_index, now)
    }

    /// What a validation makes of the reward when `present` tells which of
    /// its files are still there: whether `after` is its outcome.
    pub open spec fn spec_validated(self, present: Seq<bool>, after: RewardCollection) -> bool {
        &&& after.name == self.name
        &&& after.description == self.description
        &&& after.cost == self.cost
        &&& after.spending_protocol == self.spending_protocol
        &&& after.spec_files().files_to_decode@ == spec_kept(
            self.spec_files().files_to_decode@,
            present,
        )
        &&& after.spec_files().currently_decoded_file_index == spec_repaired_index(
            self.spec_files().currently_decoded_file_index,
            present,
        )
    }

    /// Drops the files that are gone, see [`DecodeFilesReward::validate`].
    /// Nothing else about the reward changes.
    pub fn validate(&mut self, present: &Vec<bool>)
        requires
            old(self).well_formed(),
            present.len() == old(self).spec_files().files_to_decode@.len(),
        ensures
            final(self).well_formed(),
            old(self).spec_validated(present@, *final(self)),
            final(self).spec_files().currently_decoded_file_index matches Some(index) ==> {
                &&& old(self).spec_files().currently_decoded_file_index matches Some(before)
                &&& final(self).spec_files().files_to_decode@[index as int] == old(
                    self,
                ).spec_files().files_to_decode@[before as int]
            },
    {
        match &mut self.reward_type {
            RewardType::DecodeFiles(reward) => reward.validate(present),
        }
    }
}

} // verus!
