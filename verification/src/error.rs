//! The ways in which a call is rejected.

use vstd::prelude::*;

verus! {

/// Why a call was rejected. A rejected call leaves the state as it was.
#[derive(Clone, Copy, Debug, PartialEq, Eq, Structural)]
pub enum QuestError {
    /// The caller is not the owner.
    Unauthorized,
    /// The quest id is already taken.
    DuplicateQuest,
    /// No quest is recorded under the id.
    QuestNotFound,
    /// The sub-question index is not below five.
    IndexOutOfRange,
    /// The caller has already completed the quest.
    AlreadyCompleted,
    /// The caller has already answered this sub-question.
    AlreadyAnswered,
    /// The solution is not the recorded answer.
    IncorrectSolution,
    /// The operation symbol is none of `+`, `-`, `*`, `/`.
    InvalidOperation,
    /// The environment supplied no seed.
    RandomnessUnavailable,
}

impl QuestError {
    /// The text that a caller is shown for this rejection.
    pub open spec fn spec_message(self) -> Seq<char> {
        match self {
            QuestError::Unauthorized => "Only the owner can add quests"@,
            QuestError::DuplicateQuest => "Quest ID already exists"@,
            QuestError::QuestNotFound => "Quest not found"@,
            QuestError::IndexOutOfRange => "Invalid sub-question index"@,
            QuestError::AlreadyCompleted => "Quest already completed by user"@,
            QuestError::AlreadyAnswered => "Sub-question already answered"@,
            QuestError::IncorrectSolution => "Incorrect solution"@,
            QuestError::InvalidOperation => "Invalid operation"@,
            QuestError::RandomnessUnavailable => "No randomness available"@,
        }
    }

    /// The text that a caller is shown for this rejection.
    pub fn message(&self) -> (text: &'static str)
        ensures
            text@ == self.spec_message(),
    {
        match self {
            QuestError::Unauthorized => "Only the owner can add quests",
            QuestError::DuplicateQuest => "Quest ID already exists",
            QuestError::QuestNotFound => "Quest not found",
            QuestError::IndexOutOfRange => "Invalid sub-question index",
            QuestError::AlreadyCompleted => "Quest already completed by user",
            QuestError::AlreadyAnswered => "Sub-question already answered",
            QuestError::IncorrectSolution => "Incorrect solution",
            QuestError::InvalidOperation => "Invalid operation",
            QuestError::RandomnessUnavailable => "No randomness available",
        }
    }
}

} // verus!
