//! The decisions of the quest engine, from what was read to what is to be
//! written. Nothing here keeps state: the caller reads the records that a call
//! concerns, asks for the decision, and writes what it says.

use crate::error::QuestError;
use crate::puzzle::{generate, generated};
use crate::state::{quest_valid, token_uri, token_uri_of, Address, Badge, BadgeView, Quest, SubQuestionView, SUB_QUESTIONS};
use vstd::prelude::*;

verus! {

/// The progress of a user who has answered nothing: five times `false`.
pub open spec fn no_progress() -> Seq<bool> {
    Seq::new(SUB_QUESTIONS as nat, |i: int| false)
}

/// The progress that a stored record stands for: five times `false` where
/// nothing is stored.
pub open spec fn progress_or_default(stored: Option<Seq<bool>>) -> Seq<bool> {
    match stored {
        Some(p) => p,
        None => no_progress(),
    }
}

/// Whether every sub-question is answered.
pub open spec fn all_answered(progress: Seq<bool>) -> bool {
    forall|i: int| 0 <= i < progress.len() ==> progress[i]
}

/// How a request to add a quest ends: with the quest to record, or with the
/// first of the rejections that applies.
pub open spec fn add_quest_outcome(
    owner: Seq<u8>,
    sender: Seq<u8>,
    exists: bool,
    seed: Option<Seq<u8>>,
    id: u64,
    symbol: Seq<char>,
) -> Result<Seq<SubQuestionView>, QuestError> {
    if sender != owner {
        Err(QuestError::Unauthorized)
    } else if exists {
        Err(QuestError::DuplicateQuest)
    } else if seed is None {
        Err(QuestError::RandomnessUnavailable)
    } else {
        match generated(seed.unwrap(), id, symbol) {
            Some(quest) => Ok(quest),
            None => Err(QuestError::InvalidOperation),
        }
    }
}

/// Decides a request to add a quest. `exists` says whether the id is taken,
/// `seed` is what the environment supplied for this call.
pub fn decide_add_quest(
    owner: &Address,
    sender: &Address,
    exists: bool,
    seed: Option<&Vec<u8>>,
    id: u64,
    operation: &str,
) -> (r: Result<Quest, QuestError>)
    ensures
        match add_quest_outcome(
            owner@,
            sender@,
            exists,
            match seed {
                Some(s) => Some(s@),
                None => None,
            },
            id,
            operation@,
        ) {
            Ok(quest) => r is Ok && r.unwrap()@ == quest && quest_valid(quest),
            Err(e) => r is Err && r.unwrap_err() == e,
        },
{
    if !sender.same(owner) {
        return Err(QuestError::Unauthorized);
    }
    if exists {
        return Err(QuestError::DuplicateQuest);
    }
    match seed {
        None => Err(QuestError::RandomnessUnavailable),
        Some(seed) => generate(seed.as_slice(), id, operation),
    }
}

/// How a submission ends: accepted, or with the first of the rejections that
/// applies.
pub open spec fn submission_outcome(
    quest: Option<Seq<SubQuestionView>>,
    completed: bool,
    progress: Seq<bool>,
    index: u8,
    solution: u64,
) -> Result<(), QuestError> {
    if quest is None {
        Err(QuestError::QuestNotFound)
    } else if index >= SUB_QUESTIONS {
        Err(QuestError::IndexOutOfRange)
    } else if completed {
        Err(QuestError::AlreadyCompleted)
    } else if progress[index as int] {
        Err(QuestError::AlreadyAnswered)
    } else if solution != quest.unwrap()[index as int].answer {
        Err(QuestError::IncorrectSolution)
    } else {
        Ok(())
    }
}

/// A badge together with the token id that it is recorded under.
#[derive(Clone, Debug, PartialEq, Eq)]
pub struct Minted {
    pub token_id: u64,
    pub badge: Badge,
}

/// What an accepted submission writes: the user's new progress and, if that
/// completes the quest, the badge. With a badge the token counter becomes its
/// token id and the completion flag is set.
#[derive(Clone, Debug, PartialEq, Eq)]
pub struct Submission {
    pub progress: Vec<bool>,
    pub minted: Option<Minted>,
}

/// What an accepted submission writes, as plain values.
pub open spec fn accepted_submission(
    quest: Seq<SubQuestionView>,
    progress: Seq<bool>,
    token_count: u64,
    sender: Seq<u8>,
    quest_id: u64,
    index: u8,
    written: Submission,
) -> bool {
    let updated = progress.update(index as int, true);
    &&& written.progress@ == updated
    &&& if all_answered(updated) {
        &&& written.minted is Some
        &&& written.minted.unwrap().token_id == token_count + 1
        &&& written.minted.unwrap().badge@ == (BadgeView {
            owner: sender,
            quest_id,
            token_uri: token_uri_of(quest[index as int].operation, (token_count + 1) as u64),
        })
    } else {
        written.minted is None
    }
}

/// Copies a record of progress.
pub fn copy_progress(progress: &Vec<bool>) -> (copy: Vec<bool>)
    ensures
        copy@ == progress@,
{
    let copy = progress.clone();
    copy
}

/// Five times `false`.
pub fn fresh_progress() -> (progress: Vec<bool>)
    ensures
        progress@ == no_progress(),
{
    let mut progress: Vec<bool> = Vec::with_capacity(SUB_QUESTIONS);
    let mut i: usize = 0;
    while i < SUB_QUESTIONS
        invariant
            i <= SUB_QUESTIONS,
            progress@.len() == i,
            forall|j: int| 0 <= j < i ==> !progress@[j],
        decreases SUB_QUESTIONS - i,
    {
        progress.push(false);
        i += 1;
    }
    progress
}

/// Whether every flag of a record of progress is set.
pub fn is_complete(progress: &Vec<bool>) -> (r: bool)
    ensures
        r == all_answered(progress@),
{
    let mut i: usize = 0;
    while i < progress.len()
        invariant
            i <= progress@.len(),
            forall|j: int| 0 <= j < i ==> progress@[j],
        decreases progress@.len() - i,
    {
        if !progress[i] {
            return false;
        }
        i += 1;
    }
    true
}

/// Decides a submission. `quest` is the record under `quest_id`, `completed`
/// says whether the sender's completion flag is set, `progress` is the
/// sender's stored progress for the quest, `token_count` the token counter.
pub fn decide_submission(
    quest: Option<&Quest>,
    completed: bool,
    progress: Option<&Vec<bool>>,
    token_count: u64,
    sender: &Address,
    quest_id: u64,
    sub_question_index: u8,
    solution: u64,
) -> (r: Result<Submission, QuestError>)
    requires
        quest matches Some(q) ==> q@.len() == SUB_QUESTIONS,
        progress matches Some(p) ==> p@.len() == SUB_QUESTIONS,
        token_count < u64::MAX,
    ensures
        match submission_outcome(
            match quest {
                Some(q) => Some(q@),
                None => None,
            },
            completed,
            progress_or_default(
                match progress {
                    Some(p) => Some(p@),
                    None => None,
                },
            ),
            sub_question_index,
            solution,
        ) {
            Ok(_) => r is Ok && accepted_submission(
                quest.unwrap()@,
                progress_or_default(
                    match progress {
                        Some(p) => Some(p@),
                        None => None,
                    },
                ),
                token_count,
                sender@,
                quest_id,
                sub_question_index,
                r.unwrap(),
            ),
            Err(e) => r is Err && r.unwrap_err() == e,
        },
{
    let quest = match quest {
        Some(q) => q,
        None => {
            return Err(QuestError::QuestNotFound);
        },
    };
    let index = sub_question_index as usize;
    if index >= quest.sub_questions.len() {
        return Err(QuestError::IndexOutOfRange);
    }
    if completed {
        return Err(QuestError::AlreadyCompleted);
    }
    let mut updated = match progress {
        Some(p) => copy_progress(p),
        None => fresh_progress(),
    };
    if updated[index] {
        return Err(QuestError::AlreadyAnswered);
    }
    let sub_question = &quest.sub_questions[index];
    if solution != sub_question.answer {
        return Err(QuestError::IncorrectSolution);
    }
    updated.set(index, true);
    let minted = if is_complete(&updated) {
        let token_id: u64 = token_count + 1;
        let badge = Badge {
            owner: sender.duplicate(),
            quest_id,
            token_uri: token_uri(sub_question.operation.as_str(), token_id),
        };
        Some(Minted { token_id, badge })
    } else {
        None
    };
    Ok(Submission { progress: updated, minted })
}

} // verus!
