//! The messages that callers send and the answers that queries return.

use crate::state::Address;
use vstd::prelude::*;

verus! {

/// One-time setup. Without an owner, the caller becomes the owner.
#[derive(Clone, Debug, PartialEq, Eq)]
pub struct InstantiateMsg {
    pub owner: Option<Address>,
}

/// A call that changes the state.
#[derive(Clone, Debug, PartialEq, Eq)]
pub enum ExecuteMsg {
    AddQuest { id: u64, operation: String },
    SubmitSolution { quest_id: u64, sub_question_index: u8, solution: u64 },
}

/// A call that only reads the state.
#[derive(Clone, Debug, PartialEq, Eq)]
pub enum QueryMsg {
    GetQuest { id: u64, sub_question_index: Option<u8> },
    GetUserBadges { user: Address },
    GetUserProgress { user: Address, quest_id: u64 },
}

/// A sub-question as a query shows it: without its answer.
#[derive(Clone, Debug, PartialEq, Eq)]
pub struct SubQuestionAnswer {
    pub operation: String,
    pub a: u64,
    pub b: u64,
}

/// What a [`SubQuestionAnswer`] holds, as plain values.
pub ghost struct SubQuestionAnswerView {
    pub operation: Seq<char>,
    pub a: u64,
    pub b: u64,
}

impl View for SubQuestionAnswer {
    type V = SubQuestionAnswerView;

    open spec fn view(&self) -> SubQuestionAnswerView {
        SubQuestionAnswerView { operation: self.operation@, a: self.a, b: self.b }
    }
}

/// The answer to a query. Each kind of query fills its own fields and leaves
/// the others empty.
#[derive(Clone, Debug, PartialEq, Eq)]
pub struct QueryAnswer {
    pub operation: Option<String>,
    pub a: Option<u64>,
    pub b: Option<u64>,
    pub badges: Option<Vec<u64>>,
    pub sub_questions: Option<Vec<SubQuestionAnswer>>,
    pub progress: Option<Vec<bool>>,
}

/// What a [`QueryAnswer`] holds, as plain values.
pub ghost struct QueryAnswerView {
    pub operation: Option<Seq<char>>,
    pub a: Option<u64>,
    pub b: Option<u64>,
    pub badges: Option<Seq<u64>>,
    pub sub_questions: Option<Seq<SubQuestionAnswerView>>,
    pub progress: Option<Seq<bool>>,
}

impl View for QueryAnswer {
    type V = QueryAnswerView;

    open spec fn view(&self) -> QueryAnswerView {
        QueryAnswerView {
            operation: match self.operation {
                Some(s) => Some(s@),
                None => None,
            },
            a: self.a,
            b: self.b,
            badges: match self.badges {
                Some(v) => Some(v@),
                None => None,
            },
            sub_questions: match self.sub_questions {
                Some(v) => Some(Seq::new(v@.len(), |i: int| v@[i]@)),
                None => None,
            },
            progress: match self.progress {
                Some(v) => Some(v@),
                None => None,
            },
        }
    }
}

/// What the environment supplies to a call: the random seed of the block, if
/// it has one.
#[derive(Clone, Debug, PartialEq, Eq)]
pub struct Env {
    pub random: Option<Vec<u8>>,
}

impl Env {
    /// The seed, as plain values.
    pub open spec fn seed(&self) -> Option<Seq<u8>> {
        match self.random {
            Some(s) => Some(s@),
            None => None,
        }
    }
}

/// Who makes a call.
#[derive(Clone, Debug, PartialEq, Eq)]
pub struct MessageInfo {
    pub sender: Address,
}

} // verus!
