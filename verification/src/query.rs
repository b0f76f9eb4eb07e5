//! The answers to the read-only queries, assembled from what was read.

use crate::engine::{copy_progress, fresh_progress, progress_or_default, Minted};
use crate::error::QuestError;
use crate::msg::{QueryAnswer, QueryAnswerView, SubQuestionAnswer, SubQuestionAnswerView};
use crate::state::{Address, Quest, SubQuestionView};
use vstd::prelude::*;

verus! {

/// A sub-question as a query shows it: the answer is withheld.
pub open spec fn shown(q: SubQuestionView) -> SubQuestionAnswerView {
    SubQuestionAnswerView { operation: q.operation, a: q.a, b: q.b }
}

/// An answer with every field empty.
pub open spec fn empty_answer() -> QueryAnswerView {
    QueryAnswerView {
        operation: None,
        a: None,
        b: None,
        badges: None,
        sub_questions: None,
        progress: None,
    }
}

/// The answer to a query for a quest: one sub-question where an index is
/// given, all of them in order where none is.
pub open spec fn quest_answer_of(quest: Option<Seq<SubQuestionView>>, index: Option<u8>) -> Result<
    QueryAnswerView,
    QuestError,
> {
    match quest {
        None => Err(QuestError::QuestNotFound),
        Some(q) => match index {
            Some(i) => if i >= q.len() {
                Err(QuestError::IndexOutOfRange)
            } else {
                Ok(
                    QueryAnswerView {
                        operation: Some(q[i as int].operation),
                        a: Some(q[i as int].a),
                        b: Some(q[i as int].b),
                        ..empty_answer()
                    },
                )
            },
            None => Ok(
                QueryAnswerView {
                    sub_questions: Some(Seq::new(q.len(), |i: int| shown(q[i]))),
                    ..empty_answer()
                },
            ),
        },
    }
}

/// Answers a query for a quest. `quest` is the record under the id asked for.
pub fn quest_answer(quest: Option<&Quest>, sub_question_index: Option<u8>) -> (r: Result<QueryAnswer, QuestError>)
    ensures
        match quest_answer_of(
            match quest {
                Some(q) => Some(q@),
                None => None,
            },
            sub_question_index,
        ) {
            Ok(answer) => r is Ok && r.unwrap()@ == answer,
            Err(e) => r is Err && r.unwrap_err() == e,
        },
{
    let quest = match quest {
        Some(q) => q,
        None => {
            return Err(QuestError::QuestNotFound);
        },
    };
    match sub_question_index {
        Some(index) => {
            if index as usize >= quest.sub_questions.len() {
                return Err(QuestError::IndexOutOfRange);
            }
            let sub = &quest.sub_questions[index as usize];
            Ok(
                QueryAnswer {
                    operation: Some(sub.operation.clone()),
                    a: Some(sub.a),
                    b: Some(sub.b),
                    badges: None,
                    sub_questions: None,
                    progress: None,
                },
            )
        },
        None => {
            let mut sub_questions: Vec<SubQuestionAnswer> = Vec::new();
            let mut i: usize = 0;
            while i < quest.sub_questions.len()
                invariant
                    i <= quest.sub_questions@.len(),
                    sub_questions@.len() == i,
                    forall|j: int| 0 <= j < i ==> (#[trigger] sub_questions@[j])@ == shown(quest@[j]),
                decreases quest.sub_questions@.len() - i,
            {
                let sub = &quest.sub_questions[i];
                sub_questions.push(
                    SubQuestionAnswer { operation: sub.operation.clone(), a: sub.a, b: sub.b },
                );
                i += 1;
            }
            let answer = QueryAnswer {
                operation: None,
                a: None,
                b: None,
                badges: None,
                sub_questions: Some(sub_questions),
                progress: None,
            };
            assert(answer@.sub_questions.unwrap() =~= Seq::new(
                quest@.len(),
                |i: int| shown(quest@[i]),
            ));
            Ok(answer)
        },
    }
}

/// Answers a query for a user's progress. `stored` is the user's stored
/// progress for the quest.
pub fn progress_answer(stored: Option<&Vec<bool>>) -> (answer: QueryAnswer)
    ensures
        answer@ == (QueryAnswerView {
            progress: Some(
                progress_or_default(
                    match stored {
                        Some(p) => Some(p@),
                        None => None,
                    },
                ),
            ),
            ..empty_answer()
        }),
{
    let progress = match stored {
        Some(p) => copy_progress(p),
        None => fresh_progress(),
    };
    QueryAnswer {
        operation: None,
        a: None,
        b: None,
        badges: None,
        sub_questions: None,
        progress: Some(progress),
    }
}

/// The token ids of the badges that a user owns, in the order of the records.
pub open spec fn tokens_owned(badges: Seq<Minted>, user: Seq<u8>) -> Seq<u64>
    decreases badges.len(),
{
    if badges.len() == 0 {
        Seq::empty()
    } else {
        let rest = tokens_owned(badges.drop_last(), user);
        if badges.last().badge.owner@ == user {
            rest.push(badges.last().token_id)
        } else {
            rest
        }
    }
}

/// Scans all badge records for those that a user owns.
pub fn owned_tokens(badges: &Vec<Minted>, user: &Address) -> (tokens: Vec<u64>)
    ensures
        tokens@ == tokens_owned(badges@, user@),
{
    let mut tokens: Vec<u64> = Vec::new();
    let mut i: usize = 0;
    while i < badges.len()
        invariant
            i <= badges@.len(),
            tokens@ == tokens_owned(badges@.take(i as int), user@),
        decreases badges@.len() - i,
    {
        assert(badges@.take(i + 1).drop_last() =~= badges@.take(i as int));
        if badges[i].badge.owner.same(user) {
            tokens.push(badges[i].token_id);
        }
        i += 1;
    }
    assert(badges@.take(i as int) =~= badges@);
    tokens
}

/// Answers a query for a user's badges with the token ids found.
pub fn badges_answer(tokens: Vec<u64>) -> (answer: QueryAnswer)
    ensures
        answer@ == (QueryAnswerView { badges: Some(tokens@), ..empty_answer() }),
{
    QueryAnswer {
        operation: None,
        a: None,
        b: None,
        badges: Some(tokens),
        sub_questions: None,
        progress: None,
    }
}

} // verus!
