//! The quest engine over its state: setup, the two calls that change the
//! state, and the queries.

use crate::engine::{add_quest_outcome, all_answered, decide_add_quest, decide_submission, no_progress, progress_or_default, submission_outcome, Minted, Submission};
use crate::error::QuestError;
use crate::msg::{Env, ExecuteMsg, InstantiateMsg, MessageInfo, QueryAnswer, QueryAnswerView, QueryMsg};
use crate::query::{badges_answer, empty_answer, owned_tokens, progress_answer, quest_answer, quest_answer_of, tokens_owned};
use crate::state::{quest_valid, token_uri_of, Address, BadgeView, Quest, SubQuestionView, SUB_QUESTIONS};
use crate::store::UserQuestTable;
use std::collections::HashMap;
use vstd::prelude::*;

verus! {

broadcast use vstd::std_specs::hash::group_hash_axioms;

/// Everything the engine keeps: the owner, the token counter, the quests,
/// each user's progress and completion flags, and the badges.
pub struct State {
    owner: Address,
    token_count: u64,
    quests: HashMap<u64, Quest>,
    progress: UserQuestTable<Vec<bool>>,
    completions: UserQuestTable<bool>,
    badges: Vec<Minted>,
}

impl State {
    /// The account that may add quests.
    pub closed spec fn owner(&self) -> Seq<u8> {
        self.owner@
    }

    /// The token id given out last; zero before the first badge.
    pub closed spec fn token_count(&self) -> u64 {
        self.token_count
    }

    /// The quests by id.
    pub closed spec fn quests(&self) -> Map<u64, Seq<SubQuestionView>> {
        Map::new(|id: u64| self.quests@.contains_key(id), |id: u64| self.quests@[id]@)
    }

    /// The progress that is stored for a user and a quest, if any is.
    pub closed spec fn stored_progress(&self, user: Seq<u8>, quest_id: u64) -> Option<Seq<bool>> {
        if self.progress@.contains_key((user, quest_id)) {
            Some(self.progress@[(user, quest_id)]@)
        } else {
            None
        }
    }

    /// A user's progress in a quest: five times `false` where nothing is stored.
    pub open spec fn progress_of(&self, user: Seq<u8>, quest_id: u64) -> Seq<bool> {
        progress_or_default(self.stored_progress(user, quest_id))
    }

    /// Whether a user's completion flag for a quest is set.
    pub closed spec fn completed(&self, user: Seq<u8>, quest_id: u64) -> bool {
        self.completions@.contains_key((user, quest_id))
    }

    /// The badges in the order in which they were minted.
    pub closed spec fn minted(&self) -> Seq<Minted> {
        self.badges@
    }

    /// Whether a badge was minted for a user and a quest.
    pub open spec fn has_badge(&self, user: Seq<u8>, quest_id: u64) -> bool {
        exists|i: int|
            0 <= i < self.minted().len() && (#[trigger] self.minted()[i]).badge.owner@ == user
                && self.minted()[i].badge.quest_id == quest_id
    }

    /// The state is one that the engine can have reached.
    ///
    /// Every quest is valid, and every stored progress has five flags and
    /// belongs to a quest; the token counter counts the badges, which are numbered from 1 in the order
    /// of minting; a completion flag is set exactly where a badge was minted,
    /// and exactly where all five flags are set; no user has two badges for
    /// one quest.
    pub closed spec fn wf(&self) -> bool {
        &&& self.progress.wf()
        &&& self.completions.wf()
        &&& forall|id: u64| #[trigger]
            self.quests().contains_key(id) ==> quest_valid(self.quests()[id])
        &&& forall|user: Seq<u8>, quest_id: u64|
            (#[trigger] self.progress_of(user, quest_id)).len() == SUB_QUESTIONS
        &&& forall|user: Seq<u8>, quest_id: u64|
            (#[trigger] self.stored_progress(user, quest_id)) is Some ==> self.quests().contains_key(
                quest_id,
            )
        &&& self.token_count == self.badges@.len()
        &&& forall|i: int|
            0 <= i < self.badges@.len() ==> (#[trigger] self.badges@[i]).token_id == i + 1
        &&& forall|user: Seq<u8>, quest_id: u64| #[trigger]
            self.completed(user, quest_id) <==> self.has_badge(user, quest_id)
        &&& forall|user: Seq<u8>, quest_id: u64| #[trigger]
            self.completed(user, quest_id) <==> all_answered(self.progress_of(user, quest_id))
        &&& forall|i: int, j: int|
            0 <= i < self.badges@.len() && 0 <= j < self.badges@.len() && (
            #[trigger] self.badges@[i]).badge.owner@ == (#[trigger] self.badges@[j]).badge.owner@
                && self.badges@[i].badge.quest_id == self.badges@[j].badge.quest_id ==> i == j
    }

    /// The account that may add quests.
    pub fn get_owner(&self) -> (owner: &Address)
        ensures
            owner@ == self.owner(),
    {
        &self.owner
    }

    /// The token id given out last; zero before the first badge.
    pub fn get_token_count(&self) -> (count: u64)
        ensures
            count == self.token_count(),
    {
        self.token_count
    }
}

/// Sets the engine up: no quests, no progress, no badges. The owner is the
/// one that the message names, or else the caller.
pub fn instantiate(info: MessageInfo, msg: InstantiateMsg) -> (state: State)
    ensures
        state.wf(),
        state.owner() == (match msg.owner {
            Some(owner) => owner@,
            None => info.sender@,
        }),
        state.token_count() == 0,
        state.quests() == Map::<u64, Seq<SubQuestionView>>::empty(),
        state.minted() == Seq::<Minted>::empty(),
        forall|user: Seq<u8>, quest_id: u64| !#[trigger] state.completed(user, quest_id),
        forall|user: Seq<u8>, quest_id: u64| #[trigger]
            state.stored_progress(user, quest_id) is None,
{
    let owner = match msg.owner {
        Some(owner) => owner,
        None => info.sender,
    };
    let state = State {
        owner,
        token_count: 0,
        quests: HashMap::new(),
        progress: UserQuestTable::new(),
        completions: UserQuestTable::new(),
        badges: Vec::new(),
    };
    assert forall|user: Seq<u8>, quest_id: u64| !#[trigger] all_answered(
        state.progress_of(user, quest_id),
    ) by {
        assert(!no_progress()[0]);
    }
    state
}

/// The owner, the token counter, the badges, and every user's progress and
/// completion flags are the same in both states.
pub open spec fn same_records(before: State, after: State) -> bool {
    &&& after.owner() == before.owner()
    &&& after.token_count() == before.token_count()
    &&& after.minted() == before.minted()
    &&& forall|user: Seq<u8>, quest_id: u64| #[trigger]
        after.completed(user, quest_id) == before.completed(user, quest_id)
    &&& forall|user: Seq<u8>, quest_id: u64| #[trigger]
        after.stored_progress(user, quest_id) == before.stored_progress(user, quest_id)
}

/// What a request to add a quest does: on success the generated quest is
/// recorded under its id and nothing else changes; on a rejection nothing
/// changes at all.
pub open spec fn add_quest_step(
    before: State,
    after: State,
    seed: Option<Seq<u8>>,
    sender: Seq<u8>,
    id: u64,
    symbol: Seq<char>,
    r: Result<(), QuestError>,
) -> bool {
    match add_quest_outcome(
        before.owner(),
        sender,
        before.quests().contains_key(id),
        seed,
        id,
        symbol,
    ) {
        Ok(quest) => r is Ok && after.quests() == before.quests().insert(id, quest)
            && same_records(before, after),
        Err(e) => r == Err::<(), QuestError>(e) && after == before,
    }
}

/// Adds a quest under an unused id, for the owner only. Its five
/// sub-questions are generated from the seed that the environment supplies.
pub fn try_add_quest(state: &mut State, env: Env, info: MessageInfo, id: u64, operation: String) -> (r:
    Result<(), QuestError>)
    requires
        old(state).wf(),
    ensures
        final(state).wf(),
        add_quest_step(*old(state), *final(state), env.seed(), info.sender@, id, operation@, r),
{
    let exists = state.quests.contains_key(&id);
    let seed = match &env.random {
        Some(s) => Some(s),
        None => None,
    };
    let quest = match decide_add_quest(
        &state.owner,
        &info.sender,
        exists,
        seed,
        id,
        operation.as_str(),
    ) {
        Ok(quest) => quest,
        Err(e) => {
            return Err(e);
        },
    };
    let ghost added = quest@;
    state.quests.insert(id, quest);
    proof {
        assert(state.quests() =~= old(state).quests().insert(id, added));
        assert(state.minted() == old(state).minted());
        assert forall|user: Seq<u8>, quest_id: u64|
            state.has_badge(user, quest_id) == old(state).has_badge(user, quest_id) by {}
        assert forall|user: Seq<u8>, quest_id: u64|
            state.progress_of(user, quest_id) == old(state).progress_of(user, quest_id) by {}
        assert forall|user: Seq<u8>, quest_id: u64|
            state.completed(user, quest_id) == old(state).completed(user, quest_id) by {}
        assert forall|user: Seq<u8>, quest_id: u64|
            (#[trigger] state.stored_progress(user, quest_id)) is Some implies state.quests().contains_key(
            quest_id,
        ) by {
            assert(old(state).stored_progress(user, quest_id) is Some);
        }
        assert forall|k: u64| #[trigger] state.quests().contains_key(k) implies quest_valid(
            state.quests()[k],
        ) by {
            if k != id {
                assert(old(state).quests().contains_key(k));
            }
        }
    }
    Ok(())
}

/// The quest recorded under an id, if there is one.
pub open spec fn quest_at(state: State, quest_id: u64) -> Option<Seq<SubQuestionView>> {
    if state.quests().contains_key(quest_id) {
        Some(state.quests()[quest_id])
    } else {
        None
    }
}

/// What a submission does.
///
/// A rejected submission changes nothing. An accepted one sets the sender's
/// flag for the sub-question. If that makes five, the token counter goes up
/// by one, a badge for the sender and the quest is minted under the new token
/// id, and the sender's completion flag is set; otherwise counter, badges and
/// flag stay. Nothing of another user or another quest changes.
pub open spec fn submit_step(
    before: State,
    after: State,
    sender: Seq<u8>,
    quest_id: u64,
    index: u8,
    solution: u64,
    r: Result<(), QuestError>,
) -> bool {
    match submission_outcome(
        quest_at(before, quest_id),
        before.completed(sender, quest_id),
        before.progress_of(sender, quest_id),
        index,
        solution,
    ) {
        Err(e) => r == Err::<(), QuestError>(e) && after == before,
        Ok(_) => {
            let updated = before.progress_of(sender, quest_id).update(index as int, true);
            &&& r is Ok
            &&& after.owner() == before.owner()
            &&& after.quests() == before.quests()
            &&& after.stored_progress(sender, quest_id) == Some(updated)
            &&& forall|user: Seq<u8>, other: u64|
                (user, other) != (sender, quest_id) ==> #[trigger] after.stored_progress(
                    user,
                    other,
                ) == before.stored_progress(user, other)
            &&& forall|user: Seq<u8>, other: u64|
                (user, other) != (sender, quest_id) ==> #[trigger] after.completed(user, other)
                    == before.completed(user, other)
            &&& after.completed(sender, quest_id) == all_answered(updated)
            &&& if all_answered(updated) {
                &&& after.token_count() == before.token_count() + 1
                &&& after.minted().len() == before.minted().len() + 1
                &&& after.minted().drop_last() == before.minted()
                &&& after.minted().last().token_id == after.token_count()
                &&& after.minted().last().badge@ == (BadgeView {
                    owner: sender,
                    quest_id,
                    token_uri: token_uri_of(
                        before.quests()[quest_id][index as int].operation,
                        after.token_count(),
                    ),
                })
            } else {
                &&& after.token_count() == before.token_count()
                &&& after.minted() == before.minted()
            }
        },
    }
}

/// Takes a user's answer to one sub-question of a quest, and mints the badge
/// when it was the last one missing.
pub fn try_submit_solution(
    state: &mut State,
    _env: Env,
    info: MessageInfo,
    quest_id: u64,
    sub_question_index: u8,
    solution: u64,
) -> (r: Result<(), QuestError>)
    requires
        old(state).wf(),
        old(state).token_count() < u64::MAX,
    ensures
        final(state).wf(),
        submit_step(
            *old(state),
            *final(state),
            info.sender@,
            quest_id,
            sub_question_index,
            solution,
            r,
        ),
{
    let ghost sender = info.sender@;
    let ghost key = (sender, quest_id);
    assert(state.progress_of(sender, quest_id).len() == SUB_QUESTIONS);
    assert(state.quests().contains_key(quest_id) ==> quest_valid(state.quests()[quest_id]));
    let completed = state.completions.get(&info.sender, quest_id).is_some();
    let decision = decide_submission(
        state.quests.get(&quest_id),
        completed,
        state.progress.get(&info.sender, quest_id),
        state.token_count,
        &info.sender,
        quest_id,
        sub_question_index,
        solution,
    );
    let written = match decision {
        Ok(written) => written,
        Err(e) => {
            return Err(e);
        },
    };
    let Submission { progress, minted } = written;
    let ghost updated = progress@;
    state.progress.set(&info.sender, quest_id, progress);
    match minted {
        Some(badge) => {
            state.token_count = badge.token_id;
            state.badges.push(badge);
            state.completions.set(&info.sender, quest_id, true);
        },
        None => {},
    }
    proof {
        // Before the call the sender had neither the flag nor a badge.
        assert(!old(state).completed(sender, quest_id));
        assert(!old(state).has_badge(sender, quest_id));
        // Nothing of another user or another quest has changed.
        assert forall|user: Seq<u8>, other: u64| (user, other) != key implies #[trigger]
            state.progress_of(user, other) == old(state).progress_of(user, other) by {}
        assert forall|user: Seq<u8>, other: u64| (user, other) != key implies #[trigger]
            state.completed(user, other) == old(state).completed(user, other) by {}
        assert forall|user: Seq<u8>, other: u64| (user, other) != key implies #[trigger]
            state.stored_progress(user, other) == old(state).stored_progress(user, other) by {}
        assert(state.quests() == old(state).quests());
        assert(state.stored_progress(sender, quest_id) == Some(updated));
        assert(state.completed(sender, quest_id) == all_answered(updated));
        if all_answered(updated) {
            // The new badge is the sender's first for this quest, and the
            // badges before it are as they were.
            let n = old(state).badges@.len() as int;
            assert(state.badges@.drop_last() =~= old(state).badges@);
            assert(state.minted()[n].badge.owner@ == sender);
            assert(state.has_badge(sender, quest_id));
            assert forall|user: Seq<u8>, other: u64| (user, other) != key implies #[trigger]
                state.has_badge(user, other) == old(state).has_badge(user, other) by {
                if old(state).has_badge(user, other) {
                    let i = choose|i: int|
                        0 <= i < old(state).minted().len() && (#[trigger] old(
                            state,
                        ).minted()[i]).badge.owner@ == user && old(
                            state,
                        ).minted()[i].badge.quest_id == other;
                    assert(state.minted()[i] == old(state).minted()[i]);
                }
                if state.has_badge(user, other) {
                    let i = choose|i: int|
                        0 <= i < state.minted().len() && (
                        #[trigger] state.minted()[i]).badge.owner@ == user
                            && state.minted()[i].badge.quest_id == other;
                    assert(i < n);
                    assert(state.minted()[i] == old(state).minted()[i]);
                }
            }
            assert forall|i: int, j: int|
                0 <= i < state.badges@.len() && 0 <= j < state.badges@.len() && (
                #[trigger] state.badges@[i]).badge.owner@ == (
                #[trigger] state.badges@[j]).badge.owner@ && state.badges@[i].badge.quest_id
                    == state.badges@[j].badge.quest_id implies i == j by {
                if i < n {
                    assert(state.badges@[i] == old(state).minted()[i]);
                }
                if j < n {
                    assert(state.badges@[j] == old(state).minted()[j]);
                }
            }
        } else {
            assert(state.minted() == old(state).minted());
            assert forall|user: Seq<u8>, other: u64|
                state.has_badge(user, other) == old(state).has_badge(user, other) by {}
        }
        // So flags, badges and progress still go together, for the sender
        // as for everyone else.
        assert forall|user: Seq<u8>, other: u64| #[trigger]
            state.completed(user, other) <==> state.has_badge(user, other) by {
            if (user, other) != key {
                assert(state.has_badge(user, other) == old(state).has_badge(user, other));
            }
        }
        assert forall|user: Seq<u8>, other: u64| #[trigger]
            state.completed(user, other) <==> all_answered(state.progress_of(user, other)) by {
            if (user, other) != key {
                assert(state.progress_of(user, other) == old(state).progress_of(user, other));
            }
        }
        assert forall|user: Seq<u8>, other: u64|
            (#[trigger] state.progress_of(user, other)).len() == SUB_QUESTIONS by {
            if (user, other) != key {
                assert(state.progress_of(user, other) == old(state).progress_of(user, other));
            }
        }
    }
    Ok(())
}

/// What a call that changes the state does, by the kind of its message.
pub open spec fn execute_step(
    before: State,
    after: State,
    env: Env,
    info: MessageInfo,
    msg: ExecuteMsg,
    r: Result<(), QuestError>,
) -> bool {
    match msg {
        ExecuteMsg::AddQuest { id, operation } => add_quest_step(
            before,
            after,
            env.seed(),
            info.sender@,
            id,
            operation@,
            r,
        ),
        ExecuteMsg::SubmitSolution { quest_id, sub_question_index, solution } => submit_step(
            before,
            after,
            info.sender@,
            quest_id,
            sub_question_index,
            solution,
            r,
        ),
    }
}

/// Performs a call that changes the state.
pub fn execute(state: &mut State, env: Env, info: MessageInfo, msg: ExecuteMsg) -> (r: Result<(), QuestError>)
    requires
        old(state).wf(),
        msg is SubmitSolution ==> old(state).token_count() < u64::MAX,
    ensures
        final(state).wf(),
        execute_step(*old(state), *final(state), env, info, msg, r),
{
    match msg {
        ExecuteMsg::AddQuest { id, operation } => try_add_quest(state, env, info, id, operation),
        ExecuteMsg::SubmitSolution { quest_id, sub_question_index, solution } => {
            try_submit_solution(state, env, info, quest_id, sub_question_index, solution)
        },
    }
}

/// Answers a query for a quest: one sub-question where an index is given,
/// all five where none is, always without the answers.
pub fn query_quest(state: &State, id: u64, sub_question_index: Option<u8>) -> (r: Result<QueryAnswer, QuestError>)
    requires
        state.wf(),
    ensures
        match quest_answer_of(quest_at(*state, id), sub_question_index) {
            Ok(answer) => r is Ok && r.unwrap()@ == answer,
            Err(e) => r is Err && r.unwrap_err() == e,
        },
{
    quest_answer(state.quests.get(&id), sub_question_index)
}

/// Answers a query for a user's badges: the token ids of the badges that the
/// user owns, in ascending order.
pub fn query_user_badges(state: &State, user: &Address) -> (r: Result<QueryAnswer, QuestError>)
    requires
        state.wf(),
    ensures
        r is Ok,
        r.unwrap()@ == (QueryAnswerView {
            badges: Some(tokens_owned(state.minted(), user@)),
            ..empty_answer()
        }),
{
    Ok(badges_answer(owned_tokens(&state.badges, user)))
}

/// Answers a query for a user's progress in a quest.
pub fn query_user_progress(state: &State, user: &Address, quest_id: u64) -> (r: Result<QueryAnswer, QuestError>)
    requires
        state.wf(),
    ensures
        r is Ok,
        r.unwrap()@ == (QueryAnswerView {
            progress: Some(state.progress_of(user@, quest_id)),
            ..empty_answer()
        }),
{
    Ok(progress_answer(state.progress.get(user, quest_id)))
}

/// The answer that a query gets in a state.
pub open spec fn query_result(state: State, msg: QueryMsg) -> Result<QueryAnswerView, QuestError> {
    match msg {
        QueryMsg::GetQuest { id, sub_question_index } => quest_answer_of(
            quest_at(state, id),
            sub_question_index,
        ),
        QueryMsg::GetUserBadges { user } => Ok(
            QueryAnswerView { badges: Some(tokens_owned(state.minted(), user@)), ..empty_answer() },
        ),
        QueryMsg::GetUserProgress { user, quest_id } => Ok(
            QueryAnswerView {
                progress: Some(state.progress_of(user@, quest_id)),
                ..empty_answer()
            },
        ),
    }
}

/// Answers a query. The state is only read.
pub fn query(state: &State, _env: Env, msg: QueryMsg) -> (r: Result<QueryAnswer, QuestError>)
    requires
        state.wf(),
    ensures
        match query_result(*state, msg) {
            Ok(answer) => r is Ok && r.unwrap()@ == answer,
            Err(e) => r is Err && r.unwrap_err() == e,
        },
{
    match msg {
        QueryMsg::GetQuest { id, sub_question_index } => query_quest(state, id, sub_question_index),
        QueryMsg::GetUserBadges { user } => query_user_badges(state, &user),
        QueryMsg::GetUserProgress { user, quest_id } => query_user_progress(state, &user, quest_id),
    }
}

/// Progress only grows: a flag that is set before a call is set after it,
/// whatever the call was and however it ended.
pub proof fn progress_is_monotonic(
    before: State,
    after: State,
    env: Env,
    info: MessageInfo,
    msg: ExecuteMsg,
    r: Result<(), QuestError>,
    user: Seq<u8>,
    quest_id: u64,
    index: int,
)
    requires
        before.wf(),
        execute_step(before, after, env, info, msg, r),
        0 <= index < SUB_QUESTIONS,
        before.progress_of(user, quest_id)[index],
    ensures
        after.progress_of(user, quest_id)[index],
{
    match msg {
        ExecuteMsg::AddQuest { id, operation } => {},
        ExecuteMsg::SubmitSolution { quest_id: target, sub_question_index, solution } => {
            if r is Ok && (user, quest_id) != (info.sender@, target) {
                assert(after.stored_progress(user, quest_id) == before.stored_progress(
                    user,
                    quest_id,
                ));
            }
        },
    }
}

/// A completion flag and a badge come together: in every state that the
/// engine can reach, a user's flag for a quest is set exactly if a badge was
/// minted for that user and quest, and exactly if all five of the user's
/// flags for the quest are set.
pub proof fn badge_comes_with_completion(state: State, user: Seq<u8>, quest_id: u64)
    requires
        state.wf(),
    ensures
        state.completed(user, quest_id) <==> state.has_badge(user, quest_id),
        state.completed(user, quest_id) <==> all_answered(state.progress_of(user, quest_id)),
        state.progress_of(user, quest_id).len() == SUB_QUESTIONS,
        state.completed(user, quest_id) ==> state.quests().contains_key(quest_id),
{
    if state.completed(user, quest_id) {
        assert(!no_progress()[0]);
    }
}

/// No user has two badges for one quest, and the badges are numbered from 1
/// in the order of minting, up to the token counter.
pub proof fn at_most_one_badge(state: State, i: int, j: int)
    requires
        state.wf(),
        0 <= i < state.minted().len(),
        0 <= j < state.minted().len(),
    ensures
        state.minted()[i].badge.owner@ == state.minted()[j].badge.owner@
            && state.minted()[i].badge.quest_id == state.minted()[j].badge.quest_id ==> i == j,
        state.minted()[i].token_id == i + 1,
        state.token_count() == state.minted().len(),
{
}

/// A call mints at most one badge, and only an accepted submission that sets
/// the last missing flag mints one: for the sender and the quest of the call.
pub proof fn badge_only_on_completion(
    before: State,
    after: State,
    env: Env,
    info: MessageInfo,
    msg: ExecuteMsg,
    r: Result<(), QuestError>,
)
    requires
        before.wf(),
        execute_step(before, after, env, info, msg, r),
    ensures
        after.minted() == before.minted() || (after.minted().len() == before.minted().len() + 1
            && after.minted().drop_last() == before.minted()),
        after.minted() != before.minted() ==> r is Ok && msg is SubmitSolution
            && !before.completed(info.sender@, msg->quest_id) && after.completed(
            info.sender@,
            msg->quest_id,
        ) && after.minted().last().badge.owner@ == info.sender@
            && after.minted().last().badge.quest_id == msg->quest_id,
{
}

/// An answer to a sub-question that the sender has already answered, in a
/// quest not yet completed, is rejected as already answered, whether it is
/// correct or not, and changes nothing.
pub proof fn repeated_answer_is_rejected(
    before: State,
    after: State,
    sender: Seq<u8>,
    quest_id: u64,
    index: u8,
    solution: u64,
    r: Result<(), QuestError>,
)
    requires
        before.wf(),
        submit_step(before, after, sender, quest_id, index, solution, r),
        index < SUB_QUESTIONS,
        before.progress_of(sender, quest_id)[index as int],
        !before.completed(sender, quest_id),
    ensures
        r == Err::<(), QuestError>(QuestError::AlreadyAnswered),
        after == before,
{
}

/// A submission to a quest that the sender has completed is rejected as
/// already completed, for each of the five sub-questions and whatever the
/// solution, and changes nothing.
pub proof fn submission_after_completion_is_rejected(
    before: State,
    after: State,
    sender: Seq<u8>,
    quest_id: u64,
    index: u8,
    solution: u64,
    r: Result<(), QuestError>,
)
    requires
        before.wf(),
        submit_step(before, after, sender, quest_id, index, solution, r),
        index < SUB_QUESTIONS,
        before.completed(sender, quest_id),
    ensures
        r == Err::<(), QuestError>(QuestError::AlreadyCompleted),
        after == before,
{
    badge_comes_with_completion(before, sender, quest_id);
}

/// Every recorded quest is valid: five sub-questions, each with the exact
/// answer, no subtraction below zero, and no division with a remainder or by
/// zero.
pub proof fn recorded_quests_are_valid(state: State, quest_id: u64)
    requires
        state.wf(),
        state.quests().contains_key(quest_id),
    ensures
        quest_valid(state.quests()[quest_id]),
{
}

/// What is recorded stays: no call changes the owner or a quest that exists,
/// lowers the token counter, or takes a completion flag back.
pub proof fn records_are_kept(
    before: State,
    after: State,
    env: Env,
    info: MessageInfo,
    msg: ExecuteMsg,
    r: Result<(), QuestError>,
    user: Seq<u8>,
    quest_id: u64,
)
    requires
        before.wf(),
        execute_step(before, after, env, info, msg, r),
    ensures
        after.owner() == before.owner(),
        after.token_count() >= before.token_count(),
        before.quests().contains_key(quest_id) ==> after.quests().contains_key(quest_id)
            && after.quests()[quest_id] == before.quests()[quest_id],
        before.completed(user, quest_id) ==> after.completed(user, quest_id),
{
    match msg {
        ExecuteMsg::AddQuest { id, operation } => {},
        ExecuteMsg::SubmitSolution { quest_id: target, sub_question_index, solution } => {
            if r is Ok && before.completed(user, quest_id) {
                assert((user, quest_id) != (info.sender@, target));
            }
        },
    }
}

} // verus!
