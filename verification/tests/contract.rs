use math_quest::contract::{execute, instantiate, query, try_add_quest, try_submit_solution, State};
use math_quest::error::QuestError;
use math_quest::msg::{Env, ExecuteMsg, InstantiateMsg, MessageInfo, QueryAnswer, QueryMsg, SubQuestionAnswer};
use math_quest::state::Address;

fn mock_info(sender: &str) -> MessageInfo {
    MessageInfo { sender: Address::from_text(sender) }
}

fn mock_env() -> Env {
    Env { random: None }
}

fn seeded_env() -> Env {
    Env { random: Some(vec![1, 2, 3, 4]) }
}

fn with_quest(operation: &str) -> State {
    let info = mock_info("creator");
    let mut state = instantiate(info.clone(), InstantiateMsg { owner: None });
    let add_msg = ExecuteMsg::AddQuest { id: 1, operation: operation.to_string() };
    execute(&mut state, seeded_env(), info, add_msg).unwrap();
    state
}

fn operands(state: &State, id: u64, idx: u8) -> (u64, u64) {
    let msg = QueryMsg::GetQuest { id, sub_question_index: Some(idx) };
    let answer = query(state, mock_env(), msg).unwrap();
    (answer.a.unwrap(), answer.b.unwrap())
}

fn submit(state: &mut State, sender: &str, quest_id: u64, idx: u8, solution: u64) -> Result<(), QuestError> {
    let msg = ExecuteMsg::SubmitSolution { quest_id, sub_question_index: idx, solution };
    execute(state, seeded_env(), mock_info(sender), msg)
}

fn badges_of(state: &State, user: &str) -> Vec<u64> {
    let msg = QueryMsg::GetUserBadges { user: Address::from_text(user) };
    query(state, mock_env(), msg).unwrap().badges.unwrap()
}

fn progress_of(state: &State, user: &str, quest_id: u64) -> Vec<bool> {
    let msg = QueryMsg::GetUserProgress { user: Address::from_text(user), quest_id };
    query(state, mock_env(), msg).unwrap().progress.unwrap()
}

const ADDITION_ANSWERS: [u64; 5] = [142, 53, 164, 58, 11];

#[test]
fn proper_initialization() {
    let info = mock_info("creator");
    let init_msg = InstantiateMsg { owner: None };

    let state = instantiate(info.clone(), init_msg);
    assert_eq!(0, state.get_token_count());

    let owner = state.get_owner();
    assert_eq!(owner, &info.sender);
}

#[test]
fn add_quest() {
    let info = mock_info("creator");
    let init_msg = InstantiateMsg { owner: None };
    let mut state = instantiate(info.clone(), init_msg);

    let env = Env { random: Some(vec![1, 2, 3, 4]) };
    let exec_msg = ExecuteMsg::AddQuest { id: 1, operation: "+".to_string() };
    let _res = execute(&mut state, env, info.clone(), exec_msg).unwrap();

    let value: QueryAnswer =
        query(&state, mock_env(), QueryMsg::GetQuest { id: 1, sub_question_index: Some(0) }).unwrap();
    assert_eq!(value.operation, Some("+".to_string()));
    assert!(value.a.is_some());
    assert!(value.b.is_some());
}

#[test]
fn submit_solution() {
    let info = mock_info("creator");
    let init_msg = InstantiateMsg { owner: None };
    let mut state = instantiate(info.clone(), init_msg);

    let env = Env { random: Some(vec![1, 2, 3, 4]) };
    let add_msg = ExecuteMsg::AddQuest { id: 1, operation: "+".to_string() };
    execute(&mut state, env.clone(), info.clone(), add_msg).unwrap();

    let user_info = mock_info("user");

    // Submit solutions for all 5 sub-questions
    for idx in 0..5 {
        let quest: QueryAnswer =
            query(&state, env.clone(), QueryMsg::GetQuest { id: 1, sub_question_index: Some(idx) }).unwrap();
        let correct_answer = quest.a.unwrap() + quest.b.unwrap();

        let exec_msg = ExecuteMsg::SubmitSolution { quest_id: 1, sub_question_index: idx, solution: correct_answer };
        let _res = execute(&mut state, env.clone(), user_info.clone(), exec_msg).unwrap();
    }

    let value: QueryAnswer =
        query(&state, mock_env(), QueryMsg::GetUserBadges { user: user_info.sender }).unwrap();
    assert_eq!(value.badges, Some(vec![1]));
}

#[test]
fn user_progress() {
    let info = mock_info("creator");
    let init_msg = InstantiateMsg { owner: None };
    let mut state = instantiate(info.clone(), init_msg);

    let env = Env { random: Some(vec![1, 2, 3, 4]) };
    let add_msg = ExecuteMsg::AddQuest { id: 1, operation: "+".to_string() };
    execute(&mut state, env.clone(), info.clone(), add_msg).unwrap();

    let user_info = mock_info("user");

    // Submit solutions for first 2 sub questions
    for idx in 0..2 {
        let quest: QueryAnswer =
            query(&state, env.clone(), QueryMsg::GetQuest { id: 1, sub_question_index: Some(idx) }).unwrap();
        let correct_answer = quest.a.unwrap() + quest.b.unwrap();

        let exec_msg = ExecuteMsg::SubmitSolution { quest_id: 1, sub_question_index: idx, solution: correct_answer };
        execute(&mut state, env.clone(), user_info.clone(), exec_msg).unwrap();
    }

    // Check user progress
    let value: QueryAnswer =
        query(&state, env.clone(), QueryMsg::GetUserProgress { user: user_info.sender, quest_id: 1 }).unwrap();
    assert_eq!(value.progress, Some(vec![true, true, false, false, false]));
}

#[test]
fn instantiate_with_named_owner() {
    let init_msg = InstantiateMsg { owner: Some(Address::from_text("owner")) };
    let mut state = instantiate(mock_info("creator"), init_msg);
    assert_eq!(state.get_owner(), &Address::from_text("owner"));

    let add = ExecuteMsg::AddQuest { id: 1, operation: "+".to_string() };
    assert_eq!(execute(&mut state, seeded_env(), mock_info("creator"), add.clone()), Err(QuestError::Unauthorized));
    assert_eq!(execute(&mut state, seeded_env(), mock_info("owner"), add), Ok(()));
}

#[test]
fn fresh_state_answers_queries() {
    let state = instantiate(mock_info("creator"), InstantiateMsg { owner: None });
    assert_eq!(badges_of(&state, "user"), Vec::<u64>::new());
    assert_eq!(progress_of(&state, "user", 1), vec![false; 5]);
    let msg = QueryMsg::GetQuest { id: 1, sub_question_index: None };
    assert_eq!(query(&state, mock_env(), msg), Err(QuestError::QuestNotFound));
}

#[test]
fn first_answer_then_repeat() {
    let mut state = with_quest("+");
    let (a, b) = operands(&state, 1, 0);
    assert_eq!((a, b), (46, 96));
    assert_eq!(submit(&mut state, "user", 1, 0, a + b), Ok(()));
    assert_eq!(progress_of(&state, "user", 1), vec![true, false, false, false, false]);
    assert_eq!(submit(&mut state, "user", 1, 0, a + b), Err(QuestError::AlreadyAnswered));
    assert_eq!(submit(&mut state, "user", 1, 0, a + b + 1), Err(QuestError::AlreadyAnswered));
    assert_eq!(progress_of(&state, "user", 1), vec![true, false, false, false, false]);
}

#[test]
fn completion_mints_one_badge() {
    let mut state = with_quest("+");
    for idx in 0..5u8 {
        assert_eq!(badges_of(&state, "user"), Vec::<u64>::new());
        let (a, b) = operands(&state, 1, idx);
        assert_eq!(submit(&mut state, "user", 1, idx, a + b), Ok(()));
    }
    assert_eq!(badges_of(&state, "user"), vec![1]);
    assert_eq!(progress_of(&state, "user", 1), vec![true, true, true, true, true]);
    assert_eq!(state.get_token_count(), 1);
    assert_eq!(badges_of(&state, "creator"), Vec::<u64>::new());
}

#[test]
fn submission_after_completion() {
    let mut state = with_quest("+");
    for idx in 0..5u8 {
        submit(&mut state, "user", 1, idx, ADDITION_ANSWERS[idx as usize]).unwrap();
    }
    for idx in 0..5u8 {
        let again = submit(&mut state, "user", 1, idx, ADDITION_ANSWERS[idx as usize]);
        assert_eq!(again, Err(QuestError::AlreadyCompleted));
        assert_eq!(submit(&mut state, "user", 1, idx, 0), Err(QuestError::AlreadyCompleted));
    }
    assert_eq!(submit(&mut state, "user", 1, 5, 0), Err(QuestError::IndexOutOfRange));
    assert_eq!(badges_of(&state, "user"), vec![1]);
    assert_eq!(state.get_token_count(), 1);
}

#[test]
fn answers_in_any_order() {
    let mut state = with_quest("+");
    for idx in [3u8, 0, 4, 1] {
        submit(&mut state, "user", 1, idx, ADDITION_ANSWERS[idx as usize]).unwrap();
    }
    assert_eq!(progress_of(&state, "user", 1), vec![true, true, false, true, true]);
    assert_eq!(badges_of(&state, "user"), Vec::<u64>::new());
    submit(&mut state, "user", 1, 2, ADDITION_ANSWERS[2]).unwrap();
    assert_eq!(badges_of(&state, "user"), vec![1]);
}

#[test]
fn unknown_operation_creates_no_quest() {
    let info = mock_info("creator");
    let mut state = instantiate(info.clone(), InstantiateMsg { owner: None });
    let add = ExecuteMsg::AddQuest { id: 1, operation: "%".to_string() };
    assert_eq!(execute(&mut state, seeded_env(), info, add), Err(QuestError::InvalidOperation));
    let msg = QueryMsg::GetQuest { id: 1, sub_question_index: None };
    assert_eq!(query(&state, mock_env(), msg), Err(QuestError::QuestNotFound));
}

#[test]
fn non_owner_cannot_add_quest() {
    let mut state = instantiate(mock_info("creator"), InstantiateMsg { owner: None });
    let add = ExecuteMsg::AddQuest { id: 1, operation: "+".to_string() };
    assert_eq!(execute(&mut state, seeded_env(), mock_info("user"), add), Err(QuestError::Unauthorized));
    let msg = QueryMsg::GetQuest { id: 1, sub_question_index: Some(0) };
    assert_eq!(query(&state, mock_env(), msg), Err(QuestError::QuestNotFound));
}

#[test]
fn duplicate_quest_id() {
    let mut state = with_quest("+");
    let before = query(&state, mock_env(), QueryMsg::GetQuest { id: 1, sub_question_index: None });
    let again = try_add_quest(&mut state, seeded_env(), mock_info("creator"), 1, "*".to_string());
    assert_eq!(again, Err(QuestError::DuplicateQuest));
    let after = query(&state, mock_env(), QueryMsg::GetQuest { id: 1, sub_question_index: None });
    assert_eq!(before, after);
}

#[test]
fn missing_randomness() {
    let info = mock_info("creator");
    let mut state = instantiate(info.clone(), InstantiateMsg { owner: None });
    let r = try_add_quest(&mut state, mock_env(), info, 1, "+".to_string());
    assert_eq!(r, Err(QuestError::RandomnessUnavailable));
    let msg = QueryMsg::GetQuest { id: 1, sub_question_index: None };
    assert_eq!(query(&state, mock_env(), msg), Err(QuestError::QuestNotFound));
}

#[test]
fn add_quest_checks_in_order() {
    let mut state = with_quest("+");
    // Not the owner, although the id is taken, the seed missing and the symbol unknown.
    let r = try_add_quest(&mut state, mock_env(), mock_info("user"), 1, "%".to_string());
    assert_eq!(r, Err(QuestError::Unauthorized));
    // The id is taken, although the seed is missing and the symbol unknown.
    let r = try_add_quest(&mut state, mock_env(), mock_info("creator"), 1, "%".to_string());
    assert_eq!(r, Err(QuestError::DuplicateQuest));
    // The seed is missing, although the symbol is unknown.
    let r = try_add_quest(&mut state, mock_env(), mock_info("creator"), 2, "%".to_string());
    assert_eq!(r, Err(QuestError::RandomnessUnavailable));
    let r = try_add_quest(&mut state, seeded_env(), mock_info("creator"), 2, "%".to_string());
    assert_eq!(r, Err(QuestError::InvalidOperation));
}

#[test]
fn submission_checks_in_order() {
    let mut state = with_quest("+");
    let user = mock_info("user");
    let r = try_submit_solution(&mut state, mock_env(), user.clone(), 2, 9, 0);
    assert_eq!(r, Err(QuestError::QuestNotFound));
    let r = try_submit_solution(&mut state, mock_env(), user.clone(), 1, 5, 142);
    assert_eq!(r, Err(QuestError::IndexOutOfRange));
    let r = try_submit_solution(&mut state, mock_env(), user.clone(), 1, 255, 142);
    assert_eq!(r, Err(QuestError::IndexOutOfRange));
    let r = try_submit_solution(&mut state, mock_env(), user.clone(), 1, 0, 141);
    assert_eq!(r, Err(QuestError::IncorrectSolution));
    assert_eq!(progress_of(&state, "user", 1), vec![false; 5]);
    let r = try_submit_solution(&mut state, mock_env(), user.clone(), 1, 0, 142);
    assert_eq!(r, Ok(()));
    let r = try_submit_solution(&mut state, mock_env(), user, 1, 0, 141);
    assert_eq!(r, Err(QuestError::AlreadyAnswered));
}

#[test]
fn users_and_quests_are_kept_apart() {
    let mut state = with_quest("+");
    let add = ExecuteMsg::AddQuest { id: 2, operation: "-".to_string() };
    execute(&mut state, seeded_env(), mock_info("creator"), add).unwrap();
    let subtraction: [u64; 5] = [14, 8, 28, 67, 16];
    let quest = query(&state, mock_env(), QueryMsg::GetQuest { id: 2, sub_question_index: None }).unwrap();
    let shown = quest.sub_questions.unwrap();
    assert_eq!(shown.len(), 5);
    for (q, answer) in shown.iter().zip(subtraction.iter()) {
        assert_eq!(q.operation, "-");
        assert_eq!(q.a - q.b, *answer);
    }

    submit(&mut state, "alice", 1, 0, ADDITION_ANSWERS[0]).unwrap();
    submit(&mut state, "bob", 2, 4, subtraction[4]).unwrap();
    assert_eq!(progress_of(&state, "alice", 1), vec![true, false, false, false, false]);
    assert_eq!(progress_of(&state, "alice", 2), vec![false; 5]);
    assert_eq!(progress_of(&state, "bob", 1), vec![false; 5]);
    assert_eq!(progress_of(&state, "bob", 2), vec![false, false, false, false, true]);

    for idx in 0..5u8 {
        submit(&mut state, "bob", 1, idx, ADDITION_ANSWERS[idx as usize]).unwrap();
    }
    for idx in 1..5u8 {
        submit(&mut state, "alice", 1, idx, ADDITION_ANSWERS[idx as usize]).unwrap();
    }
    for idx in 0..4u8 {
        submit(&mut state, "bob", 2, idx, subtraction[idx as usize]).unwrap();
    }
    assert_eq!(badges_of(&state, "bob"), vec![1, 3]);
    assert_eq!(badges_of(&state, "alice"), vec![2]);
    assert_eq!(state.get_token_count(), 3);
    assert_eq!(submit(&mut state, "alice", 2, 0, subtraction[0]), Ok(()));
    assert_eq!(submit(&mut state, "bob", 2, 0, subtraction[0]), Err(QuestError::AlreadyCompleted));
}

#[test]
fn quest_query_withholds_answers() {
    let state = with_quest("*");
    let all = query(&state, mock_env(), QueryMsg::GetQuest { id: 1, sub_question_index: None }).unwrap();
    let expected: Vec<SubQuestionAnswer> = [(84u64, 99u64), (13, 25), (70, 36), (47, 75), (60, 76)]
        .iter()
        .map(|(a, b)| SubQuestionAnswer { operation: "*".to_string(), a: *a, b: *b })
        .collect();
    assert_eq!(
        all,
        QueryAnswer {
            operation: None,
            a: None,
            b: None,
            badges: None,
            sub_questions: Some(expected),
            progress: None,
        }
    );
    let one = query(&state, mock_env(), QueryMsg::GetQuest { id: 1, sub_question_index: Some(4) }).unwrap();
    assert_eq!(
        one,
        QueryAnswer {
            operation: Some("*".to_string()),
            a: Some(60),
            b: Some(76),
            badges: None,
            sub_questions: None,
            progress: None,
        }
    );
    let msg = QueryMsg::GetQuest { id: 1, sub_question_index: Some(5) };
    assert_eq!(query(&state, mock_env(), msg), Err(QuestError::IndexOutOfRange));
    let msg = QueryMsg::GetQuest { id: 9, sub_question_index: Some(5) };
    assert_eq!(query(&state, mock_env(), msg), Err(QuestError::QuestNotFound));
}

#[test]
fn error_messages() {
    assert_eq!(QuestError::Unauthorized.message(), "Only the owner can add quests");
    assert_eq!(QuestError::DuplicateQuest.message(), "Quest ID already exists");
    assert_eq!(QuestError::QuestNotFound.message(), "Quest not found");
    assert_eq!(QuestError::IndexOutOfRange.message(), "Invalid sub-question index");
    assert_eq!(QuestError::AlreadyCompleted.message(), "Quest already completed by user");
    assert_eq!(QuestError::AlreadyAnswered.message(), "Sub-question already answered");
    assert_eq!(QuestError::IncorrectSolution.message(), "Incorrect solution");
    assert_eq!(QuestError::InvalidOperation.message(), "Invalid operation");
    assert_eq!(QuestError::RandomnessUnavailable.message(), "No randomness available");
}
