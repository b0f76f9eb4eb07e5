use math_quest::engine::{
    copy_progress, decide_add_quest, decide_submission, fresh_progress, is_complete, Minted, Submission,
};
use math_quest::error::QuestError;
use math_quest::query::{badges_answer, owned_tokens, progress_answer, quest_answer};
use math_quest::state::{Address, Badge, Quest, SubQuestion};
use math_quest::store::UserQuestTable;

fn sample_quest() -> Quest {
    let sub = |a: u64, b: u64| SubQuestion { operation: "+".to_string(), a, b, answer: a + b };
    Quest { sub_questions: vec![sub(1, 2), sub(3, 4), sub(5, 6), sub(7, 8), sub(9, 10)] }
}

fn badge(owner: &str, quest_id: u64, token_id: u64) -> Minted {
    Minted {
        token_id,
        badge: Badge {
            owner: Address::from_text(owner),
            quest_id,
            token_uri: format!("ipfs://math_quest/+/{}", token_id),
        },
    }
}

#[test]
fn progress_helpers() {
    assert_eq!(fresh_progress(), vec![false, false, false, false, false]);
    let progress = vec![true, false, true, false, true];
    assert_eq!(copy_progress(&progress), progress);
    assert!(!is_complete(&progress));
    assert!(!is_complete(&fresh_progress()));
    assert!(is_complete(&vec![true; 5]));
    assert!(!is_complete(&vec![true, true, true, true, false]));
}

#[test]
fn decide_add_quest_generates_for_the_owner() {
    let owner = Address::from_text("creator");
    let seed = vec![1, 2, 3, 4];
    let quest = decide_add_quest(&owner, &owner, false, Some(&seed), 1, "+").unwrap();
    let triples: Vec<(u64, u64, u64)> = quest.sub_questions.iter().map(|q| (q.a, q.b, q.answer)).collect();
    assert_eq!(triples, vec![(46, 96, 142), (23, 30, 53), (64, 100, 164), (39, 19, 58), (9, 2, 11)]);
}

#[test]
fn decide_add_quest_rejections() {
    let owner = Address::from_text("creator");
    let other = Address::from_text("user");
    let seed = vec![1, 2, 3, 4];
    assert_eq!(decide_add_quest(&owner, &other, false, Some(&seed), 1, "+"), Err(QuestError::Unauthorized));
    assert_eq!(decide_add_quest(&owner, &owner, true, Some(&seed), 1, "+"), Err(QuestError::DuplicateQuest));
    assert_eq!(decide_add_quest(&owner, &owner, false, None, 1, "+"), Err(QuestError::RandomnessUnavailable));
    assert_eq!(decide_add_quest(&owner, &owner, false, Some(&seed), 1, "^"), Err(QuestError::InvalidOperation));
    assert_eq!(decide_add_quest(&owner, &other, true, None, 1, "^"), Err(QuestError::Unauthorized));
    assert_eq!(decide_add_quest(&owner, &owner, true, None, 1, "^"), Err(QuestError::DuplicateQuest));
    assert_eq!(decide_add_quest(&owner, &owner, false, None, 1, "^"), Err(QuestError::RandomnessUnavailable));
}

#[test]
fn decide_submission_first_answer() {
    let quest = sample_quest();
    let user = Address::from_text("user");
    let written = decide_submission(Some(&quest), false, None, 0, &user, 1, 2, 11).unwrap();
    assert_eq!(written, Submission { progress: vec![false, false, true, false, false], minted: None });
}

#[test]
fn decide_submission_last_answer_mints() {
    let quest = sample_quest();
    let user = Address::from_text("user");
    let stored = vec![true, true, true, false, true];
    let written = decide_submission(Some(&quest), false, Some(&stored), 41, &user, 9, 3, 15).unwrap();
    assert_eq!(written.progress, vec![true; 5]);
    let expected = Minted {
        token_id: 42,
        badge: Badge { owner: user, quest_id: 9, token_uri: "ipfs://math_quest/+/42".to_string() },
    };
    assert_eq!(written.minted, Some(expected));
}

#[test]
fn decide_submission_rejections() {
    let quest = sample_quest();
    let user = Address::from_text("user");
    let stored = vec![true, false, false, false, false];
    let decide = |quest: Option<&Quest>, completed: bool, index: u8, solution: u64| {
        decide_submission(quest, completed, Some(&stored), 0, &user, 1, index, solution)
    };
    assert_eq!(decide(None, true, 9, 0), Err(QuestError::QuestNotFound));
    assert_eq!(decide(Some(&quest), true, 5, 3), Err(QuestError::IndexOutOfRange));
    assert_eq!(decide(Some(&quest), true, 0, 3), Err(QuestError::AlreadyCompleted));
    assert_eq!(decide(Some(&quest), true, 1, 7), Err(QuestError::AlreadyCompleted));
    assert_eq!(decide(Some(&quest), false, 0, 3), Err(QuestError::AlreadyAnswered));
    assert_eq!(decide(Some(&quest), false, 0, 4), Err(QuestError::AlreadyAnswered));
    assert_eq!(decide(Some(&quest), false, 1, 8), Err(QuestError::IncorrectSolution));
    assert!(decide(Some(&quest), false, 1, 7).is_ok());
}

#[test]
fn quest_answer_shapes() {
    let quest = sample_quest();
    let one = quest_answer(Some(&quest), Some(1)).unwrap();
    assert_eq!(one.operation, Some("+".to_string()));
    assert_eq!((one.a, one.b), (Some(3), Some(4)));
    assert_eq!((one.badges, one.sub_questions, one.progress), (None, None, None));
    let all = quest_answer(Some(&quest), None).unwrap();
    assert_eq!((all.operation, all.a, all.b, all.badges, all.progress), (None, None, None, None, None));
    let shown: Vec<(String, u64, u64)> =
        all.sub_questions.unwrap().into_iter().map(|q| (q.operation, q.a, q.b)).collect();
    let plus = "+".to_string();
    assert_eq!(
        shown,
        vec![(plus.clone(), 1, 2), (plus.clone(), 3, 4), (plus.clone(), 5, 6), (plus.clone(), 7, 8), (plus, 9, 10)]
    );
    assert_eq!(quest_answer(None, None), Err(QuestError::QuestNotFound));
    assert_eq!(quest_answer(None, Some(0)), Err(QuestError::QuestNotFound));
    assert_eq!(quest_answer(Some(&quest), Some(5)), Err(QuestError::IndexOutOfRange));
}

#[test]
fn progress_answer_defaults_to_nothing_answered() {
    let answer = progress_answer(None);
    assert_eq!(answer.progress, Some(vec![false; 5]));
    assert_eq!((answer.operation, answer.a, answer.b, answer.badges, answer.sub_questions), (None, None, None, None, None));
    let stored = vec![false, true, false, false, true];
    assert_eq!(progress_answer(Some(&stored)).progress, Some(stored));
}

#[test]
fn owned_tokens_in_record_order() {
    let badges = vec![badge("alice", 1, 1), badge("bob", 1, 2), badge("alice", 2, 3), badge("carol", 7, 4)];
    assert_eq!(owned_tokens(&badges, &Address::from_text("alice")), vec![1, 3]);
    assert_eq!(owned_tokens(&badges, &Address::from_text("bob")), vec![2]);
    assert_eq!(owned_tokens(&badges, &Address::from_text("dave")), Vec::<u64>::new());
    assert_eq!(owned_tokens(&Vec::new(), &Address::from_text("alice")), Vec::<u64>::new());
    let answer = badges_answer(vec![1, 3]);
    assert_eq!(answer.badges, Some(vec![1, 3]));
    assert_eq!((answer.operation, answer.a, answer.b, answer.sub_questions, answer.progress), (None, None, None, None, None));
}

#[test]
fn table_keeps_one_value_per_user_and_quest() {
    let alice = Address::from_text("alice");
    let bob = Address::from_text("bob");
    let mut table: UserQuestTable<u64> = UserQuestTable::new();
    assert_eq!(table.get(&alice, 1), None);
    table.set(&alice, 1, 10);
    table.set(&bob, 1, 20);
    table.set(&alice, 2, 30);
    assert_eq!(table.get(&alice, 1), Some(&10));
    assert_eq!(table.get(&bob, 1), Some(&20));
    assert_eq!(table.get(&alice, 2), Some(&30));
    assert_eq!(table.get(&bob, 2), None);
    table.set(&alice, 1, 11);
    assert_eq!(table.get(&alice, 1), Some(&11));
    assert_eq!(table.get(&bob, 1), Some(&20));
    assert_eq!(table.get(&alice, 2), Some(&30));
}
