//! The puzzle generator: five sub-questions derived from a seed, reproducibly.

use crate::codec::{be_bytes, le_value, u64_from_le_bytes, u64_to_be_bytes};
use crate::digest::{sha256, sha256_digest};
use crate::error::QuestError;
use crate::state::{apply, operation_of, quest_valid, Operation, Quest, SubQuestion, SubQuestionView, SUB_QUESTIONS};
use vstd::prelude::*;
use vstd::string::StrSliceExecFns;
use vstd::utf8::encode_utf8;

verus! {

/// The operands that an operation gets from the two numbers drawn for it.
///
/// Addition and multiplication take both from 1 to 100; subtraction takes the
/// same two, larger first; division takes a divisor and a quotient from 1 to
/// 10 and their product as the dividend.
pub open spec fn operands(op: Operation, a_part: int, b_part: int) -> (int, int) {
    match op {
        Operation::Add | Operation::Mul => (a_part % 100 + 1, b_part % 100 + 1),
        Operation::Sub => {
            let a = a_part % 100 + 1;
            let b = b_part % 100 + 1;
            if a < b {
                (b, a)
            } else {
                (a, b)
            }
        },
        Operation::Div => {
            let b = b_part % 10 + 1;
            let k = a_part % 10 + 1;
            (b * k, b)
        },
    }
}

/// The sub-question that a digest yields for an operation symbol: none if the
/// symbol is not an operation. The first eight bytes of the digest, read
/// little-endian, give the first number drawn, the next eight the second.
pub open spec fn derived(symbol: Seq<char>, digest: Seq<u8>) -> Option<SubQuestionView> {
    match operation_of(symbol) {
        Some(op) => {
            let (a, b) = operands(op, le_value(digest, 0), le_value(digest, 8));
            Some(
                SubQuestionView {
                    operation: symbol,
                    a: a as u64,
                    b: b as u64,
                    answer: apply(op, a, b) as u64,
                },
            )
        },
        None => None,
    }
}

/// The bytes that are hashed for one position of a quest: the seed, the quest
/// id in big-endian, the symbol in UTF-8, and the position as one byte.
pub open spec fn position_seed(seed: Seq<u8>, quest_id: u64, symbol: Seq<char>, position: u8) -> Seq<u8> {
    seed + be_bytes(quest_id) + encode_utf8(symbol) + seq![position]
}

/// The sub-question at one position of a generated quest.
pub open spec fn generated_at(seed: Seq<u8>, quest_id: u64, symbol: Seq<char>, position: int) -> Option<
    SubQuestionView,
> {
    derived(symbol, sha256_digest(position_seed(seed, quest_id, symbol, position as u8)))
}

/// The quest generated from a seed, an id and a symbol: none if the symbol is
/// not an operation.
pub open spec fn generated(seed: Seq<u8>, quest_id: u64, symbol: Seq<char>) -> Option<Seq<SubQuestionView>> {
    if operation_of(symbol) is Some {
        Some(
            Seq::new(
                SUB_QUESTIONS as nat,
                |i: int| generated_at(seed, quest_id, symbol, i).unwrap(),
            ),
        )
    } else {
        None
    }
}

/// Whether `r` is the result of generating a quest: the generated quest, or
/// the rejection of a symbol that is no operation.
pub open spec fn generate_result(seed: Seq<u8>, quest_id: u64, symbol: Seq<char>, r: Result<Quest, QuestError>) -> bool {
    match generated(seed, quest_id, symbol) {
        Some(q) => r is Ok && r.unwrap()@ == q,
        None => r == Err::<Quest, QuestError>(QuestError::InvalidOperation),
    }
}

/// Reads an operation symbol.
pub fn parse_operation(symbol: &str) -> (op: Option<Operation>)
    ensures
        op == operation_of(symbol@),
{
    if symbol.unicode_len() != 1 {
        return None;
    }
    let c = symbol.get_char(0);
    if c == '+' {
        assert(symbol@ =~= seq!['+']);
        Some(Operation::Add)
    } else if c == '-' {
        assert(symbol@ =~= seq!['-']);
        Some(Operation::Sub)
    } else if c == '*' {
        assert(symbol@ =~= seq!['*']);
        Some(Operation::Mul)
    } else if c == '/' {
        assert(symbol@ =~= seq!['/']);
        Some(Operation::Div)
    } else {
        None
    }
}

/// Every derived sub-question is valid, and its operands are in range: from 1
/// to 100, and for a division a divisor and a quotient from 1 to 10.
pub proof fn derived_is_valid(symbol: Seq<char>, digest: Seq<u8>)
    requires
        operation_of(symbol) is Some,
    ensures
        derived(symbol, digest) is Some,
        derived(symbol, digest).unwrap().valid(),
        derived(symbol, digest).unwrap().operation == symbol,
        1 <= derived(symbol, digest).unwrap().a <= 100,
        1 <= derived(symbol, digest).unwrap().b <= 100,
        operation_of(symbol) == Some(Operation::Sub) ==> derived(symbol, digest).unwrap().a >= derived(
            symbol,
            digest,
        ).unwrap().b,
        operation_of(symbol) == Some(Operation::Div) ==> {
            let q = derived(symbol, digest).unwrap();
            q.b <= 10 && q.a % q.b == 0 && 1 <= q.answer <= 10 && q.a == q.b * q.answer
        },
{
    let op = operation_of(symbol).unwrap();
    let a_part = le_value(digest, 0);
    let b_part = le_value(digest, 8);
    let (a, b) = operands(op, a_part, b_part);
    if op == Operation::Div {
        let k = a_part % 10 + 1;
        assert(1 <= b * k <= 100) by (nonlinear_arith)
            requires
                1 <= b <= 10,
                1 <= k <= 10,
        ;
        assert((b * k) % b == 0 && (b * k) / b == k) by (nonlinear_arith)
            requires
                1 <= b,
        ;
    } else if op == Operation::Mul {
        assert(1 <= a * b <= 10000) by (nonlinear_arith)
            requires
                1 <= a <= 100,
                1 <= b <= 100,
        ;
    }
}

/// Derives one sub-question from the digest of its position seed.
pub fn sub_question_from_digest(operation: &str, digest: &[u8; 32]) -> (r: Result<SubQuestion, QuestError>)
    ensures
        match derived(operation@, digest@) {
            Some(q) => r is Ok && r.unwrap()@ == q,
            None => r == Err::<SubQuestion, QuestError>(QuestError::InvalidOperation),
        },
{
    let op = match parse_operation(operation) {
        Some(op) => op,
        None => {
            return Err(QuestError::InvalidOperation);
        },
    };
    proof {
        derived_is_valid(operation@, digest@);
    }
    let a_part: u64 = u64_from_le_bytes(digest.as_slice(), 0);
    let b_part: u64 = u64_from_le_bytes(digest.as_slice(), 8);
    let (a, b): (u64, u64) = match op {
        Operation::Add | Operation::Mul => (a_part % 100 + 1, b_part % 100 + 1),
        Operation::Sub => {
            let a: u64 = a_part % 100 + 1;
            let b: u64 = b_part % 100 + 1;
            if a < b {
                (b, a)
            } else {
                (a, b)
            }
        },
        Operation::Div => {
            let b: u64 = b_part % 10 + 1;
            let k: u64 = a_part % 10 + 1;
            assert(b * k <= 100) by (nonlinear_arith)
                requires
                    b <= 10,
                    k <= 10,
            ;
            (b * k, b)
        },
    };
    let answer: u64 = match op {
        Operation::Add => a + b,
        Operation::Sub => a - b,
        Operation::Mul => {
            assert(a * b <= 10000) by (nonlinear_arith)
                requires
                    a <= 100,
                    b <= 100,
            ;
            a * b
        },
        Operation::Div => a / b,
    };
    Ok(SubQuestion { operation: operation.to_owned(), a, b, answer })
}

/// Builds the bytes that are hashed for one position of a quest.
pub fn build_position_seed(seed: &[u8], quest_id: u64, operation: &str, position: u8) -> (out: Vec<u8>)
    ensures
        out@ == position_seed(seed@, quest_id, operation@, position),
{
    let mut out: Vec<u8> = Vec::new();
    out.extend_from_slice(seed);
    let id_bytes: [u8; 8] = u64_to_be_bytes(quest_id);
    out.extend_from_slice(id_bytes.as_slice());
    out.extend_from_slice(operation.as_bytes());
    out.push(position);
    out
}

/// Generates the five sub-questions of a quest.
///
/// Each position hashes its own seed with SHA-256 and derives its
/// sub-question from the digest. A symbol that is no operation is rejected.
pub fn generate(seed: &[u8], quest_id: u64, operation: &str) -> (r: Result<Quest, QuestError>)
    ensures
        generate_result(seed@, quest_id, operation@, r),
        r is Ok ==> quest_valid(r.unwrap()@),
{
    if parse_operation(operation).is_none() {
        return Err(QuestError::InvalidOperation);
    }
    let mut sub_questions: Vec<SubQuestion> = Vec::with_capacity(SUB_QUESTIONS);
    let mut i: u8 = 0;
    while i < 5
        invariant
            i <= 5,
            operation_of(operation@) is Some,
            sub_questions@.len() == i,
            forall|j: int|
                0 <= j < i ==> Some((#[trigger] sub_questions@[j])@) == generated_at(
                    seed@,
                    quest_id,
                    operation@,
                    j,
                ),
        decreases 5 - i,
    {
        let input = build_position_seed(seed, quest_id, operation, i);
        let digest = sha256(input.as_slice());
        match sub_question_from_digest(operation, &digest) {
            Ok(q) => {
                sub_questions.push(q);
            },
            Err(e) => {
                return Err(e);
            },
        }
        i += 1;
    }
    let quest = Quest { sub_questions };
    proof {
        let q = generated(seed@, quest_id, operation@).unwrap();
        assert(quest@ =~= q);
        generated_is_valid(seed@, quest_id, operation@);
    }
    Ok(quest)
}

/// Every generated quest is valid: five sub-questions, each with the exact
/// answer, no subtraction below zero, and no division with a remainder or by
/// zero.
pub proof fn generated_is_valid(seed: Seq<u8>, quest_id: u64, symbol: Seq<char>)
    requires
        operation_of(symbol) is Some,
    ensures
        generated(seed, quest_id, symbol) is Some,
        quest_valid(generated(seed, quest_id, symbol).unwrap()),
        forall|i: int|
            0 <= i < 5 ==> {
                let q = #[trigger] generated(seed, quest_id, symbol).unwrap()[i];
                &&& q.operation == symbol
                &&& operation_of(symbol) == Some(Operation::Sub) ==> q.a >= q.b
                &&& operation_of(symbol) == Some(Operation::Div) ==> q.b >= 1 && q.a % q.b == 0
            },
{
    let quest = generated(seed, quest_id, symbol).unwrap();
    assert forall|i: int| 0 <= i < 5 implies {
        let q = #[trigger] quest[i];
        &&& q.valid()
        &&& q.operation == symbol
        &&& operation_of(symbol) == Some(Operation::Sub) ==> q.a >= q.b
        &&& operation_of(symbol) == Some(Operation::Div) ==> q.b >= 1 && q.a % q.b == 0
    } by {
        derived_is_valid(
            symbol,
            sha256_digest(position_seed(seed, quest_id, symbol, i as u8)),
        );
    }
}

/// Generation is deterministic: two results for the same seed, id and symbol
/// are both the same rejection, or quests that agree in every field of every
/// sub-question.
pub proof fn generate_is_deterministic(
    seed: Seq<u8>,
    quest_id: u64,
    symbol: Seq<char>,
    first: Result<Quest, QuestError>,
    second: Result<Quest, QuestError>,
)
    requires
        generate_result(seed, quest_id, symbol, first),
        generate_result(seed, quest_id, symbol, second),
    ensures
        first is Ok <==> second is Ok,
        first is Ok ==> first.unwrap()@ == second.unwrap()@,
        first is Err ==> first == second,
{
}

} // verus!
