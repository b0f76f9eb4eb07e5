//! The records that the engine keeps: sub-questions, quests, identities and badges.

use vstd::prelude::*;
use vstd::string::{StrSliceExecFns, StringExecFns, StringSliceAdditionalSpecFns};

verus! {

/// How many sub-questions a quest has.
pub const SUB_QUESTIONS: usize = 5;

/// One of the four arithmetic operations.
#[derive(Clone, Copy, Debug, PartialEq, Eq, Structural)]
pub enum Operation {
    Add,
    Sub,
    Mul,
    Div,
}

/// The operation that a symbol stands for, if it stands for one.
pub open spec fn operation_of(symbol: Seq<char>) -> Option<Operation> {
    if symbol == seq!['+'] {
        Some(Operation::Add)
    } else if symbol == seq!['-'] {
        Some(Operation::Sub)
    } else if symbol == seq!['*'] {
        Some(Operation::Mul)
    } else if symbol == seq!['/'] {
        Some(Operation::Div)
    } else {
        None
    }
}

/// The result of an operation on two numbers; division rounds down.
pub open spec fn apply(op: Operation, a: int, b: int) -> int {
    match op {
        Operation::Add => a + b,
        Operation::Sub => a - b,
        Operation::Mul => a * b,
        Operation::Div => a / b,
    }
}

/// One arithmetic puzzle with its precomputed answer.
#[derive(Clone, Debug, PartialEq, Eq)]
pub struct SubQuestion {
    /// One of `+`, `-`, `*`, `/`.
    pub operation: String,
    pub a: u64,
    pub b: u64,
    pub answer: u64,
}

/// What a [`SubQuestion`] holds, as plain values.
pub ghost struct SubQuestionView {
    pub operation: Seq<char>,
    pub a: u64,
    pub b: u64,
    pub answer: u64,
}

impl View for SubQuestion {
    type V = SubQuestionView;

    open spec fn view(&self) -> SubQuestionView {
        SubQuestionView { operation: self.operation@, a: self.a, b: self.b, answer: self.answer }
    }
}

impl SubQuestionView {
    /// The answer is the exact result of the operation on the operands, a
    /// subtraction does not go below zero, and a division leaves no remainder.
    pub open spec fn valid(self) -> bool {
        match operation_of(self.operation) {
            Some(op) => {
                &&& self.answer == apply(op, self.a as int, self.b as int)
                &&& op == Operation::Sub ==> self.a >= self.b
                &&& op == Operation::Div ==> self.b >= 1 && self.a % self.b == 0
            },
            None => false,
        }
    }
}

/// Five sub-questions under one id.
#[derive(Clone, Debug, PartialEq, Eq)]
pub struct Quest {
    pub sub_questions: Vec<SubQuestion>,
}

impl View for Quest {
    type V = Seq<SubQuestionView>;

    open spec fn view(&self) -> Seq<SubQuestionView> {
        Seq::new(self.sub_questions@.len(), |i: int| self.sub_questions@[i]@)
    }
}

/// A quest has exactly five sub-questions, each of them valid.
pub open spec fn quest_valid(quest: Seq<SubQuestionView>) -> bool {
    &&& quest.len() == SUB_QUESTIONS
    &&& forall|i: int| 0 <= i < quest.len() ==> (#[trigger] quest[i]).valid()
}

/// An account, as the canonical bytes of its address. Two addresses are the
/// same account exactly if their bytes are equal.
#[derive(Clone, Debug, PartialEq, Eq)]
pub struct Address {
    pub bytes: Vec<u8>,
}

impl View for Address {
    type V = Seq<u8>;

    open spec fn view(&self) -> Seq<u8> {
        self.bytes@
    }
}

impl Address {
    /// The address with the given canonical bytes.
    pub fn new(bytes: Vec<u8>) -> (r: Address)
        ensures
            r@ == bytes@,
    {
        Address { bytes }
    }

    /// The address whose canonical bytes are the UTF-8 bytes of `text`.
    pub fn from_text(text: &str) -> (r: Address)
        ensures
            r@ == text.spec_bytes(),
    {
        Address { bytes: text.as_bytes_vec() }
    }

    /// Whether two addresses are the same account.
    pub fn same(&self, other: &Address) -> (r: bool)
        ensures
            r == (self@ == other@),
    {
        if self.bytes.len() != other.bytes.len() {
            return false;
        }
        let mut i: usize = 0;
        while i < self.bytes.len()
            invariant
                i <= self.bytes@.len(),
                self.bytes@.len() == other.bytes@.len(),
                forall|j: int| 0 <= j < i ==> self.bytes@[j] == other.bytes@[j],
            decreases self.bytes@.len() - i,
        {
            if self.bytes[i] != other.bytes[i] {
                return false;
            }
            i += 1;
        }
        assert(self.bytes@ =~= other.bytes@);
        true
    }

    /// A copy of this address.
    pub fn duplicate(&self) -> (r: Address)
        ensures
            r@ == self@,
    {
        let bytes = self.bytes.clone();
        Address { bytes }
    }
}

/// The reward for completing a quest.
#[derive(Clone, Debug, PartialEq, Eq)]
pub struct Badge {
    pub owner: Address,
    pub quest_id: u64,
    pub token_uri: String,
}

/// What a [`Badge`] holds, as plain values.
pub ghost struct BadgeView {
    pub owner: Seq<u8>,
    pub quest_id: u64,
    pub token_uri: Seq<char>,
}

impl View for Badge {
    type V = BadgeView;

    open spec fn view(&self) -> BadgeView {
        BadgeView { owner: self.owner@, quest_id: self.quest_id, token_uri: self.token_uri@ }
    }
}

/// The character for a decimal digit.
pub open spec fn digit_char(d: nat) -> char {
    if d == 0 {
        '0'
    } else if d == 1 {
        '1'
    } else if d == 2 {
        '2'
    } else if d == 3 {
        '3'
    } else if d == 4 {
        '4'
    } else if d == 5 {
        '5'
    } else if d == 6 {
        '6'
    } else if d == 7 {
        '7'
    } else if d == 8 {
        '8'
    } else {
        '9'
    }
}

/// A number written in decimal, without leading zeros.
pub open spec fn decimal(n: nat) -> Seq<char>
    decreases n,
{
    if n < 10 {
        seq![digit_char(n)]
    } else {
        decimal(n / 10).push(digit_char(n % 10))
    }
}

/// Where a badge's content is found: `ipfs://math_quest/`, the operation
/// symbol, a slash, and the token id in decimal.
pub open spec fn token_uri_of(symbol: Seq<char>, token_id: u64) -> Seq<char> {
    "ipfs://math_quest/"@ + symbol + seq!['/'] + decimal(token_id as nat)
}

fn digit_text(d: u64) -> (text: &'static str)
    requires
        d < 10,
    ensures
        text@ == seq![digit_char(d as nat)],
{
    proof {
        reveal_strlit("0");
        reveal_strlit("1");
        reveal_strlit("2");
        reveal_strlit("3");
        reveal_strlit("4");
        reveal_strlit("5");
        reveal_strlit("6");
        reveal_strlit("7");
        reveal_strlit("8");
        reveal_strlit("9");
    }
    let text = if d == 0 {
        "0"
    } else if d == 1 {
        "1"
    } else if d == 2 {
        "2"
    } else if d == 3 {
        "3"
    } else if d == 4 {
        "4"
    } else if d == 5 {
        "5"
    } else if d == 6 {
        "6"
    } else if d == 7 {
        "7"
    } else if d == 8 {
        "8"
    } else {
        "9"
    };
    text
}

/// Writes a number in decimal.
pub fn decimal_text(n: u64) -> (text: String)
    ensures
        text@ == decimal(n as nat),
    decreases n,
{
    if n < 10 {
        String::from_str(digit_text(n))
    } else {
        let head = decimal_text(n / 10);
        let text = head.concat(digit_text(n % 10));
        text
    }
}

/// Builds the content address of a badge.
pub fn token_uri(operation: &str, token_id: u64) -> (uri: String)
    ensures
        uri@ == token_uri_of(operation@, token_id),
{
    proof {
        reveal_strlit("/");
    }
    let number = decimal_text(token_id);
    let uri = String::from_str("ipfs://math_quest/").concat(operation).concat("/").concat(
        number.as_str(),
    );
    uri
}

} // verus!
