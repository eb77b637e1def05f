//! Modules, the questions they generate, and the grading of answers.

pub mod addition;
pub mod subtraction;

use crate::random::RangeSource;
use crate::topic::addition::Addition;
use crate::topic::subtraction::Subtraction;
use crate::text::{i64_value, int_text, nat_text, parse_i64, push_char, push_int, push_nat};
use vstd::prelude::*;
use vstd::string::StringExecFns;

verus! {

/// The largest `max_val` a configuration may have: half of `u32::MAX`, so that every
/// operand, sum and difference is exact in signed arithmetic.
pub const MAX_MAX_VAL: u32 = 0x7fff_ffff;

/// Why a configuration was rejected.
#[derive(Clone, Copy, Debug, PartialEq, Eq, Structural)]
pub enum ConfigError {
    /// `min_val` is not below `max_val`.
    InvalidRange,
    /// `max_val` is above [`MAX_MAX_VAL`].
    RangeTooLarge,
}

/// The error, if any, of a configuration drawing operands from `[min_val, max_val)`.
pub open spec fn range_error(min_val: u32, max_val: u32) -> Option<ConfigError> {
    if min_val >= max_val {
        Some(ConfigError::InvalidRange)
    } else if max_val > MAX_MAX_VAL {
        Some(ConfigError::RangeTooLarge)
    } else {
        None
    }
}

/// The text describing a configuration error.
pub open spec fn config_error_text(e: ConfigError) -> Seq<char> {
    match e {
        ConfigError::InvalidRange => "min_val must be less than max_val"@,
        ConfigError::RangeTooLarge => "max_val cannot exceed "@ + nat_text(MAX_MAX_VAL as nat),
    }
}

impl ConfigError {
    /// Describes the error for a person.
    pub fn to_string(&self) -> (r: String)
        ensures
            r@ == config_error_text(*self),
    {
        match self {
            ConfigError::InvalidRange => String::from_str("min_val must be less than max_val"),
            ConfigError::RangeTooLarge => {
                let mut r = String::from_str("max_val cannot exceed ");
                push_nat(&mut r, MAX_MAX_VAL as u64);
                r
            },
        }
    }
}

/// Checks that `[min_val, max_val)` is a range a module can draw its operands from.
pub fn check_range(min_val: u32, max_val: u32) -> (r: Result<(), ConfigError>)
    ensures
        match range_error(min_val, max_val) {
            Some(e) => r == Err::<(), ConfigError>(e),
            None => r is Ok,
        },
{
    if min_val >= max_val {
        return Err(ConfigError::InvalidRange);
    }
    if max_val > MAX_MAX_VAL {
        return Err(ConfigError::RangeTooLarge);
    }
    Ok(())
}

/// The result of grading one answer.
#[derive(Debug, PartialEq, Eq)]
pub enum Outcome {
    Incorrect,
    Invalid(String),
    Correct,
}

/// The operation a question asks for.
#[derive(Clone, Copy, Debug, PartialEq, Eq, Structural)]
pub enum Operator {
    Plus,
    Minus,
}

/// A question's operator and operands.
pub struct QuestionView {
    pub op: Operator,
    pub lhs: int,
    pub rhs: int,
}

impl QuestionView {
    /// The answer that grades as correct.
    pub open spec fn expected(self) -> int {
        match self.op {
            Operator::Plus => self.lhs + self.rhs,
            Operator::Minus => self.lhs - self.rhs,
        }
    }

    /// The first line of the question's text.
    pub open spec fn intro(self) -> Seq<char> {
        match self.op {
            Operator::Plus => "Can you add these two numbers for me.\n"@,
            Operator::Minus => "Can you subtract these two numbers for me.\n"@,
        }
    }

    /// The operator's symbol with the spaces around it.
    pub open spec fn symbol(self) -> Seq<char> {
        match self.op {
            Operator::Plus => " + "@,
            Operator::Minus => " \u{2013} "@,
        }
    }

    /// The full text of the question.
    pub open spec fn text(self) -> Seq<char> {
        self.intro() + int_text(self.lhs) + self.symbol() + int_text(self.rhs) + " = ?"@
    }
}

/// The reason given for an answer that is not a number.
pub open spec fn invalid_answer_text(raw: Seq<char>) -> Seq<char> {
    seq!['\''] + raw + "' does not appear to be a valid integer"@
}

/// Whether `r` is the grade of the answer `raw` to the question `q`: `Invalid` with a reason
/// where `raw` is no base-ten integer, else `Correct` exactly where it equals the expected
/// answer, and `Incorrect` otherwise.
pub open spec fn grades(q: QuestionView, raw: Seq<char>, r: Outcome) -> bool {
    match r {
        Outcome::Correct => i64_value(raw) == Some(q.expected()),
        Outcome::Incorrect => i64_value(raw) is Some && i64_value(raw) != Some(q.expected()),
        Outcome::Invalid(reason) => i64_value(raw) is None && reason@ == invalid_answer_text(raw),
    }
}

/// Whether two outcomes are the same: the same variant, and for `Invalid` the same reason.
pub open spec fn same_outcome(a: Outcome, b: Outcome) -> bool {
    match (a, b) {
        (Outcome::Correct, Outcome::Correct) => true,
        (Outcome::Incorrect, Outcome::Incorrect) => true,
        (Outcome::Invalid(x), Outcome::Invalid(y)) => x@ == y@,
        _ => false,
    }
}

/// Grading is a function of the question and the text alone: two gradings of the same
/// text for the same question give the same outcome.
pub proof fn lemma_grading_is_idempotent(q: QuestionView, raw: Seq<char>, first: Outcome, second: Outcome)
    requires
        grades(q, raw, first),
        grades(q, raw, second),
    ensures
        same_outcome(first, second),
{
}

/// One generated problem: an operator and two operands that never change.
pub struct Question {
    op: Operator,
    lhs: i64,
    rhs: i64,
}

impl Question {
    /// Both operands were drawn as `u32` values.
    #[verifier::type_invariant]
    spec fn operands_in_range(&self) -> bool {
        0 <= self.lhs <= u32::MAX && 0 <= self.rhs <= u32::MAX
    }
}

impl View for Question {
    type V = QuestionView;

    closed spec fn view(&self) -> QuestionView {
        QuestionView { op: self.op, lhs: self.lhs as int, rhs: self.rhs as int }
    }
}

impl Question {
    /// The question `lhs + rhs`.
    pub fn sum(lhs: u32, rhs: u32) -> (q: Question)
        ensures
            q@ == (QuestionView { op: Operator::Plus, lhs: lhs as int, rhs: rhs as int }),
    {
        Question { op: Operator::Plus, lhs: lhs as i64, rhs: rhs as i64 }
    }

    /// The question `lhs - rhs`.
    pub fn difference(lhs: u32, rhs: u32) -> (q: Question)
        ensures
            q@ == (QuestionView { op: Operator::Minus, lhs: lhs as int, rhs: rhs as int }),
    {
        Question { op: Operator::Minus, lhs: lhs as i64, rhs: rhs as i64 }
    }

    /// The operator.
    pub fn op(&self) -> (r: Operator)
        ensures
            r == self@.op,
    {
        self.op
    }

    /// The first operand.
    pub fn lhs(&self) -> (r: i64)
        ensures
            r as int == self@.lhs,
    {
        self.lhs
    }

    /// The second operand.
    pub fn rhs(&self) -> (r: i64)
        ensures
            r as int == self@.rhs,
    {
        self.rhs
    }

    /// The question as text for a person: an invitation, then `lhs op rhs = ?`.
    pub fn to_string(&self) -> (r: String)
        ensures
            r@ == self@.text(),
    {
        let mut r = match self.op {
            Operator::Plus => String::from_str("Can you add these two numbers for me.\n"),
            Operator::Minus => String::from_str("Can you subtract these two numbers for me.\n"),
        };
        push_int(&mut r, self.lhs);
        match self.op {
            Operator::Plus => r.append(" + "),
            Operator::Minus => r.append(" \u{2013} "),
        }
        push_int(&mut r, self.rhs);
        r.append(" = ?");
        r
    }

    /// Grades `answer`, already trimmed of surrounding whitespace.
    pub fn answer(&self, answer: &str) -> (r: Outcome)
        ensures
            grades(self@, answer@, r),
    {
        proof {
            use_type_invariant(self);
        }
        match parse_i64(answer) {
            Some(value) => {
                let expected: i64 = match self.op {
                    Operator::Plus => self.lhs + self.rhs,
                    Operator::Minus => self.lhs - self.rhs,
                };
                if value == expected {
                    Outcome::Correct
                } else {
                    Outcome::Incorrect
                }
            },
            None => {
                let mut reason = String::new();
                push_char(&mut reason, '\'');
                reason.append(answer);
                reason.append("' does not appear to be a valid integer");
                Outcome::Invalid(reason)
            },
        }
    }
}

/// A topic bound to its configuration: the unit that questions are drawn from.
pub enum Module {
    Addition(Addition),
    Subtraction(Subtraction),
}

/// The name of the topic that `m` teaches.
pub open spec fn topic_of(m: Module) -> Seq<char> {
    match m {
        Module::Addition(_) => "addition"@,
        Module::Subtraction(_) => "subtraction"@,
    }
}

impl Module {
    /// The name of this module's topic.
    pub fn topic_name(&self) -> (r: String)
        ensures
            r@ == topic_of(*self),
    {
        match self {
            Module::Addition(a) => a.topic_name(),
            Module::Subtraction(s) => s.topic_name(),
        }
    }

    /// Draws a question from this module.
    pub fn ask<R: RangeSource>(&self, rand: &mut R) -> (q: Question)
        ensures
            match *self {
                Module::Addition(a) => addition::asked(a@, old(rand).draws(), final(rand).draws(), q@),
                Module::Subtraction(s) => subtraction::asked(
                    s@,
                    old(rand).draws(),
                    final(rand).draws(),
                    q@,
                ),
            },
    {
        match self {
            Module::Addition(a) => a.ask(rand),
            Module::Subtraction(s) => s.ask(rand),
        }
    }
}

} // verus!
