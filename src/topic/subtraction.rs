//! Questions on subtraction.

use crate::random::{Draw, RangeSource};
use crate::topic::{check_range, range_error, ConfigError, Operator, Question, QuestionView};
use vstd::prelude::*;
use vstd::string::StringExecFns;

verus! {

/// The range a [`Subtraction`] module draws its operands from, and whether a question may
/// have a negative answer.
#[derive(Clone, Copy, Debug, PartialEq, Eq, Structural)]
pub struct Config {
    /// The smallest number that will be asked as the first operand.
    pub min_val: u32,
    /// One more than the largest number that will be asked.
    pub max_val: u32,
    /// Whether the second operand is drawn from the whole range, so that the answer may be
    /// negative; otherwise it is drawn below the first.
    pub allow_negative: bool,
}

impl Config {
    /// Why this configuration is rejected, if it is.
    pub open spec fn error(self) -> Option<ConfigError> {
        range_error(self.min_val, self.max_val)
    }

    /// Validates the configuration.
    pub fn validate(&self) -> (r: Result<(), ConfigError>)
        ensures
            match self.error() {
                Some(e) => r == Err::<(), ConfigError>(e),
                None => r is Ok,
            },
    {
        check_range(self.min_val, self.max_val)
    }
}

/// The draws a subtraction question with operands `lhs` and `rhs` takes under `config`.
pub open spec fn subtraction_draws(config: Config, lhs: int, rhs: int) -> Seq<Draw> {
    let first = Draw { low: config.min_val, high: config.max_val, value: lhs as u32 };
    if config.allow_negative {
        seq![first, Draw { low: config.min_val, high: config.max_val, value: rhs as u32 }]
    } else if lhs == 0 {
        seq![first]
    } else {
        seq![first, Draw { low: 0, high: lhs as u32, value: rhs as u32 }]
    }
}

/// Whether `q` is a question that a subtraction module configured by `c` may ask, with the
/// draws it takes leading from `before` to `after`.
pub open spec fn asked(c: Config, before: Seq<Draw>, after: Seq<Draw>, q: QuestionView) -> bool {
    &&& q.op == Operator::Minus
    &&& c.min_val <= q.lhs < c.max_val
    &&& if c.allow_negative {
        c.min_val <= q.rhs < c.max_val
    } else if q.lhs == 0 {
        q.rhs == 0
    } else {
        0 <= q.rhs < q.lhs
    }
    &&& after == before + subtraction_draws(c, q.lhs, q.rhs)
}

/// Every first operand lies in `[min_val, max_val)`; so does every second operand where
/// negative answers are allowed, and otherwise it lies in `[0, max_val)`.
pub proof fn lemma_operands_in_range(c: Config, before: Seq<Draw>, after: Seq<Draw>, q: QuestionView)
    requires
        asked(c, before, after, q),
    ensures
        c.min_val <= q.lhs < c.max_val,
        c.allow_negative ==> c.min_val <= q.rhs < c.max_val,
        !c.allow_negative ==> 0 <= q.rhs < c.max_val,
{
}

/// Without negative answers, `lhs >= rhs >= 0`, so the expected answer is not negative.
pub proof fn lemma_answer_is_non_negative(
    c: Config,
    before: Seq<Draw>,
    after: Seq<Draw>,
    q: QuestionView,
)
    requires
        asked(c, before, after, q),
        !c.allow_negative,
    ensures
        q.lhs >= q.rhs >= 0,
        q.expected() >= 0,
{
}

/// Without negative answers, a first operand of `0` forces the second to `0`, and the
/// question takes a single draw.
pub proof fn lemma_zero_lhs_takes_one_draw(
    c: Config,
    before: Seq<Draw>,
    after: Seq<Draw>,
    q: QuestionView,
)
    requires
        asked(c, before, after, q),
        !c.allow_negative,
        q.lhs == 0,
    ensures
        q.rhs == 0,
        after.len() == before.len() + 1,
        after.last() == (Draw { low: c.min_val, high: c.max_val, value: 0 }),
{
}

/// The subtraction module: questions `lhs - rhs`, with `lhs` drawn from the configured
/// range and `rhs` below `lhs` (or from the whole range where negative answers are allowed).
pub struct Subtraction {
    config: Config,
}

impl Subtraction {
    /// The configuration was validated when the module was built.
    #[verifier::type_invariant]
    spec fn config_is_valid(&self) -> bool {
        self.config.error() is None
    }
}

impl View for Subtraction {
    type V = Config;

    closed spec fn view(&self) -> Config {
        self.config
    }
}

impl Subtraction {
    /// Builds the module, or says why `config` is rejected.
    pub fn new(config: Config) -> (r: Result<Subtraction, ConfigError>)
        ensures
            match config.error() {
                Some(e) => r matches Err(x) && x == e,
                None => r matches Ok(a) && a@ == config,
            },
    {
        match config.validate() {
            Ok(()) => Ok(Subtraction { config }),
            Err(e) => Err(e),
        }
    }

    /// The name of this module's topic.
    pub fn topic_name(&self) -> (r: String)
        ensures
            r@ == "subtraction"@,
    {
        String::from_str("subtraction")
    }

    /// Draws a question. `lhs` comes from `[min_val, max_val)`. Where negative answers are
    /// allowed `rhs` comes from the same range; otherwise from `[0, lhs)`, except that it is
    /// `0` without a second draw where `lhs` is `0`.
    pub fn ask<R: RangeSource>(&self, rand: &mut R) -> (q: Question)
        ensures
            self@.error() is None,
            asked(self@, old(rand).draws(), final(rand).draws(), q@),
    {
        proof {
            use_type_invariant(self);
        }
        let lhs = rand.next_range(self.config.min_val, self.config.max_val);
        let rhs = if self.config.allow_negative {
            rand.next_range(self.config.min_val, self.config.max_val)
        } else if lhs == 0 {
            0
        } else {
            rand.next_range(0, lhs)
        };
        let q = Question::difference(lhs, rhs);
        assert(rand.draws() =~= old(rand).draws() + subtraction_draws(self@, q@.lhs, q@.rhs));
        q
    }
}

/// Differences of numbers below ten, never negative.
pub fn subtraction_1() -> (r: Subtraction)
    ensures
        r@ == (Config { min_val: 0, max_val: 10, allow_negative: false }),
{
    Subtraction::new(Config { min_val: 0, max_val: 10, allow_negative: false }).unwrap()
}

/// Differences of numbers below ten thousand, never negative.
pub fn subtraction_2() -> (r: Subtraction)
    ensures
        r@ == (Config { min_val: 0, max_val: 9_999, allow_negative: false }),
{
    Subtraction::new(Config { min_val: 0, max_val: 9_999, allow_negative: false }).unwrap()
}

/// Differences of numbers below a hundred million, never negative.
pub fn subtraction_3() -> (r: Subtraction)
    ensures
        r@ == (Config { min_val: 0, max_val: 99_999_999, allow_negative: false }),
{
    Subtraction::new(Config { min_val: 0, max_val: 99_999_999, allow_negative: false }).unwrap()
}

impl TryFrom<Config> for Subtraction {
    type Error = ConfigError;

    fn try_from(config: Config) -> (r: Result<Subtraction, ConfigError>) {
        Subtraction::new(config)
    }
}

impl vstd::std_specs::convert::TryFromSpecImpl<Config> for Subtraction {
    open spec fn obeys_try_from_spec() -> bool {
        true
    }

    closed spec fn try_from_spec(config: Config) -> Result<Subtraction, ConfigError> {
        match config.error() {
            Some(e) => Err(e),
            None => Ok(Subtraction { config }),
        }
    }
}

} // verus!
