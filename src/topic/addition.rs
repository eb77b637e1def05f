//! Questions on addition.

use crate::random::{Draw, RangeSource};
use crate::topic::{check_range, range_error, ConfigError, Operator, Question, QuestionView};
use vstd::prelude::*;
use vstd::string::StringExecFns;

verus! {

/// The range an [`Addition`] module draws both operands from.
#[derive(Clone, Copy, Debug, PartialEq, Eq, Structural)]
pub struct Config {
    /// The smallest number that will be asked.
    pub min_val: u32,
    /// One more than the largest number that will be asked.
    pub max_val: u32,
}

impl Config {
    /// Why this configuration is rejected, if it is.
    pub open spec fn error(self) -> Option<ConfigError> {
        range_error(self.min_val, self.max_val)
    }

    /// Validates the configuration.
    pub fn validate(&self) -> (r: Result<(), ConfigError>)
        ensures
            match self.error() {
                Some(e) => r == Err::<(), ConfigError>(e),
                None => r is Ok,
            },
    {
        check_range(self.min_val, self.max_val)
    }
}

/// Whether `q` is a question that an addition module configured by `c` may ask, with the
/// draws it takes leading from `before` to `after`: both operands are drawn from
/// `[min_val, max_val)`, first `lhs`, then `rhs`.
pub open spec fn asked(c: Config, before: Seq<Draw>, after: Seq<Draw>, q: QuestionView) -> bool {
    &&& q.op == Operator::Plus
    &&& c.min_val <= q.lhs < c.max_val
    &&& c.min_val <= q.rhs < c.max_val
    &&& after == before.push((Draw { low: c.min_val, high: c.max_val, value: q.lhs as u32 })).push(
        (Draw { low: c.min_val, high: c.max_val, value: q.rhs as u32 }),
    )
}

/// Every operand of an addition question lies in `[min_val, max_val)`.
pub proof fn lemma_operands_in_range(c: Config, before: Seq<Draw>, after: Seq<Draw>, q: QuestionView)
    requires
        asked(c, before, after, q),
    ensures
        c.min_val <= q.lhs < c.max_val,
        c.min_val <= q.rhs < c.max_val,
{
}

/// The addition module: questions `lhs + rhs` with both operands drawn from the
/// configured range.
pub struct Addition {
    config: Config,
}

impl Addition {
    /// The configuration was validated when the module was built.
    #[verifier::type_invariant]
    spec fn config_is_valid(&self) -> bool {
        self.config.error() is None
    }
}

impl View for Addition {
    type V = Config;

    closed spec fn view(&self) -> Config {
        self.config
    }
}

impl Addition {
    /// Builds the module, or says why `config` is rejected.
    pub fn new(config: Config) -> (r: Result<Addition, ConfigError>)
        ensures
            match config.error() {
                Some(e) => r matches Err(x) && x == e,
                None => r matches Ok(a) && a@ == config,
            },
    {
        match config.validate() {
            Ok(()) => Ok(Addition { config }),
            Err(e) => Err(e),
        }
    }

    /// The name of this module's topic.
    pub fn topic_name(&self) -> (r: String)
        ensures
            r@ == "addition"@,
    {
        String::from_str("addition")
    }

    /// Draws a question: both operands come from `[min_val, max_val)`, in two draws.
    pub fn ask<R: RangeSource>(&self, rand: &mut R) -> (q: Question)
        ensures
            self@.error() is None,
            asked(self@, old(rand).draws(), final(rand).draws(), q@),
    {
        proof {
            use_type_invariant(self);
        }
        let lhs = rand.next_range(self.config.min_val, self.config.max_val);
        let rhs = rand.next_range(self.config.min_val, self.config.max_val);
        Question::sum(lhs, rhs)
    }
}

/// Sums of numbers below ten.
pub fn addition_1() -> (r: Addition)
    ensures
        r@ == (Config { min_val: 0, max_val: 10 }),
{
    Addition::new(Config { min_val: 0, max_val: 10 }).unwrap()
}

/// Sums of numbers below ten thousand.
pub fn addition_2() -> (r: Addition)
    ensures
        r@ == (Config { min_val: 0, max_val: 9_999 }),
{
    Addition::new(Config { min_val: 0, max_val: 9_999 }).unwrap()
}

/// Sums of numbers below a hundred million.
pub fn addition_3() -> (r: Addition)
    ensures
        r@ == (Config { min_val: 0, max_val: 99_999_999 }),
{
    Addition::new(Config { min_val: 0, max_val: 99_999_999 }).unwrap()
}

impl TryFrom<Config> for Addition {
    type Error = ConfigError;

    fn try_from(config: Config) -> (r: Result<Addition, ConfigError>) {
        Addition::new(config)
    }
}

impl vstd::std_specs::convert::TryFromSpecImpl<Config> for Addition {
    open spec fn obeys_try_from_spec() -> bool {
        true
    }

    closed spec fn try_from_spec(config: Config) -> Result<Addition, ConfigError> {
        match config.error() {
            Some(e) => Err(e),
            None => Ok(Addition { config }),
        }
    }
}

} // verus!
