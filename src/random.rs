//! Sources of uniformly distributed integers over half-open ranges.

use vstd::prelude::*;

verus! {

/// One request made of a [`RangeSource`]: the range `[low, high)` and the value handed back.
#[derive(Clone, Copy, Debug, PartialEq, Eq, Structural)]
pub struct Draw {
    pub low: u32,
    pub high: u32,
    pub value: u32,
}

/// A capability that draws integers from a caller-supplied half-open range `[low, high)`.
///
/// Every source keeps a ghost record of the requests made of it, so that callers can state
/// exactly which ranges they asked for and which values they obtained.
pub trait RangeSource {
    /// The requests made of this source so far, oldest first.
    spec fn draws(&self) -> Seq<Draw>;

    /// Draws a value from `[low, high)`. The range must not be empty.
    fn next_range(&mut self, low: u32, high: u32) -> (r: u32)
        requires
            low < high,
        ensures
            low <= r < high,
            final(self).draws() == old(self).draws().push(Draw { low, high, value: r }),
    ;
}

#[verifier::external_type_specification]
#[verifier::external_body]
pub struct ExWyrand(tinyrand::Wyrand);

/// Relies on `tinyrand::Seeded::seed` for `Wyrand`: builds a generator from a seed.
#[verifier::external_body]
fn seeded_wyrand(seed: u64) -> (r: tinyrand::Wyrand) {
    <tinyrand::Wyrand as tinyrand::Seeded>::seed(seed)
}

/// Relies on `tinyrand::RandRange::<u32>::next_range`, which panics on an empty range and
/// otherwise returns the start of the range plus a value below the range's width.
#[verifier::external_body]
fn wyrand_next_range(rng: &mut tinyrand::Wyrand, low: u32, high: u32) -> (r: u32)
    requires
        low < high,
    ensures
        low <= r < high,
{
    tinyrand::RandRange::<u32>::next_range(rng, low..high)
}

/// A pseudo-random [`RangeSource`] backed by the Wyrand generator.
pub struct RandomSource {
    rng: tinyrand::Wyrand,
    log: Ghost<Seq<Draw>>,
}

impl RandomSource {
    /// Creates a source whose sequence of values is determined by `seed`.
    pub fn from_seed(seed: u64) -> (r: RandomSource)
        ensures
            r.draws() == Seq::<Draw>::empty(),
    {
        RandomSource { rng: seeded_wyrand(seed), log: Ghost(Seq::empty()) }
    }
}

impl RangeSource for RandomSource {
    closed spec fn draws(&self) -> Seq<Draw> {
        self.log@
    }

    fn next_range(&mut self, low: u32, high: u32) -> (r: u32) {
        let r = wyrand_next_range(&mut self.rng, low, high);
        self.log = Ghost(self.log@.push(Draw { low, high, value: r }));
        r
    }
}

/// A deterministic [`RangeSource`] that replays scripted offsets: the `k`-th draw from
/// `[low, high)` gives `low` plus the `k`-th offset (taken cyclically) modulo the width of
/// the range. It keeps the draws it made, so that a caller can see what was asked of it.
pub struct ScriptedSource {
    offsets: Vec<u32>,
    log: Vec<Draw>,
}

/// The value that the `k`-th draw from `[low, high)` gives with the scripted `offsets`.
pub open spec fn scripted_value(offsets: Seq<u32>, k: int, low: u32, high: u32) -> u32 {
    if offsets.len() == 0 {
        low
    } else {
        (low as int + offsets[k % (offsets.len() as int)] as int % (high as int - low as int)) as u32
    }
}

/// Whether every draw of `draws` is a non-empty range and gives the value that `offsets`
/// script for its position.
pub open spec fn replays(offsets: Seq<u32>, draws: Seq<Draw>) -> bool {
    forall|k: int|
        0 <= k < draws.len() ==> #[trigger] draws[k].low < draws[k].high && draws[k].value
            == scripted_value(offsets, k, draws[k].low, draws[k].high)
}

impl ScriptedSource {
    #[verifier::type_invariant]
    spec fn log_replays_offsets(&self) -> bool {
        replays(self.offsets@, self.log@)
    }

    /// A source that replays `offsets`, having made no draw yet.
    pub fn new(offsets: Vec<u32>) -> (r: ScriptedSource)
        ensures
            r.offsets() == offsets@,
            r.draws() == Seq::<Draw>::empty(),
    {
        ScriptedSource { offsets, log: Vec::new() }
    }

    /// The scripted offsets.
    pub closed spec fn offsets(&self) -> Seq<u32> {
        self.offsets@
    }

    /// The draws made so far, oldest first; each gives the value its position scripts.
    pub fn history(&self) -> (r: &Vec<Draw>)
        ensures
            r@ == self.draws(),
            replays(self.offsets(), r@),
    {
        proof {
            use_type_invariant(self);
        }
        &self.log
    }
}

impl RangeSource for ScriptedSource {
    closed spec fn draws(&self) -> Seq<Draw> {
        self.log@
    }

    fn next_range(&mut self, low: u32, high: u32) -> (r: u32)
        ensures
            r == scripted_value(old(self).offsets(), old(self).draws().len() as int, low, high),
            final(self).offsets() == old(self).offsets(),
    {
        proof {
            use_type_invariant(&*self);
        }
        let n = self.offsets.len();
        let r = if n == 0 {
            low
        } else {
            let k = self.log.len() % n;
            let width = high - low;
            low + self.offsets[k] % width
        };
        let mut log: Vec<Draw> = Vec::new();
        std::mem::swap(&mut log, &mut self.log);
        log.push(Draw { low, high, value: r });
        self.log = log;
        r
    }
}

} // verus!
