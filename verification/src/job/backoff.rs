//! Backoff strategies: how long to wait before a job is tried again.
use crate::outside::registry::{
    self, registry_contains, registry_get, registry_insert, registry_new,
};
use crossbeam_skiplist::SkipMap;
use vstd::prelude::*;

verus! {

/// The largest attempt count for which `2^attempts` is an `i64`.
pub const MAX_EXPONENT: i64 = 62;

/// Detailed backoff configuration.
#[derive(Debug)]
pub struct BackOffOptions {
    /// Name of the strategy. Built in are `"exponential"` and `"fixed"`.
    pub type_: Option<String>,
    /// Base delay in milliseconds that the strategy starts from.
    pub delay: Option<i64>,
}

/// The backoff policy for job retries.
#[derive(Debug)]
pub enum BackOffJobOptions {
    /// The `"fixed"` strategy with this delay in milliseconds.
    Number(i64),
    /// A strategy's name and base delay.
    Opts(BackOffOptions),
}

impl Clone for BackOffOptions {
    fn clone(&self) -> (res: Self)
        ensures
            res == *self,
    {
        let type_ = match &self.type_ {
            Some(name) => Some(name.clone()),
            None => None,
        };
        BackOffOptions { type_, delay: self.delay }
    }
}

impl Clone for BackOffJobOptions {
    fn clone(&self) -> (res: Self)
        ensures
            res == *self,
    {
        match self {
            BackOffJobOptions::Number(num) => BackOffJobOptions::Number(*num),
            BackOffJobOptions::Opts(opts) => BackOffJobOptions::Opts(opts.clone()),
        }
    }
}

/// A registered strategy. A custom one maps base delay and attempt count to
/// the delay in milliseconds.
pub enum Strategy<F> {
    /// The delay doubles with each attempt.
    Exponential,
    /// The delay is the same for each attempt.
    Fixed,
    /// The delay is what this function says.
    Custom(F),
}

/// A per-attempt delay function: a strategy with its base delay.
pub enum StoredFn<'a, F> {
    /// `2^attempts * delay`.
    Exponential(i64),
    /// `delay`.
    Fixed(i64),
    /// The custom strategy, with the base delay that it is called with.
    Custom(&'a F, i64),
}

impl<F> Strategy<F> {
    /// The strategy with a base delay.
    pub open spec fn applied<'a>(&'a self, delay: i64) -> StoredFn<'a, F> {
        match self {
            Strategy::Exponential => StoredFn::Exponential(delay),
            Strategy::Fixed => StoredFn::Fixed(delay),
            Strategy::Custom(f) => StoredFn::Custom(f, delay),
        }
    }

    /// Gives the strategy a base delay.
    pub fn with_delay(&self, delay: i64) -> (stored: StoredFn<'_, F>)
        ensures
            stored == self.applied(delay),
    {
        match self {
            Strategy::Exponential => StoredFn::Exponential(delay),
            Strategy::Fixed => StoredFn::Fixed(delay),
            Strategy::Custom(f) => StoredFn::Custom(f, delay),
        }
    }
}

impl<'a, F: Fn(i64, i64) -> i64> StoredFn<'a, F> {
    /// The function has a value for this attempt count: the exponential one
    /// where the value is an `i64`, a custom one where the function accepts
    /// its arguments.
    pub open spec fn accepts(self, attempts: i64) -> bool {
        match self {
            StoredFn::Exponential(delay) => 0 <= attempts <= MAX_EXPONENT && i64::MIN
                <= vstd::arithmetic::power2::pow2(attempts as nat) * delay <= i64::MAX,
            StoredFn::Fixed(_) => true,
            StoredFn::Custom(f, delay) => call_requires(*f, (delay, attempts)),
        }
    }

    /// `delay_ms` is a value of the function for this attempt count.
    pub open spec fn gives(self, attempts: i64, delay_ms: i64) -> bool {
        match self {
            StoredFn::Exponential(delay) => delay_ms == vstd::arithmetic::power2::pow2(
                attempts as nat,
            ) * delay,
            StoredFn::Fixed(delay) => delay_ms == delay,
            StoredFn::Custom(f, delay) => call_ensures(*f, (delay, attempts), delay_ms),
        }
    }

    /// The delay in milliseconds before the attempt after `attempts` ones.
    pub fn call(&self, attempts: i64) -> (delay_ms: i64)
        requires
            self.accepts(attempts),
        ensures
            self.gives(attempts, delay_ms),
    {
        match self {
            StoredFn::Exponential(delay) => {
                let power: i64 = power_of_two(attempts);
                power * *delay
            },
            StoredFn::Fixed(delay) => *delay,
            StoredFn::Custom(f, delay) => (*f)(*delay, attempts),
        }
    }
}

/// The exponential strategy doubles the delay with each attempt, and the fixed one
/// leaves it as it is.
pub proof fn law_delays_grow<'a, F: Fn(i64, i64) -> i64>(
    base: i64,
    attempts: i64,
    delay: i64,
    next: i64,
)
    requires
        0 <= attempts < i64::MAX,
    ensures
        StoredFn::<'a, F>::Exponential(base).gives(attempts, delay) && StoredFn::<
            'a,
            F,
        >::Exponential(base).gives((attempts + 1) as i64, next) ==> next == 2 * delay,
        StoredFn::<'a, F>::Fixed(base).gives(attempts, delay) && StoredFn::<'a, F>::Fixed(
            base,
        ).gives((attempts + 1) as i64, next) ==> next == delay,
{
    vstd::arithmetic::power2::lemma_pow2_unfold((attempts + 1) as nat);
    let (power, twice) = (
        vstd::arithmetic::power2::pow2(attempts as nat) as int,
        vstd::arithmetic::power2::pow2((attempts + 1) as nat) as int,
    );
    assert(twice * base == 2 * (power * base)) by (nonlinear_arith)
        requires
            twice == 2 * power,
    ;
}

/// `2^exponent`.
fn power_of_two(exponent: i64) -> (power: i64)
    requires
        0 <= exponent <= MAX_EXPONENT,
    ensures
        power == vstd::arithmetic::power2::pow2(exponent as nat),
{
    let mut power: i64 = 1;
    let mut i: i64 = 0;
    proof {
        vstd::arithmetic::power2::lemma2_to64();
    }
    while i < exponent
        invariant
            0 <= i <= exponent <= MAX_EXPONENT,
            power == vstd::arithmetic::power2::pow2(i as nat),
        decreases exponent - i,
    {
        proof {
            vstd::arithmetic::power2::lemma2_to64();
            vstd::arithmetic::power2::lemma2_to64_rest();
            vstd::arithmetic::power2::lemma_pow2_adds(i as nat, 1);
            vstd::arithmetic::power2::lemma_pow2_adds((i + 1) as nat, (62 - (i + 1)) as nat);
            vstd::arithmetic::power2::lemma_pow2_pos((62 - (i + 1)) as nat);
            let (a, b) = (
                vstd::arithmetic::power2::pow2((i + 1) as nat) as int,
                vstd::arithmetic::power2::pow2((62 - (i + 1)) as nat) as int,
            );
            assert(a <= a * b) by (nonlinear_arith)
                requires
                    a >= 0,
                    b >= 1,
            ;
        }
        power = power * 2;
        i += 1;
    }
    power
}

/// Registry of backoff strategies.
pub struct BackOff<F> {
    builtin_strategies: SkipMap<String, u64>,
    kept: Vec<Strategy<F>>,
}

impl<F> View for BackOff<F> {
    type V = Map<Seq<char>, Strategy<F>>;

    /// The strategies by name.
    closed spec fn view(&self) -> Map<Seq<char>, Strategy<F>> {
        Map::new(
            |name: Seq<char>| registry::slots(self.builtin_strategies).dom().contains(name),
            |name: Seq<char>| self.kept@[registry::slots(self.builtin_strategies)[name] as int],
        )
    }
}

impl<F> BackOff<F> {
    /// Every registered name has its strategy.
    pub closed spec fn wf(self) -> bool {
        forall|name: Seq<char>| #[trigger]
            registry::slots(self.builtin_strategies).dom().contains(name)
                ==> registry::slots(self.builtin_strategies)[name] < self.kept@.len()
    }

    /// A registry with nothing in it.
    pub fn empty() -> (backoff: Self)
        ensures
            backoff.wf(),
            backoff@ == Map::<Seq<char>, Strategy<F>>::empty(),
    {
        let backoff = BackOff { builtin_strategies: registry_new(), kept: Vec::new() };
        assert(backoff@ =~= Map::<Seq<char>, Strategy<F>>::empty());
        backoff
    }

    /// A registry with the built-in strategies `"exponential"` and `"fixed"`.
    pub fn new() -> (backoff: Self)
        ensures
            backoff.wf(),
            backoff@ == Map::<Seq<char>, Strategy<F>>::empty().insert(
                "exponential"@,
                Strategy::Exponential,
            ).insert("fixed"@, Strategy::Fixed),
    {
        let mut backoff = Self::empty();
        backoff.register("exponential", Strategy::Exponential);
        backoff.register("fixed", Strategy::Fixed);
        backoff
    }

    /// Registers a strategy under `name`, in place of one with that name.
    pub fn register(&mut self, name: &str, strategy: Strategy<F>)
        requires
            old(self).wf(),
        ensures
            final(self).wf(),
            final(self)@ == old(self)@.insert(name@, strategy),
    {
        let ghost before = *self;
        let slot: usize = self.kept.len();
        self.kept.push(strategy);
        registry_insert(&mut self.builtin_strategies, name, slot as u64);
        proof {
            assert forall|other: Seq<char>| #[trigger]
                registry::slots(self.builtin_strategies).dom().contains(
                    other,
                ) implies registry::slots(self.builtin_strategies)[other] < self.kept@.len() by {
                if other != name@ {
                    assert(registry::slots(before.builtin_strategies).dom().contains(other));
                }
            }
            assert forall|other: Seq<char>|
                other != name@ && before@.dom().contains(other) implies self@[other]
                == before@[other] by {
                assert(registry::slots(before.builtin_strategies).dom().contains(other));
            }
            assert(self@ =~= before@.insert(name@, strategy));
        }
    }

    /// Turns a backoff policy into a strategy's name and base delay; `None`
    /// where there is no policy or its delay is the number zero.
    pub fn normalize(backoff: Option<&BackOffJobOptions>) -> (opts: Option<BackOffOptions>)
        ensures
            match backoff {
                None => opts is None,
                Some(BackOffJobOptions::Number(num)) => if *num == 0 {
                    opts is None
                } else {
                    opts matches Some(opts) && opts.delay == Some(*num) && (opts.type_ matches Some(
                        name,
                    ) && name@ == "fixed"@)
                },
                Some(BackOffJobOptions::Opts(given)) => opts == Some(*given),
            },
    {
        match backoff {
            None => None,
            Some(BackOffJobOptions::Number(num)) => {
                if *num == 0 {
                    return None;
                }
                Some(BackOffOptions { delay: Some(*num), type_: Some(String::from_str("fixed")) })
            },
            Some(BackOffJobOptions::Opts(opts)) => Some(opts.clone()),
        }
    }

    /// Whether a strategy is registered under `key`.
    pub fn has_strategy(&self, key: &str) -> (found: bool)
        ensures
            found == self@.dom().contains(key@),
    {
        registry_contains(&self.builtin_strategies, key)
    }

    /// The delay function that these options lead to: the registered strategy
    /// with the base delay, or `custom_strategy` where the options name none
    /// that is registered or no delay.
    pub open spec fn looked_up<'a>(
        &'a self,
        type_: Option<Seq<char>>,
        delay: Option<i64>,
        custom_strategy: Option<StoredFn<'a, F>>,
    ) -> Option<StoredFn<'a, F>> {
        match (type_, delay) {
            (Some(name), Some(delay)) => if self@.dom().contains(name) {
                Some((&self@[name]).applied(delay))
            } else {
                custom_strategy
            },
            _ => custom_strategy,
        }
    }

    /// Looks up the delay function for these options, with `custom_strategy`
    /// to fall back on.
    pub fn lookup_strategy<'a>(
        &'a self,
        backoff: BackOffOptions,
        custom_strategy: Option<StoredFn<'a, F>>,
    ) -> (found: Option<StoredFn<'a, F>>)
        requires
            self.wf(),
        ensures
            found == self.looked_up(name_of(backoff), backoff.delay, custom_strategy),
    {
        if let Some(name) = backoff.type_ {
            if let Some(slot) = registry_get(&self.builtin_strategies, name.as_str()) {
                assert(registry::slots(self.builtin_strategies).dom().contains(name@));
                if let Some(delay) = backoff.delay {
                    assert(self@.dom().contains(name@));
                    assert(self@[name@] == self.kept@[slot as int]);
                    assert(slot < self.kept.len());
                    return Some(self.kept[slot as usize].with_delay(delay));
                }
            }
        }
        custom_strategy
    }
}

/// The name in `backoff`.
pub open spec fn name_of(backoff: BackOffOptions) -> Option<Seq<char>> {
    match backoff.type_ {
        Some(name) => Some(name@),
        None => None,
    }
}

/// Two functions of one strategy differ only in their base delay: a fixed function
/// gives the base delay after any number of attempts, an exponential one gives the
/// base delay before the first attempt and twice as much for each attempt since, and
/// a custom one what its function says of the base delay and the attempts.
pub proof fn law_strategies_start_from_the_base<'a, F: Fn(i64, i64) -> i64>(
    strategy: &'a Strategy<F>,
    base: i64,
    attempts: i64,
    given: i64,
)
    ensures
        strategy is Fixed && strategy.applied(base).gives(attempts, given) ==> given == base,
        strategy is Fixed ==> strategy.applied(base).accepts(attempts),
        strategy is Exponential && 0 <= attempts <= 62 && i64::MIN
            <= vstd::arithmetic::power2::pow2(attempts as nat) * base <= i64::MAX
            ==> strategy.applied(base).accepts(attempts),
        strategy is Exponential && strategy.applied(base).gives(0, given) ==> given == base,
        strategy is Exponential && strategy.applied(base).gives(1, given) ==> given == 2 * base,
        strategy is Exponential && strategy.applied(base).gives(2, given) ==> given == 4 * base,
        match strategy {
            Strategy::Custom(f) => strategy.applied(base).gives(attempts, given) ==> call_ensures(
                *f,
                (base, attempts),
                given,
            ),
            _ => true,
        },
{
    vstd::arithmetic::power2::lemma2_to64();
    let (one, two, four) = (
        vstd::arithmetic::power2::pow2(0) as int,
        vstd::arithmetic::power2::pow2(1) as int,
        vstd::arithmetic::power2::pow2(2) as int,
    );
    assert(one * base == base && two * base == 2 * base && four * base == 4 * base)
        by (nonlinear_arith)
        requires
            one == 1,
            two == 2,
            four == 4,
    ;
}

/// A registered strategy is found under its name and gets the base delay of the
/// options; a name that is not registered, or options without a name or without a
/// base delay, lead to the fallback, whatever else is registered.
pub proof fn law_registered_is_found<'a, F>(
    registry: &'a BackOff<F>,
    name: Seq<char>,
    delay: i64,
    fallback: Option<StoredFn<'a, F>>,
)
    ensures
        registry@.dom().contains(name) ==> (registry.looked_up(Some(name), Some(delay), fallback)
            matches Some(found) && match registry@[name] {
            Strategy::Exponential => found == StoredFn::<'a, F>::Exponential(delay),
            Strategy::Fixed => found == StoredFn::<'a, F>::Fixed(delay),
            Strategy::Custom(f) => found is Custom && *found->Custom_0 == f && found->Custom_1
                == delay,
        }),
        !registry@.dom().contains(name) ==> registry.looked_up(Some(name), Some(delay), fallback)
            == fallback,
        registry.looked_up(None, Some(delay), fallback) == fallback,
        registry.looked_up(Some(name), None, fallback) == fallback,
        registry.looked_up(None, None, fallback) == fallback,
{
}

impl<F: Fn(i64, i64) -> i64> BackOff<F> {
    /// The delay in milliseconds for this attempt count; `None` without
    /// options, or where they lead to no delay function.
    pub fn calculate<'a>(
        &'a self,
        backoff_opts: Option<BackOffOptions>,
        attempts: i64,
        custom_strategy: Option<StoredFn<'a, F>>,
    ) -> (delay_ms: Option<i64>)
        requires
            self.wf(),
            backoff_opts matches Some(opts) ==> self.looked_up(
                name_of(opts),
                opts.delay,
                custom_strategy,
            ) matches Some(found) ==> found.accepts(attempts),
        ensures
            match backoff_opts {
                None => delay_ms is None,
                Some(opts) => match self.looked_up(name_of(opts), opts.delay, custom_strategy) {
                    None => delay_ms is None,
                    Some(found) => delay_ms matches Some(delay_ms) && found.gives(
                        attempts,
                        delay_ms,
                    ),
                },
            },
    {
        if let Some(opts) = backoff_opts {
            if let Some(strategy) = self.lookup_strategy(opts, custom_strategy) {
                let calculated_delay: i64 = strategy.call(attempts);
                return Some(calculated_delay);
            }
        }
        None
    }
}

} // verus!
