//! The aggregating subscriber: it registers one recorder for each metric
//! with a registry, and turns events into values for those recorders.
use super::info::{Info, Variant};
use super::table::{
    bool_counter_info, counter_info, info, measure_info, nominal_counter_info,
    spec_bool_counter_info, spec_counter_info, spec_is_info, spec_measure_info,
    nominal_timer_info, spec_nominal_counter_info, spec_nominal_timer_info, spec_timer_info,
    timer_info, BOOL_COUNTER_COUNT, COUNTER_COUNT, MEASURE_COUNT, NOMINAL_COUNTER_COUNT,
    NOMINAL_TIMER_COUNT, TIMER_COUNT,
};
use super::BoolRecorder;
use core::time::Duration;
use vstd::prelude::*;

verus! {

/// Records the values of a counter, a measure or a timer.
pub trait Recorder {
    fn record_u64(&self, info: &Info, value: u64);

    fn record_duration(&self, info: &Info, value: Duration);
}

/// Records the values of a nominal counter or timer: one recorder for each
/// variant.
pub trait NominalRecorder {
    fn record_u64(&self, info: &Info, variant: &Variant, value: u64);

    fn record_duration(&self, info: &Info, variant: &Variant, value: Duration);
}

/// Creates the recorder of each metric.
pub trait Registry {
    type Counter: Recorder;

    type BoolCounter: BoolRecorder;

    type Measure: Recorder;

    type Timer: Recorder;

    type NominalCounter: NominalRecorder;

    type NominalTimer: NominalRecorder;

    /// `c` is a recorder this registry created for metric `info`.
    spec fn spec_registered_counter(&self, info: Info, c: Self::Counter) -> bool;

    /// `c` is a recorder this registry created for boolean metric `info`.
    spec fn spec_registered_bool_counter(&self, info: Info, c: Self::BoolCounter) -> bool;

    /// `m` is a recorder this registry created for measure `info`.
    spec fn spec_registered_measure(&self, info: Info, m: Self::Measure) -> bool;

    /// `t` is a recorder this registry created for timer `info`.
    spec fn spec_registered_timer(&self, info: Info, t: Self::Timer) -> bool;

    /// `c` is a recorder this registry created for variant `variant` of
    /// nominal counter `info`.
    spec fn spec_registered_nominal_counter(
        &self,
        info: Info,
        variant: Variant,
        c: Self::NominalCounter,
    ) -> bool;

    /// `t` is a recorder this registry created for variant `variant` of
    /// nominal timer `info`.
    spec fn spec_registered_nominal_timer(
        &self,
        info: Info,
        variant: Variant,
        t: Self::NominalTimer,
    ) -> bool;

    fn register_counter(&self, info: &Info) -> (c: Self::Counter)
        ensures
            self.spec_registered_counter(*info, c),
    ;

    fn register_bool_counter(&self, info: &Info) -> (c: Self::BoolCounter)
        ensures
            self.spec_registered_bool_counter(*info, c),
    ;

    fn register_measure(&self, info: &Info) -> (m: Self::Measure)
        ensures
            self.spec_registered_measure(*info, m),
    ;

    fn register_timer(&self, info: &Info) -> (t: Self::Timer)
        ensures
            self.spec_registered_timer(*info, t),
    ;

    fn register_nominal_counter(&self, info: &Info, variant: &Variant) -> (c: Self::NominalCounter)
        ensures
            self.spec_registered_nominal_counter(*info, *variant, c),
    ;

    fn register_nominal_timer(&self, info: &Info, variant: &Variant) -> (t: Self::NominalTimer)
        ensures
            self.spec_registered_nominal_timer(*info, *variant, t),
    ;
}

/// Counter `i` of a subscriber over `registry` is `c`: the registry created
/// it for the metric that position `i` names.
pub open spec fn spec_counter_registered<R: Registry>(registry: R, i: usize, c: R::Counter) -> bool {
    exists|inf: Info|
        spec_is_info(inf, spec_counter_info(i)) && #[trigger] registry.spec_registered_counter(inf, c)
}

/// Boolean counter `i` was created for the metric that position `i` names.
pub open spec fn spec_bool_counter_registered<R: Registry>(
    registry: R,
    i: usize,
    c: R::BoolCounter,
) -> bool {
    exists|inf: Info|
        spec_is_info(inf, spec_bool_counter_info(i))
            && #[trigger] registry.spec_registered_bool_counter(inf, c)
}

/// Measure `i` was created for the metric that position `i` names.
pub open spec fn spec_measure_registered<R: Registry>(registry: R, i: usize, m: R::Measure) -> bool {
    exists|inf: Info|
        spec_is_info(inf, spec_measure_info(i)) && #[trigger] registry.spec_registered_measure(inf, m)
}

/// Timer `i` was created for the metric that position `i` names.
pub open spec fn spec_timer_registered<R: Registry>(registry: R, i: usize, t: R::Timer) -> bool {
    exists|inf: Info|
        spec_is_info(inf, spec_timer_info(i)) && #[trigger] registry.spec_registered_timer(inf, t)
}

/// The recorder for variant `variant` of nominal counter `k` was created for
/// that metric and that variant.
pub open spec fn spec_nominal_counter_registered<R: Registry>(
    registry: R,
    k: usize,
    variant: Variant,
    c: R::NominalCounter,
) -> bool {
    exists|inf: Info|
        spec_is_info(inf, spec_nominal_counter_info(k))
            && #[trigger] registry.spec_registered_nominal_counter(inf, variant, c)
}

/// The recorder for variant `variant` of nominal timer `k` was created for
/// that metric and that variant.
pub open spec fn spec_nominal_timer_registered<R: Registry>(
    registry: R,
    k: usize,
    variant: Variant,
    t: R::NominalTimer,
) -> bool {
    exists|inf: Info|
        spec_is_info(inf, spec_nominal_timer_info(k))
            && #[trigger] registry.spec_registered_nominal_timer(inf, variant, t)
}

/// Where the recorders of nominal counter `k` start: the number of variants
/// of the nominal counters before it.
pub open spec fn spec_nominal_offset(variants: Seq<Seq<Variant>>, k: int) -> int
    decreases k,
{
    if k <= 0 {
        0
    } else {
        spec_nominal_offset(variants, k - 1) + variants[k - 1].len()
    }
}

/// The offsets never go down.
pub proof fn lemma_nominal_offset_monotonic(variants: Seq<Seq<Variant>>, j: int, k: int)
    requires
        0 <= j <= k,
    ensures
        spec_nominal_offset(variants, j) <= spec_nominal_offset(variants, k),
    decreases k - j,
{
    if j < k {
        lemma_nominal_offset_monotonic(variants, j, k - 1);
    }
}

/// A value for one recorder of the subscriber, which is known by its
/// position among the recorders of its kind.
#[derive(Clone, Copy, Debug)]
pub enum Record {
    Count { counter: usize, value: u64 },
    CountBool { counter: usize, value: bool },
    Measure { measure: usize, value: u64 },
    Time { timer: usize, value: Duration },
    CountNominal { counter: usize, variant: usize },
    TimeNominal { timer: usize, variant: usize, value: Duration },
}

/// The record names a recorder that the subscriber has.
pub open spec fn spec_record_valid(r: Record) -> bool {
    match r {
        Record::Count { counter, .. } => counter < COUNTER_COUNT,
        Record::CountBool { counter, .. } => counter < BOOL_COUNTER_COUNT,
        Record::Measure { measure, .. } => measure < MEASURE_COUNT,
        Record::Time { timer, .. } => timer < TIMER_COUNT,
        Record::CountNominal { counter, .. } => counter < NOMINAL_COUNTER_COUNT,
        Record::TimeNominal { timer, .. } => timer < NOMINAL_TIMER_COUNT,
    }
}

/// Holds one recorder for each counter, boolean counter, measure and timer,
/// in the order of the metric tables.
pub struct Subscriber<R: Registry> {
    counters: Vec<R::Counter>,
    bool_counters: Vec<R::BoolCounter>,
    measures: Vec<R::Measure>,
    timers: Vec<R::Timer>,
    nominal_counters: Vec<R::NominalCounter>,
    nominal_counter_offsets: Vec<usize>,
    nominal_variants: Vec<Vec<Variant>>,
    nominal_timers: Vec<R::NominalTimer>,
    nominal_timer_offsets: Vec<usize>,
    nominal_timer_variants: Vec<Vec<Variant>>,
    registry: R,
}

impl<R: Registry> Subscriber<R> {
    #[verifier::type_invariant]
    closed spec fn inv(self) -> bool {
        &&& self.counters@.len() == COUNTER_COUNT
        &&& self.bool_counters@.len() == BOOL_COUNTER_COUNT
        &&& self.measures@.len() == MEASURE_COUNT
        &&& self.timers@.len() == TIMER_COUNT
        &&& self.nominal_variants@.len() == NOMINAL_COUNTER_COUNT
        &&& self.nominal_counter_offsets@.len() == NOMINAL_COUNTER_COUNT
        &&& forall|k: int|
            0 <= k < NOMINAL_COUNTER_COUNT ==> #[trigger] self.nominal_counter_offsets@[k]
                == spec_nominal_offset(self.spec_nominal_variants(), k)
        &&& self.nominal_counters@.len() == spec_nominal_offset(
            self.spec_nominal_variants(),
            NOMINAL_COUNTER_COUNT as int,
        )
        &&& self.nominal_timer_variants@.len() == NOMINAL_TIMER_COUNT
        &&& self.nominal_timer_offsets@.len() == NOMINAL_TIMER_COUNT
        &&& forall|k: int|
            0 <= k < NOMINAL_TIMER_COUNT ==> #[trigger] self.nominal_timer_offsets@[k]
                == spec_nominal_offset(self.spec_nominal_timer_variants(), k)
        &&& self.nominal_timers@.len() == spec_nominal_offset(
            self.spec_nominal_timer_variants(),
            NOMINAL_TIMER_COUNT as int,
        )
        &&& self.registered()
    }

    /// Each recorder was created by the registry for the metric (and the
    /// variant) that its position names.
    pub closed spec fn registered(&self) -> bool {
        &&& forall|i: int|
            0 <= i < COUNTER_COUNT ==> spec_counter_registered(
                self.registry,
                i as usize,
                #[trigger] self.counters@[i],
            )
        &&& forall|i: int|
            0 <= i < BOOL_COUNTER_COUNT ==> spec_bool_counter_registered(
                self.registry,
                i as usize,
                #[trigger] self.bool_counters@[i],
            )
        &&& forall|i: int|
            0 <= i < MEASURE_COUNT ==> spec_measure_registered(
                self.registry,
                i as usize,
                #[trigger] self.measures@[i],
            )
        &&& forall|i: int|
            0 <= i < TIMER_COUNT ==> spec_timer_registered(
                self.registry,
                i as usize,
                #[trigger] self.timers@[i],
            )
        &&& forall|k: int, j: int|
            0 <= k < NOMINAL_COUNTER_COUNT && 0 <= j < self.spec_nominal_variants()[k].len()
                ==> spec_nominal_counter_registered(
                self.registry,
                k as usize,
                self.spec_nominal_variants()[k][j],
                #[trigger] self.nominal_counters@[spec_nominal_offset(
                    self.spec_nominal_variants(),
                    k,
                ) + j],
            )
        &&& forall|k: int, j: int|
            0 <= k < NOMINAL_TIMER_COUNT && 0 <= j < self.spec_nominal_timer_variants()[k].len()
                ==> spec_nominal_timer_registered(
                self.registry,
                k as usize,
                self.spec_nominal_timer_variants()[k][j],
                #[trigger] self.nominal_timers@[spec_nominal_offset(
                    self.spec_nominal_timer_variants(),
                    k,
                ) + j],
            )
    }

    /// The variants of each nominal timer.
    pub closed spec fn spec_nominal_timer_variants(&self) -> Seq<Seq<Variant>> {
        self.nominal_timer_variants@.map_values(|v: Vec<Variant>| v@)
    }

    /// The recorders of the nominal timers, all variants one after the
    /// other.
    pub closed spec fn spec_nominal_timers(&self) -> Seq<R::NominalTimer> {
        self.nominal_timers@
    }

    /// The variants of each nominal counter.
    pub closed spec fn spec_nominal_variants(&self) -> Seq<Seq<Variant>> {
        self.nominal_variants@.map_values(|v: Vec<Variant>| v@)
    }

    /// The recorders of the nominal counters, all variants one after the
    /// other.
    pub closed spec fn spec_nominal_counters(&self) -> Seq<R::NominalCounter> {
        self.nominal_counters@
    }

    /// The counters, by position.
    pub closed spec fn spec_counters(&self) -> Seq<R::Counter> {
        self.counters@
    }

    /// The boolean counters, by position.
    pub closed spec fn spec_bool_counters(&self) -> Seq<R::BoolCounter> {
        self.bool_counters@
    }

    /// The measures, by position.
    pub closed spec fn spec_measures(&self) -> Seq<R::Measure> {
        self.measures@
    }

    /// The timers, by position.
    pub closed spec fn spec_timers(&self) -> Seq<R::Timer> {
        self.timers@
    }

    /// The registry the recorders came from.
    pub closed spec fn spec_registry(&self) -> R {
        self.registry
    }

    /// Creates a new subscriber with the given registry and the variants
    /// of each nominal counter and of each nominal timer, at least one for
    /// each. All of the recorders are registered on initialization, each
    /// for the metric that its position names (for a nominal counter, one
    /// for each of its variants, in the order given), and kept for the
    /// lifetime of the subscriber. The variants of each nominal metric are
    /// to be listed in the declaration order of its enum, which is the
    /// order in which the handlers number them.
    pub fn new(
        registry: R,
        nominal_variants: Vec<Vec<Variant>>,
        nominal_timer_variants: Vec<Vec<Variant>>,
    ) -> (s: Self)
        requires
            nominal_variants@.len() == NOMINAL_COUNTER_COUNT,
            forall|k: int| 0 <= k < NOMINAL_COUNTER_COUNT ==> (#[trigger] nominal_variants@[k])@.len() > 0,
            nominal_timer_variants@.len() == NOMINAL_TIMER_COUNT,
            forall|k: int|
                0 <= k < NOMINAL_TIMER_COUNT ==> (#[trigger] nominal_timer_variants@[k])@.len() > 0,
        ensures
            s.spec_nominal_timer_variants() == nominal_timer_variants@.map_values(
                |v: Vec<Variant>| v@,
            ),
            s.spec_nominal_timers().len() == spec_nominal_offset(
                s.spec_nominal_timer_variants(),
                NOMINAL_TIMER_COUNT as int,
            ),
            s.spec_nominal_variants() == nominal_variants@.map_values(|v: Vec<Variant>| v@),
            s.spec_nominal_counters().len() == spec_nominal_offset(
                s.spec_nominal_variants(),
                NOMINAL_COUNTER_COUNT as int,
            ),
            s.spec_registry() == registry,
            s.spec_counters().len() == COUNTER_COUNT,
            s.spec_bool_counters().len() == BOOL_COUNTER_COUNT,
            s.spec_measures().len() == MEASURE_COUNT,
            s.spec_timers().len() == TIMER_COUNT,
            forall|i: int|
                0 <= i < COUNTER_COUNT ==> spec_counter_registered(
                    registry,
                    i as usize,
                    #[trigger] s.spec_counters()[i],
                ),
            forall|i: int|
                0 <= i < BOOL_COUNTER_COUNT ==> spec_bool_counter_registered(
                    registry,
                    i as usize,
                    #[trigger] s.spec_bool_counters()[i],
                ),
            forall|i: int|
                0 <= i < MEASURE_COUNT ==> spec_measure_registered(
                    registry,
                    i as usize,
                    #[trigger] s.spec_measures()[i],
                ),
            forall|i: int|
                0 <= i < TIMER_COUNT ==> spec_timer_registered(
                    registry,
                    i as usize,
                    #[trigger] s.spec_timers()[i],
                ),
            forall|k: int, j: int|
                0 <= k < NOMINAL_COUNTER_COUNT && 0 <= j < s.spec_nominal_variants()[k].len()
                    ==> spec_nominal_counter_registered(
                    registry,
                    k as usize,
                    s.spec_nominal_variants()[k][j],
                    #[trigger] s.spec_nominal_counters()[spec_nominal_offset(
                        s.spec_nominal_variants(),
                        k,
                    ) + j],
                ),
            forall|k: int, j: int|
                0 <= k < NOMINAL_TIMER_COUNT && 0 <= j < s.spec_nominal_timer_variants()[k].len()
                    ==> spec_nominal_timer_registered(
                    registry,
                    k as usize,
                    s.spec_nominal_timer_variants()[k][j],
                    #[trigger] s.spec_nominal_timers()[spec_nominal_offset(
                        s.spec_nominal_timer_variants(),
                        k,
                    ) + j],
                ),
    {
        let mut counters: Vec<R::Counter> = Vec::new();
        let mut i: usize = 0;
        while i < COUNTER_COUNT
            invariant
                i <= COUNTER_COUNT,
                counters@.len() == i,
                forall|j: int| 0 <= j < i ==> spec_counter_registered(registry, j as usize, #[trigger] counters@[j]),
            decreases COUNTER_COUNT - i,
        {
            let info = info(counter_info(i));
            counters.push(registry.register_counter(&info));
            i = i + 1;
        }
        let mut bool_counters: Vec<R::BoolCounter> = Vec::new();
        let mut i: usize = 0;
        while i < BOOL_COUNTER_COUNT
            invariant
                i <= BOOL_COUNTER_COUNT,
                bool_counters@.len() == i,
                forall|j: int| 0 <= j < i ==> spec_bool_counter_registered(registry, j as usize, #[trigger] bool_counters@[j]),
            decreases BOOL_COUNTER_COUNT - i,
        {
            let info = info(bool_counter_info(i));
            bool_counters.push(registry.register_bool_counter(&info));
            i = i + 1;
        }
        let mut measures: Vec<R::Measure> = Vec::new();
        let mut i: usize = 0;
        while i < MEASURE_COUNT
            invariant
                i <= MEASURE_COUNT,
                measures@.len() == i,
                forall|j: int| 0 <= j < i ==> spec_measure_registered(registry, j as usize, #[trigger] measures@[j]),
            decreases MEASURE_COUNT - i,
        {
            let info = info(measure_info(i));
            measures.push(registry.register_measure(&info));
            i = i + 1;
        }
        let mut timers: Vec<R::Timer> = Vec::new();
        let mut i: usize = 0;
        while i < TIMER_COUNT
            invariant
                i <= TIMER_COUNT,
                timers@.len() == i,
                forall|j: int| 0 <= j < i ==> spec_timer_registered(registry, j as usize, #[trigger] timers@[j]),
            decreases TIMER_COUNT - i,
        {
            let info = info(timer_info(i));
            timers.push(registry.register_timer(&info));
            i = i + 1;
        }
        let ghost vs = nominal_variants@.map_values(|v: Vec<Variant>| v@);
        let mut nominal_counters: Vec<R::NominalCounter> = Vec::new();
        let mut nominal_counter_offsets: Vec<usize> = Vec::new();
        let mut k: usize = 0;
        while k < NOMINAL_COUNTER_COUNT
            invariant
                k <= NOMINAL_COUNTER_COUNT,
                nominal_variants@.len() == NOMINAL_COUNTER_COUNT,
                vs == nominal_variants@.map_values(|v: Vec<Variant>| v@),
                nominal_counter_offsets@.len() == k,
                forall|j: int|
                    0 <= j < k ==> #[trigger] nominal_counter_offsets@[j] == spec_nominal_offset(
                        vs,
                        j,
                    ),
                nominal_counters@.len() == spec_nominal_offset(vs, k as int),
                forall|k2: int, j: int|
                    0 <= k2 < k && 0 <= j < vs[k2].len() ==> spec_nominal_counter_registered(
                        registry,
                        k2 as usize,
                        vs[k2][j],
                        #[trigger] nominal_counters@[spec_nominal_offset(vs, k2) + j],
                    ),
            decreases NOMINAL_COUNTER_COUNT - k,
        {
            let offset = nominal_counters.len();
            nominal_counter_offsets.push(offset);
            let info = info(nominal_counter_info(k));
            let variants = &nominal_variants[k];
            assert(variants@ == vs[k as int]);
            let mut j: usize = 0;
            while j < variants.len()
                invariant
                    j <= variants@.len(),
                    variants@ == vs[k as int],
                    k < NOMINAL_COUNTER_COUNT,
                    spec_is_info(info, spec_nominal_counter_info(k)),
                    nominal_counters@.len() == spec_nominal_offset(vs, k as int) + j,
                    forall|k2: int, j2: int|
                        0 <= k2 < k && 0 <= j2 < vs[k2].len() ==> spec_nominal_counter_registered(
                            registry,
                            k2 as usize,
                            vs[k2][j2],
                            #[trigger] nominal_counters@[spec_nominal_offset(vs, k2) + j2],
                        ),
                    forall|j2: int|
                        0 <= j2 < j ==> spec_nominal_counter_registered(
                            registry,
                            k as usize,
                            vs[k as int][j2],
                            #[trigger] nominal_counters@[spec_nominal_offset(vs, k as int) + j2],
                        ),
                decreases variants@.len() - j,
            {
                let ghost before = nominal_counters@;
                let recorder = registry.register_nominal_counter(&info, &variants[j]);
                nominal_counters.push(recorder);
                proof {
                    assert forall|k2: int, j2: int|
                        0 <= k2 < k && 0 <= j2 < vs[k2].len() implies spec_nominal_counter_registered(
                        registry,
                        k2 as usize,
                        vs[k2][j2],
                        #[trigger] nominal_counters@[spec_nominal_offset(vs, k2) + j2],
                    ) by {
                        lemma_nominal_offset_monotonic(vs, k2 + 1, k as int);
                        lemma_nominal_offset_monotonic(vs, 0, k2);
                        assert(spec_nominal_offset(vs, k2 + 1) == spec_nominal_offset(vs, k2)
                            + vs[k2].len());
                        assert(nominal_counters@[spec_nominal_offset(vs, k2) + j2] == before[spec_nominal_offset(
                            vs,
                            k2,
                        ) + j2]);
                    }
                    assert forall|j2: int| 0 <= j2 < j + 1 implies spec_nominal_counter_registered(
                        registry,
                        k as usize,
                        vs[k as int][j2],
                        #[trigger] nominal_counters@[spec_nominal_offset(vs, k as int) + j2],
                    ) by {
                        lemma_nominal_offset_monotonic(vs, 0, k as int);
                        if j2 < j {
                            assert(nominal_counters@[spec_nominal_offset(vs, k as int) + j2]
                                == before[spec_nominal_offset(vs, k as int) + j2]);
                        } else {
                            assert(nominal_counters@[spec_nominal_offset(vs, k as int) + j2] == recorder);
                            assert(variants@[j2] == vs[k as int][j2]);
                        }
                    }
                }
                j = j + 1;
            }
            k = k + 1;
        }
        let ghost tvs = nominal_timer_variants@.map_values(|v: Vec<Variant>| v@);
        let mut nominal_timers: Vec<R::NominalTimer> = Vec::new();
        let mut nominal_timer_offsets: Vec<usize> = Vec::new();
        let mut k: usize = 0;
        while k < NOMINAL_TIMER_COUNT
            invariant
                k <= NOMINAL_TIMER_COUNT,
                nominal_timer_variants@.len() == NOMINAL_TIMER_COUNT,
                tvs == nominal_timer_variants@.map_values(|v: Vec<Variant>| v@),
                nominal_timer_offsets@.len() == k,
                forall|j: int|
                    0 <= j < k ==> #[trigger] nominal_timer_offsets@[j] == spec_nominal_offset(
                        tvs,
                        j,
                    ),
                nominal_timers@.len() == spec_nominal_offset(tvs, k as int),
                forall|k2: int, j: int|
                    0 <= k2 < k && 0 <= j < tvs[k2].len() ==> spec_nominal_timer_registered(
                        registry,
                        k2 as usize,
                        tvs[k2][j],
                        #[trigger] nominal_timers@[spec_nominal_offset(tvs, k2) + j],
                    ),
            decreases NOMINAL_TIMER_COUNT - k,
        {
            let offset = nominal_timers.len();
            nominal_timer_offsets.push(offset);
            let info = info(nominal_timer_info(k));
            let variants = &nominal_timer_variants[k];
            assert(variants@ == tvs[k as int]);
            let mut j: usize = 0;
            while j < variants.len()
                invariant
                    j <= variants@.len(),
                    variants@ == tvs[k as int],
                    k < NOMINAL_TIMER_COUNT,
                    spec_is_info(info, spec_nominal_timer_info(k)),
                    nominal_timers@.len() == spec_nominal_offset(tvs, k as int) + j,
                    forall|k2: int, j2: int|
                        0 <= k2 < k && 0 <= j2 < tvs[k2].len() ==> spec_nominal_timer_registered(
                            registry,
                            k2 as usize,
                            tvs[k2][j2],
                            #[trigger] nominal_timers@[spec_nominal_offset(tvs, k2) + j2],
                        ),
                    forall|j2: int|
                        0 <= j2 < j ==> spec_nominal_timer_registered(
                            registry,
                            k as usize,
                            tvs[k as int][j2],
                            #[trigger] nominal_timers@[spec_nominal_offset(tvs, k as int) + j2],
                        ),
                decreases variants@.len() - j,
            {
                let ghost before = nominal_timers@;
                let recorder = registry.register_nominal_timer(&info, &variants[j]);
                nominal_timers.push(recorder);
                proof {
                    assert forall|k2: int, j2: int|
                        0 <= k2 < k && 0 <= j2 < tvs[k2].len() implies spec_nominal_timer_registered(
                        registry,
                        k2 as usize,
                        tvs[k2][j2],
                        #[trigger] nominal_timers@[spec_nominal_offset(tvs, k2) + j2],
                    ) by {
                        lemma_nominal_offset_monotonic(tvs, k2 + 1, k as int);
                        lemma_nominal_offset_monotonic(tvs, 0, k2);
                        assert(spec_nominal_offset(tvs, k2 + 1) == spec_nominal_offset(tvs, k2)
                            + tvs[k2].len());
                        assert(nominal_timers@[spec_nominal_offset(tvs, k2) + j2] == before[spec_nominal_offset(
                            tvs,
                            k2,
                        ) + j2]);
                    }
                    assert forall|j2: int| 0 <= j2 < j + 1 implies spec_nominal_timer_registered(
                        registry,
                        k as usize,
                        tvs[k as int][j2],
                        #[trigger] nominal_timers@[spec_nominal_offset(tvs, k as int) + j2],
                    ) by {
                        if j2 < j {
                            lemma_nominal_offset_monotonic(vs, 0, k as int);
                            assert(nominal_timers@[spec_nominal_offset(tvs, k as int) + j2]
                                == before[spec_nominal_offset(tvs, k as int) + j2]);
                        }
                    }
                }
                j = j + 1;
            }
            k = k + 1;
        }
        Subscriber {
            counters,
            bool_counters,
            measures,
            timers,
            nominal_counters,
            nominal_counter_offsets,
            nominal_variants,
            nominal_timers,
            nominal_timer_offsets,
            nominal_timer_variants,
            registry,
        }
    }

    /// Returns all of the registered nominal counters: for each, the
    /// description of its metric, its recorders and its variants, recorder
    /// `i` being the one for variant `i`.
    pub fn nominal_counters(&self) -> (r: Vec<(Info, &[R::NominalCounter], &[Variant])>)
        ensures
            r@.len() == NOMINAL_COUNTER_COUNT,
            forall|k: int|
                0 <= k < NOMINAL_COUNTER_COUNT ==> {
                    let off = spec_nominal_offset(self.spec_nominal_variants(), k);
                    &&& spec_is_info((#[trigger] r@[k]).0, spec_nominal_counter_info(k as usize))
                    &&& r@[k].1@ == self.spec_nominal_counters().subrange(
                        off,
                        off + self.spec_nominal_variants()[k].len(),
                    )
                    &&& r@[k].2@ == self.spec_nominal_variants()[k]
                },
            forall|k: int, j: int|
                0 <= k < r@.len() && 0 <= j < r@[k].1@.len() ==> spec_nominal_counter_registered(
                    self.spec_registry(),
                    k as usize,
                    r@[k].2@[j],
                    #[trigger] r@[k].1@[j],
                ),
    {
        proof {
            use_type_invariant(self);
        }
        let ghost vs = self.spec_nominal_variants();
        let mut r: Vec<(Info, &[R::NominalCounter], &[Variant])> = Vec::new();
        let mut k: usize = 0;
        while k < NOMINAL_COUNTER_COUNT
            invariant
                k <= NOMINAL_COUNTER_COUNT,
                vs == self.spec_nominal_variants(),
                vs.len() == NOMINAL_COUNTER_COUNT,
                self.nominal_variants@.len() == NOMINAL_COUNTER_COUNT,
                self.nominal_counter_offsets@.len() == NOMINAL_COUNTER_COUNT,
                forall|j: int|
                    0 <= j < NOMINAL_COUNTER_COUNT ==> #[trigger] self.nominal_counter_offsets@[j]
                        == spec_nominal_offset(vs, j),
                self.nominal_counters@.len() == spec_nominal_offset(
                    vs,
                    NOMINAL_COUNTER_COUNT as int,
                ),
                r@.len() == k,
                forall|j: int|
                    0 <= j < k ==> {
                        let off = spec_nominal_offset(vs, j);
                        &&& spec_is_info((#[trigger] r@[j]).0, spec_nominal_counter_info(j as usize))
                        &&& r@[j].1@ == self.nominal_counters@.subrange(off, off + vs[j].len())
                        &&& r@[j].2@ == vs[j]
                    },
            decreases NOMINAL_COUNTER_COUNT - k,
        {
            let offset = self.nominal_counter_offsets[k];
            let variants = self.nominal_variants[k].as_slice();
            proof {
                assert(vs[k as int] == self.nominal_variants@[k as int]@);
                lemma_nominal_offset_monotonic(vs, k as int + 1, NOMINAL_COUNTER_COUNT as int);
            }
            let (_, tail) = self.nominal_counters.as_slice().split_at(offset);
            let (entries, _) = tail.split_at(variants.len());
            assert(entries@ =~= self.nominal_counters@.subrange(
                offset as int,
                offset + vs[k as int].len(),
            ));
            r.push((info(nominal_counter_info(k)), entries, variants));
            k = k + 1;
        }
        proof {
            assert forall|k: int, j: int|
                0 <= k < r@.len() && 0 <= j < r@[k].1@.len() implies spec_nominal_counter_registered(
                self.spec_registry(),
                k as usize,
                r@[k].2@[j],
                #[trigger] r@[k].1@[j],
            ) by {
                let off = spec_nominal_offset(vs, k);
                lemma_nominal_offset_monotonic(vs, 0, k);
                lemma_nominal_offset_monotonic(vs, k + 1, NOMINAL_COUNTER_COUNT as int);
                assert(spec_nominal_offset(vs, k + 1) == off + vs[k].len());
                assert(r@[k].1@ == self.nominal_counters@.subrange(off, off + vs[k].len()));
                assert(r@[k].1@[j] == self.nominal_counters@[off + j]);
                assert(r@[k].2@[j] == vs[k][j]);
            }
        }
        r
    }

    /// Counts one occurrence of variant `variant` of nominal counter `k`.
    pub fn count_nominal(&self, k: usize, variant: usize)
        requires
            k < NOMINAL_COUNTER_COUNT,
            variant < self.spec_nominal_variants()[k as int].len(),
        ensures
            self.spec_recorded(Record::CountNominal { counter: k, variant }),
    {
        proof {
            use_type_invariant(self);
            let vs = self.spec_nominal_variants();
            assert(vs[k as int] == self.nominal_variants@[k as int]@);
            lemma_nominal_offset_monotonic(vs, k as int + 1, NOMINAL_COUNTER_COUNT as int);
            assert(self.nominal_counter_offsets@[k as int] == spec_nominal_offset(vs, k as int));
            assert(spec_nominal_offset(vs, k as int + 1) == spec_nominal_offset(vs, k as int)
                + vs[k as int].len());
        }
        let _total = self.nominal_counters.len();
        let info = info(nominal_counter_info(k));
        let idx = self.nominal_counter_offsets[k] + variant;
        self.nominal_counters[idx].record_u64(&info, &self.nominal_variants[k][variant], 1);
    }

    /// Returns all of the registered nominal timers: for each, the
    /// description of its metric, its recorders and its variants, recorder
    /// `i` being the one for variant `i`.
    pub fn nominal_timers(&self) -> (r: Vec<(Info, &[R::NominalTimer], &[Variant])>)
        ensures
            r@.len() == NOMINAL_TIMER_COUNT,
            forall|k: int|
                0 <= k < NOMINAL_TIMER_COUNT ==> {
                    let off = spec_nominal_offset(self.spec_nominal_timer_variants(), k);
                    &&& spec_is_info((#[trigger] r@[k]).0, spec_nominal_timer_info(k as usize))
                    &&& r@[k].1@ == self.spec_nominal_timers().subrange(
                        off,
                        off + self.spec_nominal_timer_variants()[k].len(),
                    )
                    &&& r@[k].2@ == self.spec_nominal_timer_variants()[k]
                },
            forall|k: int, j: int|
                0 <= k < r@.len() && 0 <= j < r@[k].1@.len() ==> spec_nominal_timer_registered(
                    self.spec_registry(),
                    k as usize,
                    r@[k].2@[j],
                    #[trigger] r@[k].1@[j],
                ),
    {
        proof {
            use_type_invariant(self);
        }
        let ghost vs = self.spec_nominal_timer_variants();
        let mut r: Vec<(Info, &[R::NominalTimer], &[Variant])> = Vec::new();
        let mut k: usize = 0;
        while k < NOMINAL_TIMER_COUNT
            invariant
                k <= NOMINAL_TIMER_COUNT,
                vs == self.spec_nominal_timer_variants(),
                vs.len() == NOMINAL_TIMER_COUNT,
                self.nominal_timer_variants@.len() == NOMINAL_TIMER_COUNT,
                self.nominal_timer_offsets@.len() == NOMINAL_TIMER_COUNT,
                forall|j: int|
                    0 <= j < NOMINAL_TIMER_COUNT ==> #[trigger] self.nominal_timer_offsets@[j]
                        == spec_nominal_offset(vs, j),
                self.nominal_timers@.len() == spec_nominal_offset(
                    vs,
                    NOMINAL_TIMER_COUNT as int,
                ),
                r@.len() == k,
                forall|j: int|
                    0 <= j < k ==> {
                        let off = spec_nominal_offset(vs, j);
                        &&& spec_is_info((#[trigger] r@[j]).0, spec_nominal_timer_info(j as usize))
                        &&& r@[j].1@ == self.nominal_timers@.subrange(off, off + vs[j].len())
                        &&& r@[j].2@ == vs[j]
                    },
            decreases NOMINAL_TIMER_COUNT - k,
        {
            let offset = self.nominal_timer_offsets[k];
            let variants = self.nominal_timer_variants[k].as_slice();
            proof {
                assert(vs[k as int] == self.nominal_timer_variants@[k as int]@);
                lemma_nominal_offset_monotonic(vs, k as int + 1, NOMINAL_TIMER_COUNT as int);
            }
            let (_, tail) = self.nominal_timers.as_slice().split_at(offset);
            let (entries, _) = tail.split_at(variants.len());
            assert(entries@ =~= self.nominal_timers@.subrange(
                offset as int,
                offset + vs[k as int].len(),
            ));
            r.push((info(nominal_timer_info(k)), entries, variants));
            k = k + 1;
        }
        proof {
            assert forall|k: int, j: int|
                0 <= k < r@.len() && 0 <= j < r@[k].1@.len() implies spec_nominal_timer_registered(
                self.spec_registry(),
                k as usize,
                r@[k].2@[j],
                #[trigger] r@[k].1@[j],
            ) by {
                let off = spec_nominal_offset(vs, k);
                lemma_nominal_offset_monotonic(vs, 0, k);
                lemma_nominal_offset_monotonic(vs, k + 1, NOMINAL_TIMER_COUNT as int);
                assert(spec_nominal_offset(vs, k + 1) == off + vs[k].len());
                assert(r@[k].1@ == self.nominal_timers@.subrange(off, off + vs[k].len()));
                assert(r@[k].1@[j] == self.nominal_timers@[off + j]);
                assert(r@[k].2@[j] == vs[k][j]);
            }
        }
        r
    }

    /// Times, with `value`, one occurrence of variant `variant` of nominal
    /// timer `k`.
    pub fn time_nominal(&self, k: usize, variant: usize, value: Duration)
        requires
            k < NOMINAL_TIMER_COUNT,
            variant < self.spec_nominal_timer_variants()[k as int].len(),
        ensures
            self.spec_recorded(Record::TimeNominal { timer: k, variant, value }),
    {
        proof {
            use_type_invariant(self);
            let vs = self.spec_nominal_timer_variants();
            assert(vs[k as int] == self.nominal_timer_variants@[k as int]@);
            lemma_nominal_offset_monotonic(vs, k as int + 1, NOMINAL_TIMER_COUNT as int);
            assert(self.nominal_timer_offsets@[k as int] == spec_nominal_offset(vs, k as int));
            assert(spec_nominal_offset(vs, k as int + 1) == spec_nominal_offset(vs, k as int)
                + vs[k as int].len());
        }
        let _total = self.nominal_timers.len();
        let info = info(nominal_timer_info(k));
        let idx = self.nominal_timer_offsets[k] + variant;
        assert(idx == spec_nominal_offset(self.spec_nominal_timer_variants(), k as int) + variant);
        self.nominal_timers[idx].record_duration(&info, &self.nominal_timer_variants[k][variant], value);
        let ghost rec = Record::TimeNominal { timer: k, variant, value };
        assert(rec matches Record::TimeNominal { timer, variant: v, value: d } && timer == k && v
            == variant && d == value);
        assert(exists|inf: Info|
                spec_is_info(inf, spec_nominal_timer_info(k)) && #[trigger] call_ensures(
                    <R::NominalTimer as NominalRecorder>::record_duration,
                    (
                        &self.spec_nominal_timers()[spec_nominal_offset(
                            self.spec_nominal_timer_variants(),
                            k as int,
                        ) + variant],
                        &inf,
                        &self.spec_nominal_timer_variants()[k as int][variant as int],
                        value,
                    ),
                    (),
                ));
        assert(self.spec_recorded(rec));
    }

    /// Returns all of the registered counters, each with the description of
    /// its metric.
    pub fn counters(&self) -> (r: Vec<(Info, &R::Counter)>)
        ensures
            r@.len() == COUNTER_COUNT,
            forall|i: int|
                0 <= i < COUNTER_COUNT ==> spec_is_info(
                    (#[trigger] r@[i]).0,
                    spec_counter_info(i as usize),
                ) && *r@[i].1 == self.spec_counters()[i] && spec_counter_registered(
                    self.spec_registry(),
                    i as usize,
                    *r@[i].1,
                ),
    {
        proof {
            use_type_invariant(self);
        }
        let mut r: Vec<(Info, &R::Counter)> = Vec::new();
        let mut i: usize = 0;
        while i < COUNTER_COUNT
            invariant
                i <= COUNTER_COUNT,
                self.counters@.len() == COUNTER_COUNT,
                r@.len() == i,
                forall|j: int|
                    0 <= j < i ==> spec_is_info((#[trigger] r@[j]).0, spec_counter_info(j as usize))
                        && *r@[j].1 == self.counters@[j],
            decreases COUNTER_COUNT - i,
        {
            r.push((info(counter_info(i)), &self.counters[i]));
            i = i + 1;
        }
        r
    }

    /// Returns all of the registered boolean counters, each with the
    /// description of its metric.
    pub fn bool_counters(&self) -> (r: Vec<(Info, &R::BoolCounter)>)
        ensures
            r@.len() == BOOL_COUNTER_COUNT,
            forall|i: int|
                0 <= i < BOOL_COUNTER_COUNT ==> spec_is_info(
                    (#[trigger] r@[i]).0,
                    spec_bool_counter_info(i as usize),
                ) && *r@[i].1 == self.spec_bool_counters()[i] && spec_bool_counter_registered(
                    self.spec_registry(),
                    i as usize,
                    *r@[i].1,
                ),
    {
        proof {
            use_type_invariant(self);
        }
        let mut r: Vec<(Info, &R::BoolCounter)> = Vec::new();
        let mut i: usize = 0;
        while i < BOOL_COUNTER_COUNT
            invariant
                i <= BOOL_COUNTER_COUNT,
                self.bool_counters@.len() == BOOL_COUNTER_COUNT,
                r@.len() == i,
                forall|j: int|
                    0 <= j < i ==> spec_is_info(
                        (#[trigger] r@[j]).0,
                        spec_bool_counter_info(j as usize),
                    ) && *r@[j].1 == self.bool_counters@[j],
            decreases BOOL_COUNTER_COUNT - i,
        {
            r.push((info(bool_counter_info(i)), &self.bool_counters[i]));
            i = i + 1;
        }
        r
    }

    /// Returns all of the registered measures, each with the description of
    /// its metric.
    pub fn measures(&self) -> (r: Vec<(Info, &R::Measure)>)
        ensures
            r@.len() == MEASURE_COUNT,
            forall|i: int|
                0 <= i < MEASURE_COUNT ==> spec_is_info(
                    (#[trigger] r@[i]).0,
                    spec_measure_info(i as usize),
                ) && *r@[i].1 == self.spec_measures()[i] && spec_measure_registered(
                    self.spec_registry(),
                    i as usize,
                    *r@[i].1,
                ),
    {
        proof {
            use_type_invariant(self);
        }
        let mut r: Vec<(Info, &R::Measure)> = Vec::new();
        let mut i: usize = 0;
        while i < MEASURE_COUNT
            invariant
                i <= MEASURE_COUNT,
                self.measures@.len() == MEASURE_COUNT,
                r@.len() == i,
                forall|j: int|
                    0 <= j < i ==> spec_is_info((#[trigger] r@[j]).0, spec_measure_info(j as usize))
                        && *r@[j].1 == self.measures@[j],
            decreases MEASURE_COUNT - i,
        {
            r.push((info(measure_info(i)), &self.measures[i]));
            i = i + 1;
        }
        r
    }

    /// Returns all of the registered timers, each with the description of
    /// its metric.
    pub fn timers(&self) -> (r: Vec<(Info, &R::Timer)>)
        ensures
            r@.len() == TIMER_COUNT,
            forall|i: int|
                0 <= i < TIMER_COUNT ==> spec_is_info(
                    (#[trigger] r@[i]).0,
                    spec_timer_info(i as usize),
                ) && *r@[i].1 == self.spec_timers()[i] && spec_timer_registered(
                    self.spec_registry(),
                    i as usize,
                    *r@[i].1,
                ),
    {
        proof {
            use_type_invariant(self);
        }
        let mut r: Vec<(Info, &R::Timer)> = Vec::new();
        let mut i: usize = 0;
        while i < TIMER_COUNT
            invariant
                i <= TIMER_COUNT,
                self.timers@.len() == TIMER_COUNT,
                r@.len() == i,
                forall|j: int|
                    0 <= j < i ==> spec_is_info((#[trigger] r@[j]).0, spec_timer_info(j as usize))
                        && *r@[j].1 == self.timers@[j],
            decreases TIMER_COUNT - i,
        {
            r.push((info(timer_info(i)), &self.timers[i]));
            i = i + 1;
        }
        r
    }

    /// The variant a nominal record names is one of its counter's.
    pub open spec fn spec_record_fits(&self, r: Record) -> bool {
        match r {
            Record::CountNominal { counter, variant } => variant
                < self.spec_nominal_variants()[counter as int].len(),
            Record::TimeNominal { timer, variant, .. } => variant
                < self.spec_nominal_timer_variants()[timer as int].len(),
            _ => true,
        }
    }

    /// The recorder that record `r` names was called with the record's
    /// value and the description of that recorder's metric (and, for a
    /// nominal record, its variant, with a count of one).
    pub open spec fn spec_recorded(&self, r: Record) -> bool {
        match r {
            Record::Count { counter, value } => exists|inf: Info|
                spec_is_info(inf, spec_counter_info(counter)) && #[trigger] call_ensures(
                    <R::Counter as Recorder>::record_u64,
                    (&self.spec_counters()[counter as int], &inf, value),
                    (),
                ),
            Record::CountBool { counter, value } => exists|inf: Info|
                spec_is_info(inf, spec_bool_counter_info(counter)) && #[trigger] call_ensures(
                    <R::BoolCounter as BoolRecorder>::record,
                    (&self.spec_bool_counters()[counter as int], &inf, value),
                    (),
                ),
            Record::Measure { measure, value } => exists|inf: Info|
                spec_is_info(inf, spec_measure_info(measure)) && #[trigger] call_ensures(
                    <R::Measure as Recorder>::record_u64,
                    (&self.spec_measures()[measure as int], &inf, value),
                    (),
                ),
            Record::Time { timer, value } => exists|inf: Info|
                spec_is_info(inf, spec_timer_info(timer)) && #[trigger] call_ensures(
                    <R::Timer as Recorder>::record_duration,
                    (&self.spec_timers()[timer as int], &inf, value),
                    (),
                ),
            Record::CountNominal { counter, variant } => exists|inf: Info|
                spec_is_info(inf, spec_nominal_counter_info(counter)) && #[trigger] call_ensures(
                    <R::NominalCounter as NominalRecorder>::record_u64,
                    (
                        &self.spec_nominal_counters()[spec_nominal_offset(
                            self.spec_nominal_variants(),
                            counter as int,
                        ) + variant],
                        &inf,
                        &self.spec_nominal_variants()[counter as int][variant as int],
                        1u64,
                    ),
                    (),
                ),
            Record::TimeNominal { timer, variant, value } => exists|inf: Info|
                spec_is_info(inf, spec_nominal_timer_info(timer)) && #[trigger] call_ensures(
                    <R::NominalTimer as NominalRecorder>::record_duration,
                    (
                        &self.spec_nominal_timers()[spec_nominal_offset(
                            self.spec_nominal_timer_variants(),
                            timer as int,
                        ) + variant],
                        &inf,
                        &self.spec_nominal_timer_variants()[timer as int][variant as int],
                        value,
                    ),
                    (),
                ),
        }
    }

    /// Hands the value of a record to the recorder it names, with the
    /// description of that recorder's metric; a nominal record counts one
    /// occurrence of its variant.
    pub fn record(&self, r: Record)
        requires
            spec_record_valid(r),
            self.spec_record_fits(r),
        ensures
            self.spec_recorded(r),
    {
        proof {
            use_type_invariant(self);
        }
        match r {
            Record::Count { counter, value } => {
                let info = info(counter_info(counter));
                self.counters[counter].record_u64(&info, value);
            },
            Record::CountBool { counter, value } => {
                let info = info(bool_counter_info(counter));
                self.bool_counters[counter].record(&info, value);
            },
            Record::Measure { measure, value } => {
                let info = info(measure_info(measure));
                self.measures[measure].record_u64(&info, value);
            },
            Record::Time { timer, value } => {
                let info = info(timer_info(timer));
                self.timers[timer].record_duration(&info, value);
            },
            Record::CountNominal { counter, variant } => {
                self.count_nominal(counter, variant);
            },
            Record::TimeNominal { timer, variant, value } => {
                self.time_nominal(timer, variant, value);
            },
        }
    }

    /// Hands each record, in order, to the recorder it names.
    pub fn record_all(&self, records: &Vec<Record>)
        requires
            forall|i: int|
                0 <= i < records@.len() ==> spec_record_valid(#[trigger] records@[i])
                    && self.spec_record_fits(records@[i]),
        ensures
            forall|i: int| 0 <= i < records@.len() ==> self.spec_recorded(#[trigger] records@[i]),
    {
        let mut i: usize = 0;
        while i < records.len()
            invariant
                i <= records@.len(),
                forall|j: int|
                    0 <= j < records@.len() ==> spec_record_valid(#[trigger] records@[j])
                        && self.spec_record_fits(records@[j]),
                forall|j: int| 0 <= j < i ==> self.spec_recorded(#[trigger] records@[j]),
            decreases records@.len() - i,
        {
            self.record(records[i]);
            i = i + 1;
        }
    }
}

} // verus!
