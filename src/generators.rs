//! The standard generators and combinators.
use vstd::prelude::*;
use vstd::arithmetic::div_mod::lemma_add_mod_noop_right;
use crate::generator::{
    Generator, Duplicate, advanced, outputs, take, lemma_prefix, lemma_step, lemma_split,
};

verus! {

/// A number that can be counted up by one.
///
/// `step` adds one; at the largest value of the type it wraps around to
/// the smallest one.
pub trait Step: Copy + DeepView<V = Self> {
    /// The number as a mathematical integer.
    spec fn as_int(self) -> int;

    /// The largest value of the type.
    spec fn top() -> int;

    /// The value that `step` returns.
    spec fn spec_step(self) -> Self;

    /// A number is its own deep view.
    proof fn lemma_deep_view_is_self(x: Self)
        ensures
            x.deep_view() == x,
    ;

    /// Below the largest value, `step` adds exactly one.
    proof fn lemma_step_adds_one(x: Self)
        ensures
            x.as_int() <= Self::top(),
            x.as_int() < Self::top() ==> x.spec_step().as_int() == x.as_int() + 1,
    ;

    fn step(&self) -> (r: Self)
        ensures
            r == self.spec_step(),
    ;
}

impl Step for i32 {
    open spec fn as_int(self) -> int {
        self as int
    }

    open spec fn top() -> int {
        i32::MAX as int
    }

    open spec fn spec_step(self) -> Self {
        if self == i32::MAX {
            i32::MIN
        } else {
            (self + 1) as i32
        }
    }

    proof fn lemma_deep_view_is_self(x: Self) {
    }

    proof fn lemma_step_adds_one(x: Self) {
    }

    fn step(&self) -> (r: Self) {
        if *self == i32::MAX {
            i32::MIN
        } else {
            *self + 1
        }
    }
}

impl Step for i64 {
    open spec fn as_int(self) -> int {
        self as int
    }

    open spec fn top() -> int {
        i64::MAX as int
    }

    open spec fn spec_step(self) -> Self {
        if self == i64::MAX {
            i64::MIN
        } else {
            (self + 1) as i64
        }
    }

    proof fn lemma_deep_view_is_self(x: Self) {
    }

    proof fn lemma_step_adds_one(x: Self) {
    }

    fn step(&self) -> (r: Self) {
        if *self == i64::MAX {
            i64::MIN
        } else {
            *self + 1
        }
    }
}

impl Step for u32 {
    open spec fn as_int(self) -> int {
        self as int
    }

    open spec fn top() -> int {
        u32::MAX as int
    }

    open spec fn spec_step(self) -> Self {
        if self == u32::MAX {
            0
        } else {
            (self + 1) as u32
        }
    }

    proof fn lemma_deep_view_is_self(x: Self) {
    }

    proof fn lemma_step_adds_one(x: Self) {
    }

    fn step(&self) -> (r: Self) {
        if *self == u32::MAX {
            0
        } else {
            *self + 1
        }
    }
}

impl Step for u64 {
    open spec fn as_int(self) -> int {
        self as int
    }

    open spec fn top() -> int {
        u64::MAX as int
    }

    open spec fn spec_step(self) -> Self {
        if self == u64::MAX {
            0
        } else {
            (self + 1) as u64
        }
    }

    proof fn lemma_deep_view_is_self(x: Self) {
    }

    proof fn lemma_step_adds_one(x: Self) {
    }

    fn step(&self) -> (r: Self) {
        if *self == u64::MAX {
            0
        } else {
            *self + 1
        }
    }
}

impl Step for usize {
    open spec fn as_int(self) -> int {
        self as int
    }

    open spec fn top() -> int {
        usize::MAX as int
    }

    open spec fn spec_step(self) -> Self {
        if self == usize::MAX {
            0
        } else {
            (self + 1) as usize
        }
    }

    proof fn lemma_deep_view_is_self(x: Self) {
    }

    proof fn lemma_step_adds_one(x: Self) {
    }

    fn step(&self) -> (r: Self) {
        if *self == usize::MAX {
            0
        } else {
            *self + 1
        }
    }
}

impl Step for i8 {
    open spec fn as_int(self) -> int {
        self as int
    }

    open spec fn top() -> int {
        i8::MAX as int
    }

    open spec fn spec_step(self) -> Self {
        if self == i8::MAX {
            i8::MIN
        } else {
            (self + 1) as i8
        }
    }

    proof fn lemma_deep_view_is_self(x: Self) {
    }

    proof fn lemma_step_adds_one(x: Self) {
    }

    fn step(&self) -> (r: Self) {
        if *self == i8::MAX {
            i8::MIN
        } else {
            *self + 1
        }
    }
}

impl Step for i16 {
    open spec fn as_int(self) -> int {
        self as int
    }

    open spec fn top() -> int {
        i16::MAX as int
    }

    open spec fn spec_step(self) -> Self {
        if self == i16::MAX {
            i16::MIN
        } else {
            (self + 1) as i16
        }
    }

    proof fn lemma_deep_view_is_self(x: Self) {
    }

    proof fn lemma_step_adds_one(x: Self) {
    }

    fn step(&self) -> (r: Self) {
        if *self == i16::MAX {
            i16::MIN
        } else {
            *self + 1
        }
    }
}

impl Step for i128 {
    open spec fn as_int(self) -> int {
        self as int
    }

    open spec fn top() -> int {
        i128::MAX as int
    }

    open spec fn spec_step(self) -> Self {
        if self == i128::MAX {
            i128::MIN
        } else {
            (self + 1) as i128
        }
    }

    proof fn lemma_deep_view_is_self(x: Self) {
    }

    proof fn lemma_step_adds_one(x: Self) {
    }

    fn step(&self) -> (r: Self) {
        if *self == i128::MAX {
            i128::MIN
        } else {
            *self + 1
        }
    }
}

impl Step for isize {
    open spec fn as_int(self) -> int {
        self as int
    }

    open spec fn top() -> int {
        isize::MAX as int
    }

    open spec fn spec_step(self) -> Self {
        if self == isize::MAX {
            isize::MIN
        } else {
            (self + 1) as isize
        }
    }

    proof fn lemma_deep_view_is_self(x: Self) {
    }

    proof fn lemma_step_adds_one(x: Self) {
    }

    fn step(&self) -> (r: Self) {
        if *self == isize::MAX {
            isize::MIN
        } else {
            *self + 1
        }
    }
}

impl Step for u8 {
    open spec fn as_int(self) -> int {
        self as int
    }

    open spec fn top() -> int {
        u8::MAX as int
    }

    open spec fn spec_step(self) -> Self {
        if self == u8::MAX {
            u8::MIN
        } else {
            (self + 1) as u8
        }
    }

    proof fn lemma_deep_view_is_self(x: Self) {
    }

    proof fn lemma_step_adds_one(x: Self) {
    }

    fn step(&self) -> (r: Self) {
        if *self == u8::MAX {
            u8::MIN
        } else {
            *self + 1
        }
    }
}

impl Step for u16 {
    open spec fn as_int(self) -> int {
        self as int
    }

    open spec fn top() -> int {
        u16::MAX as int
    }

    open spec fn spec_step(self) -> Self {
        if self == u16::MAX {
            u16::MIN
        } else {
            (self + 1) as u16
        }
    }

    proof fn lemma_deep_view_is_self(x: Self) {
    }

    proof fn lemma_step_adds_one(x: Self) {
    }

    fn step(&self) -> (r: Self) {
        if *self == u16::MAX {
            u16::MIN
        } else {
            *self + 1
        }
    }
}

impl Step for u128 {
    open spec fn as_int(self) -> int {
        self as int
    }

    open spec fn top() -> int {
        u128::MAX as int
    }

    open spec fn spec_step(self) -> Self {
        if self == u128::MAX {
            u128::MIN
        } else {
            (self + 1) as u128
        }
    }

    proof fn lemma_deep_view_is_self(x: Self) {
    }

    proof fn lemma_step_adds_one(x: Self) {
    }

    fn step(&self) -> (r: Self) {
        if *self == u128::MAX {
            u128::MIN
        } else {
            *self + 1
        }
    }
}

/// Returns the same value every time.
#[derive(Clone)]
pub struct Const<T>(pub T);

impl<T> Const<T> {
    pub fn new(value: T) -> (r: Self)
        ensures
            r.0 == value,
    {
        Const(value)
    }
}

impl<T: Duplicate + DeepView> Generator for Const<T> {
    type Output = T;

    open spec fn wf(&self) -> bool {
        true
    }

    open spec fn next_output(&self) -> T::V {
        self.0.deep_view()
    }

    open spec fn next_state(&self) -> Self {
        *self
    }

    fn generate(&mut self) -> (r: T) {
        self.0.duplicate()
    }
}

/// Each result is one larger than the previous one.
///
/// The counter never stops: at the largest value of its type it wraps
/// around to the smallest (see `Step`), a deliberate choice so that every
/// state has a next value. `lemma_inc_counts_up` states `v, v + 1, v + 2,
/// ...` for every run that stays within the type's range.
#[derive(Clone)]
pub struct Inc<T>(pub T);

impl<T: Step> Generator for Inc<T> {
    type Output = T;

    open spec fn wf(&self) -> bool {
        true
    }

    open spec fn next_output(&self) -> T {
        self.0
    }

    open spec fn next_state(&self) -> Self {
        Inc(self.0.spec_step())
    }

    fn generate(&mut self) -> (r: T) {
        let res = self.0;
        proof {
            T::lemma_deep_view_is_self(res);
        }
        self.0 = self.0.step();
        res
    }
}

/// After `k` calls an `Inc` holds its start value plus `k`, as long as
/// that does not pass the largest value of the type.
proof fn lemma_inc_advanced<T: Step>(v: T, k: nat)
    requires
        v.as_int() + k <= T::top(),
    ensures
        advanced(Inc(v), k).0.as_int() == v.as_int() + k,
    decreases k,
{
    if k > 0 {
        lemma_inc_advanced(v, (k - 1) as nat);
        lemma_step(Inc(v), (k - 1) as nat);
        T::lemma_step_adds_one(advanced(Inc(v), (k - 1) as nat).0);
    }
}

/// `Inc(v)` yields `v, v + 1, v + 2, ...`: the `k`-th of its first `n`
/// values is `v + k`, for every `n` that stays within the type's range.
pub proof fn lemma_inc_counts_up<T: Step>(v: T, n: nat)
    requires
        v.as_int() + n <= T::top() + 1,
    ensures
        outputs(Inc(v), n).len() == n,
        forall|k: int| 0 <= k < n ==> (#[trigger] outputs(Inc(v), n)[k]).as_int() == v.as_int() + k,
{
    lemma_step(Inc(v), n);
    assert forall|k: int| 0 <= k < n implies (#[trigger] outputs(Inc(v), n)[k]).as_int()
        == v.as_int() + k by {
        lemma_prefix(Inc(v), k as nat, n);
        lemma_step(Inc(v), k as nat);
        lemma_inc_advanced(v, k as nat);
    }
}

/// Recycles a fixed base collection.
///
/// The base may be empty when the generator is made, but `generate` asks
/// for a non-empty one (`wf`): an empty base has no next value.
#[derive(Clone)]
pub struct Repeat<T> {
    base: Vec<T>,
    index: usize,
}

impl<T> Repeat<T> {
    /// The base collection.
    pub closed spec fn base(&self) -> Seq<T> {
        self.base@
    }

    /// The position of the next value in the base collection.
    pub closed spec fn index(&self) -> nat {
        self.index as nat
    }

    pub fn new(base: Vec<T>) -> (r: Self)
        ensures
            r.base() == base@,
            r.index() == 0,
    {
        Repeat { base, index: 0 }
    }
}

impl<T: Duplicate + DeepView> Generator for Repeat<T> {
    type Output = T;

    open spec fn wf(&self) -> bool {
        self.base().len() > 0 && self.index() < self.base().len()
    }

    closed spec fn next_output(&self) -> T::V {
        self.base@[self.index as int].deep_view()
    }

    closed spec fn next_state(&self) -> Self {
        Repeat { base: self.base, index: ((self.index + 1) % (self.base@.len() as int)) as usize }
    }

    fn generate(&mut self) -> (r: T) {
        let len = self.base.len();
        let res = self.base[self.index].duplicate();
        self.index = (self.index + 1) % len;
        res
    }
}

/// One call of a `Repeat` returns `base[index]` and moves the index on by
/// one, back to 0 after the last element; the base is kept.
pub proof fn lemma_repeat_step<T: Duplicate + DeepView>(r: Repeat<T>)
    requires
        r.wf(),
    ensures
        r.next_output() == r.base()[r.index() as int].deep_view(),
        r.next_state().base() == r.base(),
        r.next_state().index() == (r.index() + 1) % r.base().len(),
        r.next_state().wf(),
{
    assert(r.base@.len() <= usize::MAX) by {
        vstd::std_specs::vec::axiom_spec_len(&r.base);
    }
}

proof fn lemma_repeat_advanced<T: Duplicate + DeepView>(r: Repeat<T>, k: nat)
    requires
        r.wf(),
        r.index() == 0,
    ensures
        advanced(r, k).wf(),
        advanced(r, k).base() == r.base(),
        advanced(r, k).index() == k % r.base().len(),
    decreases k,
{
    let len = r.base().len();
    if k > 0 {
        lemma_repeat_advanced(r, (k - 1) as nat);
        lemma_step(r, (k - 1) as nat);
        let prev = advanced(r, (k - 1) as nat);
        assert(prev.base@.len() <= usize::MAX) by {
            vstd::std_specs::vec::axiom_spec_len(&prev.base);
        }
        assert(advanced(r, k).index() == (prev.index() + 1) % len);
        lemma_add_mod_noop_right(1, (k - 1) as int, len as int);
    } else {
        assert(0nat % len == 0);
    }
}

/// A new `Repeat` over a base of length `L` yields `base[0], base[1], ...,
/// base[L - 1], base[0], ...`: its `k`-th value is `base[k % L]`.
pub proof fn lemma_repeat_period<T: Duplicate + DeepView>(base: Seq<T>, r: Repeat<T>, n: nat)
    requires
        base.len() > 0,
        r.base() == base,
        r.index() == 0,
    ensures
        outputs(r, n).len() == n,
        forall|k: int|
            0 <= k < n ==> #[trigger] outputs(r, n)[k] == base[k % (base.len() as int)].deep_view(),
{
    lemma_step(r, n);
    assert forall|k: int| 0 <= k < n implies #[trigger] outputs(r, n)[k] == base[k
        % (base.len() as int)].deep_view() by {
        lemma_prefix(r, k as nat, n);
        lemma_repeat_advanced(r, k as nat);
    }
}

/// Yields the values of a collection in turn, starting again from the
/// first when it is exhausted.
///
/// `generate` asks for a non-empty collection (`wf`): an empty one has no
/// next value.
pub struct Cycle<T>(Repeat<T>);

impl<T> Cycle<T> {
    /// The collection that is cycled through.
    pub closed spec fn items(&self) -> Seq<T> {
        self.0.base()
    }

    /// The position of the next value in the collection.
    pub closed spec fn position(&self) -> nat {
        self.0.index()
    }

    pub fn new(items: Vec<T>) -> (r: Self)
        ensures
            r.items() == items@,
            r.position() == 0,
    {
        Cycle(Repeat::new(items))
    }
}

impl<T: Duplicate + DeepView> Generator for Cycle<T> {
    type Output = T;

    open spec fn wf(&self) -> bool {
        self.items().len() > 0 && self.position() < self.items().len()
    }

    closed spec fn next_output(&self) -> T::V {
        self.0.next_output()
    }

    closed spec fn next_state(&self) -> Self {
        Cycle(self.0.next_state())
    }

    fn generate(&mut self) -> (r: T) {
        self.0.generate()
    }
}

/// One call of a `Cycle` returns `items[position]` and moves the position
/// on by one, back to 0 after the last item; the items are kept.
pub proof fn lemma_cycle_step<T: Duplicate + DeepView>(c: Cycle<T>)
    requires
        c.wf(),
    ensures
        c.next_output() == c.items()[c.position() as int].deep_view(),
        c.next_state().items() == c.items(),
        c.next_state().position() == (c.position() + 1) % c.items().len(),
        c.next_state().wf(),
{
    lemma_repeat_step(c.0);
}

/// A `Cycle` over a collection of length `L` yields the same values as a
/// `Repeat` over it: its `k`-th value is `items[k % L]`.
pub proof fn lemma_cycle_period<T: Duplicate + DeepView>(items: Seq<T>, c: Cycle<T>, n: nat)
    requires
        items.len() > 0,
        c.items() == items,
        c.position() == 0,
    ensures
        outputs(c, n).len() == n,
        forall|k: int|
            0 <= k < n ==> #[trigger] outputs(c, n)[k] == items[k % (items.len() as int)].deep_view(),
{
    lemma_cycle_as_repeat(c, n);
    lemma_repeat_period(items, c.0, n);
}

proof fn lemma_cycle_as_repeat<T: Duplicate + DeepView>(c: Cycle<T>, n: nat)
    ensures
        outputs(c, n) == outputs(c.0, n),
        advanced(c, n).0 == advanced(c.0, n),
    decreases n,
{
    if n > 0 {
        lemma_cycle_as_repeat(c.next_state(), (n - 1) as nat);
    }
}

/// Wraps each value of another generator in `Option::Some`.
pub struct Optional<G>(pub G);

impl<G: Generator> Generator for Optional<G> {
    type Output = Option<G::Output>;

    open spec fn wf(&self) -> bool {
        self.0.wf()
    }

    open spec fn next_output(&self) -> Option<<G::Output as DeepView>::V> {
        Option::Some(self.0.next_output())
    }

    open spec fn next_state(&self) -> Self {
        Optional(self.0.next_state())
    }

    fn generate(&mut self) -> (r: Option<G::Output>) {
        Option::Some(self.0.generate())
    }
}

/// Produces collections from a pair of generators: one for the values
/// themselves, one for the size of each collection.
///
/// Both generators keep their state from one call to the next: a call
/// draws one count `n` and then the next `n` values.
pub struct Sample<T, U> {
    value: T,
    count: U,
}

impl<T, U> Sample<T, U> {
    /// The generator of the values.
    pub closed spec fn value(&self) -> T {
        self.value
    }

    /// The generator of the sizes.
    pub closed spec fn count(&self) -> U {
        self.count
    }

    pub fn new(value: T, count: U) -> (r: Self)
        ensures
            r.value() == value,
            r.count() == count,
    {
        Sample { value, count }
    }
}

impl<T: Generator, U: Generator<Output = usize>> Generator for Sample<T, U> {
    type Output = Vec<T::Output>;

    open spec fn wf(&self) -> bool {
        self.value().wf() && self.count().wf()
    }

    closed spec fn next_output(&self) -> Seq<<T::Output as DeepView>::V> {
        outputs(self.value, self.count.next_output() as nat)
    }

    closed spec fn next_state(&self) -> Self {
        Sample {
            value: advanced(self.value, self.count.next_output() as nat),
            count: self.count.next_state(),
        }
    }

    fn generate(&mut self) -> (r: Vec<T::Output>) {
        let n = self.count.generate();
        take(&mut self.value, n)
    }
}

/// One call of a `Sample` draws one count `n` and then the next `n` values
/// of the value generator, which is left advanced by exactly `n` calls
/// (unchanged when `n` is 0); the count generator advances by one call.
pub proof fn lemma_sample_step<T: Generator, U: Generator<Output = usize>>(s: Sample<T, U>)
    ensures
        s.next_output() == outputs(s.value(), s.count().next_output() as nat),
        s.next_state().value() == advanced(s.value(), s.count().next_output() as nat),
        s.next_state().count() == s.count().next_state(),
        s.count().next_output() == 0 ==> s.next_state().value() == s.value(),
        s.next_output().len() == s.count().next_output(),
{
    lemma_step(s.value, s.count.next_output() as nat);
}

/// Two successive calls of a `Sample` continue one another: what they
/// return, joined, is what the value generator yields for the sum of the
/// two counts, and the value generator ends where those draws leave it.
pub proof fn lemma_sample_continuity<T: Generator, U: Generator<Output = usize>>(s: Sample<T, U>)
    ensures
        ({
            let n1 = s.count().next_output() as nat;
            let n2 = s.count().next_state().next_output() as nat;
            &&& s.next_output() + s.next_state().next_output() == outputs(s.value(), n1 + n2)
            &&& s.next_state().next_state().value() == advanced(s.value(), n1 + n2)
        }),
{
    let n1 = s.count.next_output() as nat;
    let n2 = s.count.next_state().next_output() as nat;
    lemma_split(s.value, n1, n2);
}

/// The sum of a sequence of counts.
pub open spec fn total(counts: Seq<usize>) -> nat
    decreases counts.len(),
{
    if counts.len() == 0 {
        0
    } else {
        counts[0] as nat + total(counts.drop_first())
    }
}

/// Any number of successive calls of a `Sample` continue one another:
/// the collections of its first `k` calls, joined, are the first `c0 + c1 +
/// ... + c(k-1)` values of the value generator, where `c0, c1, ...` are the
/// count generator's values, and the value generator is left advanced by
/// exactly that many calls.
pub proof fn lemma_sample_draws<T: Generator, U: Generator<Output = usize>>(
    s: Sample<T, U>,
    k: nat,
)
    ensures
        outputs(s, k).flatten() == outputs(s.value(), total(outputs(s.count(), k))),
        advanced(s, k).value() == advanced(s.value(), total(outputs(s.count(), k))),
    decreases k,
{
    if k == 0 {
        assert(outputs(s, 0).flatten() =~= Seq::empty());
        assert(outputs(s.count(), 0).len() == 0);
    } else {
        let n0 = s.count.next_output() as nat;
        let rest = s.next_state();
        lemma_sample_draws(rest, (k - 1) as nat);
        let counts = outputs(s.count, k);
        assert(counts.drop_first() =~= outputs(s.count.next_state(), (k - 1) as nat));
        let m = total(outputs(rest.count, (k - 1) as nat));
        lemma_split(s.value, n0, m);
        let outs = outputs(s, k);
        assert(outs.drop_first() =~= outputs(rest, (k - 1) as nat));
    }
}

/// The state of a `Sample` after `k` calls: its count generator has been
/// called exactly `k` times.
pub proof fn lemma_sample_count_advanced<T: Generator, U: Generator<Output = usize>>(
    s: Sample<T, U>,
    k: nat,
)
    ensures
        advanced(s, k).count() == advanced(s.count(), k),
    decreases k,
{
    if k > 0 {
        lemma_sample_count_advanced(s, (k - 1) as nat);
        lemma_step(s, (k - 1) as nat);
        lemma_step(s.count, (k - 1) as nat);
    }
}

/// A `Sample` whose count generator yields `c0, c1, ...` yields
/// collections of lengths `c0, c1, ...`: the `k`-th collection has the
/// count generator's `k`-th value as its length.
pub proof fn lemma_sample_lengths<T: Generator, U: Generator<Output = usize>>(
    s: Sample<T, U>,
    k: nat,
)
    ensures
        advanced(s, k).next_output().len() == outputs(s.count(), k + 1)[k as int],
{
    lemma_sample_count_advanced(s, k);
    lemma_prefix(s.count, k, k + 1);
    lemma_step(advanced(s, k).value, advanced(s, k).count.next_output() as nat);
}

/// A `Sample` whose count is fixed at `n` yields collections of exactly
/// `n` elements, call after call.
pub proof fn lemma_sample_fixed_length<T: Generator>(s: Sample<T, Const<usize>>, k: nat)
    ensures
        advanced(s, k).next_output().len() == s.count().0,
{
    lemma_sample_lengths(s, k);
    lemma_const_outputs(s.count, k + 1);
}

/// Every value of a `Const` is the same.
pub proof fn lemma_const_outputs<T: Duplicate + DeepView>(c: Const<T>, n: nat)
    ensures
        outputs(c, n).len() == n,
        forall|k: int| 0 <= k < n ==> #[trigger] outputs(c, n)[k] == c.0.deep_view(),
    decreases n,
{
    lemma_step(c, n);
    if n > 0 {
        lemma_const_outputs(c, (n - 1) as nat);
    }
}

/// The elements of `base` among the first `k` whose bit is set in `index`,
/// in their order in `base`.
pub open spec fn picked<A>(base: Seq<A>, index: usize, k: nat) -> Seq<A>
    decreases k,
{
    if k == 0 {
        Seq::empty()
    } else {
        let rest = picked(base, index, (k - 1) as nat);
        if index & (1usize << ((k - 1) as usize)) != 0 {
            rest.push(base[k - 1])
        } else {
            rest
        }
    }
}

/// How many elements of the base a `Subsets` can ever pick: no more than
/// the index has bits.
pub open spec fn subset_width(len: nat) -> nat {
    if len < usize::BITS {
        len
    } else {
        usize::BITS as nat
    }
}

/// A predictable sequence of subsets of a base collection.
///
/// The values are `[]`, `[a]`, `[b]`, `[a, b]`, `[c]`, `[a, c]`, ... where
/// `a` is the first element of the base, `b` the second, and so on: bit
/// `i` of a counter decides whether the `i`-th element is in. Only as many
/// elements as the counter has bits can ever be picked; the ones after
/// them never appear.
///
/// The counter wraps around to 0 after `usize::MAX`, a deliberate choice so
/// that every state has a next value.
#[derive(Clone)]
pub struct Subsets<T> {
    base: Vec<T>,
    index: usize,
}

impl<T> Subsets<T> {
    /// The base collection.
    pub closed spec fn base(&self) -> Seq<T> {
        self.base@
    }

    /// The counter whose bits pick the next subset.
    pub closed spec fn index(&self) -> usize {
        self.index
    }

    pub fn new(base: Vec<T>) -> (r: Self)
        ensures
            r.base() == base@,
            r.index() == 0,
    {
        Subsets { base, index: 0 }
    }
}

impl<T: Duplicate + DeepView> Generator for Subsets<T> {
    type Output = Vec<T>;

    open spec fn wf(&self) -> bool {
        true
    }

    closed spec fn next_output(&self) -> Seq<T::V> {
        picked(self.base.deep_view(), self.index, subset_width(self.base@.len()))
    }

    closed spec fn next_state(&self) -> Self {
        Subsets { base: self.base, index: self.index.wrapping_add(1) }
    }

    fn generate(&mut self) -> (r: Vec<T>) {
        let len = self.base.len();
        let bits: usize = usize::BITS as usize;
        let width = if len < bits {
            len
        } else {
            bits
        };
        let ghost base = self.base.deep_view();
        let mut v: Vec<T> = Vec::new();
        let mut i: usize = 0;
        while i < width
            invariant
                i <= width,
                width == subset_width(self.base@.len()),
                width <= self.base@.len(),
                width <= usize::BITS,
                base == self.base.deep_view(),
                v.deep_view() == picked(base, self.index, i as nat),
            decreases width - i,
        {
            if self.index & (1usize << i) != 0 {
                let x = self.base[i].duplicate();
                v.push(x);
            }
            proof {
                assert(v.deep_view() =~= picked(base, self.index, (i + 1) as nat));
            }
            i = i + 1;
        }
        self.index = self.index.wrapping_add(1);
        v
    }
}

/// One call of a `Subsets` returns the elements of the base, among the
/// first `subset_width(len)`, whose bit is set in the counter, in base
/// order; the counter then goes up by one (wrapping at `usize::MAX`) and
/// the base is kept. The result depends on the base and the counter alone.
pub proof fn lemma_subsets_step<T: Duplicate + DeepView>(s: Subsets<T>)
    ensures
        s.next_output() == picked(
            s.base().map_values(|x: T| x.deep_view()),
            s.index(),
            subset_width(s.base().len()),
        ),
        s.next_state().base() == s.base(),
        s.next_state().index() == s.index().wrapping_add(1),
{
    assert(s.base.deep_view() =~= s.base().map_values(|x: T| x.deep_view()));
}

/// The subset picked from the first `k` elements holds no more than `k`
/// elements, each of them one of the first `k`.
pub proof fn lemma_picked_within<A>(base: Seq<A>, index: usize, k: nat)
    requires
        k <= base.len(),
    ensures
        picked(base, index, k).len() <= k,
        forall|x: A| #[trigger]
            picked(base, index, k).contains(x) ==> exists|j: int| 0 <= j < k && base[j] == x,
    decreases k,
{
    if k > 0 {
        lemma_picked_within(base, index, (k - 1) as nat);
        let rest = picked(base, index, (k - 1) as nat);
        assert forall|x: A| #[trigger] picked(base, index, k).contains(x) implies exists|j: int|
            0 <= j < k && base[j] == x by {
            if rest.contains(x) {
                let j = choose|j: int| 0 <= j < k - 1 && base[j] == x;
                assert(0 <= j < k && base[j] == x);
            } else {
                let p = picked(base, index, k);
                let i = choose|i: int| 0 <= i < p.len() && p[i] == x;
                if index & (1usize << ((k - 1) as usize)) != 0 {
                    if i < rest.len() {
                        assert(rest.contains(x));
                    } else {
                        assert(base[k - 1] == x);
                    }
                } else {
                    assert(rest.contains(x));
                }
            }
        }
    }
}

/// A `Subsets` never picks an element past the counter's bit width: each
/// element of a result is one of the first `subset_width(len)` elements of
/// the base, and a result has at most that many elements. An empty base
/// gives empty results.
pub proof fn lemma_subsets_cap<T: Duplicate + DeepView>(s: Subsets<T>)
    ensures
        s.next_output().len() <= subset_width(s.base().len()),
        subset_width(s.base().len()) <= usize::BITS,
        forall|x: T::V| #[trigger]
            s.next_output().contains(x) ==> exists|j: int|
                0 <= j < subset_width(s.base().len()) && s.base()[j].deep_view() == x,
        s.base().len() == 0 ==> s.next_output().len() == 0,
{
    lemma_subsets_step(s);
    let b = s.base().map_values(|x: T| x.deep_view());
    lemma_picked_within(b, s.index(), subset_width(s.base().len()));
}

/// Over a base of three elements, the subset that `i` picks, bit by bit.
proof fn lemma_picked_three<A>(base: Seq<A>, i: usize)
    requires
        base.len() == 3,
    ensures
        picked(base, i, 3) =~= (if i & 1usize != 0 {
            seq![base[0]]
        } else {
            Seq::empty()
        }) + (if i & 2usize != 0 {
            seq![base[1]]
        } else {
            Seq::empty()
        }) + (if i & 4usize != 0 {
            seq![base[2]]
        } else {
            Seq::empty()
        }),
{
    assert((1usize << 0usize) == 1usize && (1usize << 1usize) == 2usize && (1usize << 2usize)
        == 4usize) by (bit_vector);
    reveal_with_fuel(picked, 4);
}

/// For a base `[a, b, c]`, a new `Subsets` yields `[]`, `[a]`, `[b]`,
/// `[a, b]`, `[c]`, `[a, c]`, `[b, c]`, `[a, b, c]`, in the binary order
/// of its counter.
pub proof fn lemma_subsets_order<T: Duplicate + DeepView>(a: T, b: T, c: T, s: Subsets<T>)
    requires
        s.base() == seq![a, b, c],
        s.index() == 0,
    ensures
        outputs(s, 8) == seq![
            seq![],
            seq![a.deep_view()],
            seq![b.deep_view()],
            seq![a.deep_view(), b.deep_view()],
            seq![c.deep_view()],
            seq![a.deep_view(), c.deep_view()],
            seq![b.deep_view(), c.deep_view()],
            seq![a.deep_view(), b.deep_view(), c.deep_view()],
        ],
{
    let (x, y, z) = (a.deep_view(), b.deep_view(), c.deep_view());
    let base = s.base.deep_view();
    assert(base =~= seq![x, y, z]);
    assert(subset_width(3) == 3);
    let expected = seq![
        seq![],
        seq![x],
        seq![y],
        seq![x, y],
        seq![z],
        seq![x, z],
        seq![y, z],
        seq![x, y, z],
    ];
    lemma_step(s, 8);
    assert forall|k: int| 0 <= k < 8 implies #[trigger] outputs(s, 8)[k] == expected[k] by {
        lemma_prefix(s, k as nat, 8);
        lemma_subsets_advanced(s, k as nat);
        let st = advanced(s, k as nat);
        lemma_wrap_once(k, usize::MAX + 1);
        assert(st.index == k as usize);
        assert(st.base.deep_view() == base);
        lemma_picked_three(base, k as usize);
        assert(outputs(s, 8)[k] == picked(base, k as usize, 3));
        if k == 0 {
            assert((0usize & 1usize) == 0 && (0usize & 2usize) == 0 && (0usize & 4usize) == 0) by (bit_vector);
            assert(outputs(s, 8)[k] =~= expected[k]);
        } else if k == 1 {
            assert((1usize & 1usize) != 0 && (1usize & 2usize) == 0 && (1usize & 4usize) == 0) by (bit_vector);
            assert(outputs(s, 8)[k] =~= expected[k]);
        } else if k == 2 {
            assert((2usize & 1usize) == 0 && (2usize & 2usize) != 0 && (2usize & 4usize) == 0) by (bit_vector);
            assert(outputs(s, 8)[k] =~= expected[k]);
        } else if k == 3 {
            assert((3usize & 1usize) != 0 && (3usize & 2usize) != 0 && (3usize & 4usize) == 0) by (bit_vector);
            assert(outputs(s, 8)[k] =~= expected[k]);
        } else if k == 4 {
            assert((4usize & 1usize) == 0 && (4usize & 2usize) == 0 && (4usize & 4usize) != 0) by (bit_vector);
            assert(outputs(s, 8)[k] =~= expected[k]);
        } else if k == 5 {
            assert((5usize & 1usize) != 0 && (5usize & 2usize) == 0 && (5usize & 4usize) != 0) by (bit_vector);
            assert(outputs(s, 8)[k] =~= expected[k]);
        } else if k == 6 {
            assert((6usize & 1usize) == 0 && (6usize & 2usize) != 0 && (6usize & 4usize) != 0) by (bit_vector);
            assert(outputs(s, 8)[k] =~= expected[k]);
        } else {
            assert((7usize & 1usize) != 0 && (7usize & 2usize) != 0 && (7usize & 4usize) != 0) by (bit_vector);
            assert(outputs(s, 8)[k] =~= expected[k]);
        }
    }
    assert(outputs(s, 8) =~= expected);
}

/// After its eight subsets, a `Subsets` over a base of three elements
/// starts again: the state reached after eight more calls yields the same
/// subset as the state it started from.
pub proof fn lemma_subsets_repeat<T: Duplicate + DeepView>(s: Subsets<T>)
    requires
        s.base().len() == 3,
    ensures
        advanced(s, 8).next_output() == s.next_output(),
{
    lemma_subsets_advanced(s, 8);
    let i = s.index;
    let j = advanced(s, 8).index;
    assert(subset_width(3) == 3);
    lemma_wrap_once(i + 8, usize::MAX + 1);
    if i + 8 <= usize::MAX {
        assert(
            ((j & 1usize) == 0) == ((i & 1usize) == 0)
            && ((j & 2usize) == 0) == ((i & 2usize) == 0)
            && ((j & 4usize) == 0) == ((i & 4usize) == 0)
        ) by (bit_vector)
            requires
                j == i + 8,
        ;
    } else {
        let m: usize = (usize::MAX - 7) as usize;
        assert(m % 8 == 0) by {
            assert(usize::MAX == 0xffff_ffff || usize::MAX == 0xffff_ffff_ffff_ffff);
        }
        assert(
            ((j & 1usize) == 0) == ((i & 1usize) == 0)
            && ((j & 2usize) == 0) == ((i & 2usize) == 0)
            && ((j & 4usize) == 0) == ((i & 4usize) == 0)
        ) by (bit_vector)
            requires
                i == j + m,
                m % 8usize == 0,
        ;
    }
    lemma_picked_three(s.base.deep_view(), i);
    lemma_picked_three(s.base.deep_view(), j);
}

proof fn lemma_subsets_advanced<T: Duplicate + DeepView>(s: Subsets<T>, k: nat)
    ensures
        advanced(s, k).index() == (s.index() + k) % (usize::MAX + 1),
        advanced(s, k).base == s.base,
    decreases k,
{
    if k > 0 {
        lemma_subsets_advanced(s, (k - 1) as nat);
        lemma_step(s, (k - 1) as nat);
    }
}

/// Adding below `m` to a value below `m` wraps at most once.
proof fn lemma_wrap_once(x: int, m: int)
    requires
        0 < m,
        0 <= x < 2 * m,
    ensures
        x < m ==> x % m == x,
        x >= m ==> x % m == x - m,
{
    if x < m {
        vstd::arithmetic::div_mod::lemma_small_mod(x as nat, m as nat);
    } else {
        vstd::arithmetic::div_mod::lemma_mod_add_multiples_vanish(x - m, m);
        vstd::arithmetic::div_mod::lemma_small_mod((x - m) as nat, m as nat);
    }
}

/// Two counters that differ by `2^len` (modulo the counter's range) pick
/// the same elements from the first `k <= len` of any base.
proof fn lemma_picked_period<A>(base: Seq<A>, i: usize, j: usize, len: nat, k: nat)
    requires
        k <= len,
        len < usize::BITS,
        i + pow2_usize(len) <= usize::MAX,
        j == i + pow2_usize(len),
    ensures
        picked(base, i, k) == picked(base, j, k),
    decreases k,
{
    if k > 0 {
        lemma_picked_period(base, i, j, len, (k - 1) as nat);
        let m = (k - 1) as usize;
        let l = len as usize;
        let p = pow2_usize(len);
        assert(p == 1usize << l);
        lemma_wrap_once(i + p, usize::MAX + 1);
        assert((j & (1usize << m)) == (i & (1usize << m))) by (bit_vector)
            requires
                j == i + p,
                p == 1usize << l,
                m < l,
                l < 64,
        ;
    }
}

/// `2^n` as a `usize`, for `n` below the counter width.
pub open spec fn pow2_usize(n: nat) -> usize {
    (1usize << (n as usize)) as usize
}

/// A `Subsets` over a base of `L` elements, with `L` below the counter's
/// bit width, repeats itself after `2^L` calls: the state reached after
/// `2^L` more calls yields the same subset as the state it started from.
/// (Stated for counters that do not reach `usize::MAX` on the way.)
pub proof fn lemma_subsets_period<T: Duplicate + DeepView>(s: Subsets<T>)
    requires
        s.base().len() < usize::BITS,
        s.index() + pow2_usize(s.base().len()) <= usize::MAX,
    ensures
        advanced(s, pow2_usize(s.base().len()) as nat).next_output() == s.next_output(),
{
    let len = s.base().len();
    let p = pow2_usize(len);
    lemma_subsets_advanced(s, p as nat);
    lemma_wrap_once(s.index + p, usize::MAX + 1);
    lemma_picked_period(s.base.deep_view(), s.index, advanced(s, p as nat).index, len, len);
}

/// An instant, as nanoseconds since the Unix epoch (UTC).
#[derive(Clone, Copy, Debug, PartialEq, Eq, Structural)]
pub struct Timestamp {
    pub nanos: i128,
}

/// A signed length of time, in nanoseconds.
#[derive(Clone, Copy, Debug, PartialEq, Eq, Structural)]
pub struct TimeStep {
    pub nanos: i128,
}

impl DeepView for Timestamp {
    type V = Timestamp;

    open spec fn deep_view(&self) -> Timestamp {
        *self
    }
}

/// The instant `step` after `t`. At the ends of the range of `i128`
/// nanoseconds (more than 10^21 years away) it wraps around.
pub open spec fn shifted(t: Timestamp, step: TimeStep) -> Timestamp {
    Timestamp { nanos: t.nanos.wrapping_add(step.nanos) }
}

/// A sequence of evenly spaced times.
///
/// Each call returns the current instant and then moves it on by the
/// step. The instant is an `i128` count of nanoseconds; where a step would
/// pass the end of that range (more than 10^21 years away) it wraps around
/// rather than stopping the generator.
pub struct Time {
    instant: Timestamp,
    step: TimeStep,
}

impl Time {
    /// The next instant.
    pub closed spec fn instant(&self) -> Timestamp {
        self.instant
    }

    /// The distance between two adjacent instants.
    pub closed spec fn step(&self) -> TimeStep {
        self.step
    }

    /// A generator whose first value is `start`, with `step` between any
    /// two adjacent values.
    pub fn new(start: Timestamp, step: TimeStep) -> (r: Self)
        ensures
            r.instant() == start,
            r.step() == step,
    {
        Time { instant: start, step }
    }
}

impl Generator for Time {
    type Output = Timestamp;

    open spec fn wf(&self) -> bool {
        true
    }

    closed spec fn next_output(&self) -> Timestamp {
        self.instant
    }

    closed spec fn next_state(&self) -> Self {
        Time { instant: shifted(self.instant, self.step), step: self.step }
    }

    fn generate(&mut self) -> (r: Timestamp) {
        let res = self.instant;
        self.instant = Timestamp { nanos: self.instant.nanos.wrapping_add(self.step.nanos) };
        res
    }
}

/// One call of a `Time` returns its current instant and moves it on by the
/// step, which is kept.
pub proof fn lemma_time_step(t: Time)
    ensures
        t.next_output() == t.instant(),
        t.next_state().instant() == shifted(t.instant(), t.step()),
        t.next_state().step() == t.step(),
{
}

/// A `Time` made from `start` and `step` yields `start + k * step` as its
/// `k`-th value, as long as every value up to it fits in the `i128` range.
pub proof fn lemma_time_steps(t: Time, k: nat)
    requires
        i128::MIN <= t.instant().nanos + k * t.step().nanos <= i128::MAX,
    ensures
        advanced(t, k).instant().nanos == t.instant().nanos + k * t.step().nanos,
        advanced(t, k).step() == t.step(),
        advanced(t, k).next_output().nanos == t.instant().nanos + k * t.step().nanos,
    decreases k,
{
    if k > 0 {
        let s = t.step().nanos;
        let a = t.instant().nanos;
        let km = (k - 1) as nat;
        assert(k * s == km * s + s) by (nonlinear_arith)
            requires
                km == k - 1,
        ;
        assert(i128::MIN <= a + km * s <= i128::MAX) by (nonlinear_arith)
            requires
                i128::MIN <= a + k * s <= i128::MAX,
                i128::MIN <= a <= i128::MAX,
                k * s == km * s + s,
                i128::MIN <= s <= i128::MAX,
                km < k,
        ;
        lemma_time_steps(t, km);
        lemma_step(t, km);
        let prev = advanced(t, km).instant().nanos;
        assert(prev + s == a + k * s);
        assert(prev.wrapping_add(s) == prev + s);
        let st = advanced(t, km);
        assert(advanced(t, km + 1) == st.next_state());
        assert(km + 1 == k);
        assert(st.next_state().instant == shifted(st.instant, st.step));
        assert(advanced(t, k).instant.nanos == prev + s);
    } else {
        assert(k * t.step().nanos == 0) by (nonlinear_arith)
            requires
                k == 0,
        ;
    }
}

/// The decimal digit `d`.
pub open spec fn digit_char(d: nat) -> char {
    seq!['0', '1', '2', '3', '4', '5', '6', '7', '8', '9'][d as int]
}

/// The decimal digits of `n`, most significant first, without leading
/// zeros.
pub open spec fn digits(n: nat) -> Seq<char>
    decreases n,
{
    if n < 10 {
        seq![digit_char(n)]
    } else {
        digits(n / 10).push(digit_char(n % 10))
    }
}

/// `n` written in decimal, with a leading `-` when it is negative.
pub open spec fn decimal(n: int) -> Seq<char> {
    if n < 0 {
        seq!['-'] + digits((-n) as nat)
    } else {
        digits(n as nat)
    }
}

/// The decimal digit `d`, as a one-character string.
fn digit_str(d: u64) -> (r: &'static str)
    requires
        d < 10,
    ensures
        r@ == seq![digit_char(d as nat)],
{
    proof {
        reveal_strlit("0");
        reveal_strlit("1");
        reveal_strlit("2");
        reveal_strlit("3");
        reveal_strlit("4");
        reveal_strlit("5");
        reveal_strlit("6");
        reveal_strlit("7");
        reveal_strlit("8");
        reveal_strlit("9");
    }
    match d {
        0 => "0",
        1 => "1",
        2 => "2",
        3 => "3",
        4 => "4",
        5 => "5",
        6 => "6",
        7 => "7",
        8 => "8",
        _ => "9",
    }
}

/// Appends the decimal digits of `m` to `s`.
fn push_digits(s: &mut String, m: u64)
    ensures
        final(s)@ == old(s)@ + digits(m as nat),
    decreases m,
{
    if m >= 10 {
        push_digits(s, m / 10);
    }
    let d = digit_str(m % 10);
    s.append(d);
    proof {
        assert(final(s)@ =~= old(s)@ + digits(m as nat));
    }
}

/// `n` written in decimal, with a leading `-` when it is negative.
fn decimal_string(n: i64) -> (r: String)
    ensures
        r@ == decimal(n as int),
{
    let mut s = String::new();
    let m: u64 = if n < 0 {
        s.append("-");
        (0i128 - n as i128) as u64
    } else {
        n as u64
    };
    proof {
        reveal_strlit("-");
    }
    push_digits(&mut s, m);
    proof {
        assert(s@ =~= decimal(n as int));
    }
    s
}

/// Strings made by putting each value of a number generator between a
/// fixed prefix and suffix (`"a-{}"` is the prefix `"a-"` and an empty
/// suffix).
pub struct Pattern<G> {
    prefix: String,
    suffix: String,
    arg: G,
}

impl<G> Pattern<G> {
    pub closed spec fn prefix(&self) -> Seq<char> {
        self.prefix@
    }

    pub closed spec fn suffix(&self) -> Seq<char> {
        self.suffix@
    }

    /// The generator of the numbers.
    pub closed spec fn arg(&self) -> G {
        self.arg
    }

    pub fn new(prefix: &str, arg: G, suffix: &str) -> (r: Self)
        ensures
            r.prefix() == prefix@,
            r.arg() == arg,
            r.suffix() == suffix@,
    {
        Pattern { prefix: prefix.to_owned(), suffix: suffix.to_owned(), arg }
    }
}

impl<G: Generator<Output = i64>> Generator for Pattern<G> {
    type Output = String;

    open spec fn wf(&self) -> bool {
        self.arg().wf()
    }

    closed spec fn next_output(&self) -> Seq<char> {
        self.prefix@ + decimal(self.arg.next_output() as int) + self.suffix@
    }

    closed spec fn next_state(&self) -> Self {
        Pattern { prefix: self.prefix, suffix: self.suffix, arg: self.arg.next_state() }
    }

    fn generate(&mut self) -> (r: String) {
        let n = self.arg.generate();
        let mut s = self.prefix.clone();
        let d = decimal_string(n);
        s.append(d.as_str());
        s.append(self.suffix.as_str());
        s
    }
}

proof fn lemma_pattern_advanced<G: Generator<Output = i64>>(p: Pattern<G>, k: nat)
    ensures
        advanced(p, k).prefix == p.prefix,
        advanced(p, k).suffix == p.suffix,
        advanced(p, k).arg == advanced(p.arg, k),
    decreases k,
{
    if k > 0 {
        lemma_pattern_advanced(p, (k - 1) as nat);
        lemma_step(p, (k - 1) as nat);
        lemma_step(p.arg, (k - 1) as nat);
    }
}

/// One call of a `Pattern` returns the prefix, the number generator's next
/// value in decimal and the suffix; the number generator advances by one
/// call and the prefix and suffix are kept.
pub proof fn lemma_pattern_step<G: Generator<Output = i64>>(p: Pattern<G>)
    ensures
        p.next_output() == p.prefix() + decimal(p.arg().next_output() as int) + p.suffix(),
        p.next_state().prefix() == p.prefix(),
        p.next_state().arg() == p.arg().next_state(),
        p.next_state().suffix() == p.suffix(),
{
}

/// A `Pattern` over `Inc(v)` yields the prefix, `v + k` in decimal and the
/// suffix as its `k`-th value, as long as `v + k` fits in an `i64`.
pub proof fn lemma_pattern_counts_up(p: Pattern<Inc<i64>>, n: nat)
    requires
        p.arg().0 + n <= i64::MAX + 1,
    ensures
        outputs(p, n) == Seq::new(n, |k: int| p.prefix() + decimal(p.arg().0 + k) + p.suffix()),
{
    lemma_step(p, n);
    assert forall|k: int| 0 <= k < n implies #[trigger] outputs(p, n)[k] == p.prefix() + decimal(
        p.arg().0 + k,
    ) + p.suffix() by {
        lemma_prefix(p, k as nat, n);
        lemma_pattern_advanced(p, k as nat);
        lemma_inc_advanced(p.arg.0, k as nat);
    }
    assert(outputs(p, n) =~= Seq::new(
        n,
        |k: int| p.prefix() + decimal(p.arg().0 + k) + p.suffix(),
    ));
}

/// Strings made from a template with two numbers: `head`, the first
/// generator's value, `middle`, the second generator's value, `tail`
/// (`"{}-an-example-{}"` has an empty head, the middle `"-an-example-"`
/// and an empty tail).
pub struct Pattern2<G, H> {
    head: String,
    middle: String,
    tail: String,
    first: G,
    second: H,
}

impl<G, H> Pattern2<G, H> {
    pub closed spec fn head(&self) -> Seq<char> {
        self.head@
    }

    pub closed spec fn middle(&self) -> Seq<char> {
        self.middle@
    }

    pub closed spec fn tail(&self) -> Seq<char> {
        self.tail@
    }

    pub closed spec fn first(&self) -> G {
        self.first
    }

    pub closed spec fn second(&self) -> H {
        self.second
    }

    pub fn new(head: &str, first: G, middle: &str, second: H, tail: &str) -> (r: Self)
        ensures
            r.head() == head@,
            r.first() == first,
            r.middle() == middle@,
            r.second() == second,
            r.tail() == tail@,
    {
        Pattern2 {
            head: head.to_owned(),
            middle: middle.to_owned(),
            tail: tail.to_owned(),
            first,
            second,
        }
    }
}

/// One call of a `Pattern2` returns the head, the first generator's next
/// value in decimal, the middle, the second generator's next value in
/// decimal and the tail; both generators advance by one call and the
/// pieces of text are kept.
pub proof fn lemma_pattern2_step<G: Generator<Output = i64>, H: Generator<Output = i64>>(
    p: Pattern2<G, H>,
)
    ensures
        p.next_output() == p.head() + decimal(p.first().next_output() as int) + p.middle()
            + decimal(p.second().next_output() as int) + p.tail(),
        p.next_state().head() == p.head(),
        p.next_state().middle() == p.middle(),
        p.next_state().tail() == p.tail(),
        p.next_state().first() == p.first().next_state(),
        p.next_state().second() == p.second().next_state(),
{
}

impl<G: Generator<Output = i64>, H: Generator<Output = i64>> Generator for Pattern2<G, H> {
    type Output = String;

    open spec fn wf(&self) -> bool {
        self.first().wf() && self.second().wf()
    }

    closed spec fn next_output(&self) -> Seq<char> {
        self.head@ + decimal(self.first.next_output() as int) + self.middle@ + decimal(
            self.second.next_output() as int,
        ) + self.tail@
    }

    closed spec fn next_state(&self) -> Self {
        Pattern2 {
            head: self.head,
            middle: self.middle,
            tail: self.tail,
            first: self.first.next_state(),
            second: self.second.next_state(),
        }
    }

    fn generate(&mut self) -> (r: String) {
        let m = self.first.generate();
        let n = self.second.generate();
        let mut s = self.head.clone();
        let d = decimal_string(m);
        s.append(d.as_str());
        s.append(self.middle.as_str());
        let e = decimal_string(n);
        s.append(e.as_str());
        s.append(self.tail.as_str());
        s
    }
}

} // verus!
