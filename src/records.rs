//! Record types assembled field by field: each has a builder, which
//! resolves every field from its override or its declared default, or a
//! generator, which holds one generator per field.
use vstd::prelude::*;
use crate::generator::{Generator, Duplicate, advanced, outputs, take, lemma_prefix, lemma_step};
use crate::generators::{
    Const, Inc, Pattern, Pattern2, Sample, decimal, lemma_const_outputs, lemma_inc_counts_up,
    lemma_pattern_counts_up,
};
use crate::builder::{Builder, Buildable, Generatable};

verus! {

/// Adds six to its argument.
pub fn foo(a: i16) -> (r: i16)
    requires
        a <= i16::MAX - 6,
    ensures
        r == a + 6,
{
    a + 6
}

/// `n` copies of `value`, drawn from a `Const`.
fn repeated<T: Duplicate + DeepView>(value: T, n: usize) -> (r: Vec<T>)
    ensures
        r.deep_view() == Seq::new(n as nat, |i: int| value.deep_view()),
{
    let mut g = Const(value);
    let ghost g0 = g;
    let r = take(&mut g, n);
    proof {
        lemma_const_outputs(g0, n as nat);
        assert(r.deep_view() =~= Seq::new(n as nat, |i: int| value.deep_view()));
    }
    r
}

/// `n` strings: `prefix` followed by `start + i` in decimal, for each `i`
/// in `0..n`, drawn from a `Pattern` over `Inc(start)`.
fn numbered(prefix: &str, start: i64, n: usize) -> (r: Vec<String>)
    requires
        start + n <= i64::MAX + 1,
    ensures
        r.deep_view() == Seq::new(n as nat, |i: int| prefix@ + decimal(start + i)),
{
    let mut g = Pattern::new(prefix, Inc(start), "");
    let ghost g0 = g;
    let r = take(&mut g, n);
    proof {
        lemma_pattern_counts_up(g0, n as nat);
        reveal_strlit("");
        assert forall|i: int| 0 <= i < n implies #[trigger] r.deep_view()[i] == prefix@ + decimal(
            start + i,
        ) by {
            assert(prefix@ + decimal(start + i) + ""@ =~= prefix@ + decimal(start + i));
        }
        assert(r.deep_view() =~= Seq::new(n as nat, |i: int| prefix@ + decimal(start + i)));
    }
    r
}

#[derive(Clone, Debug)]
/// A small record, used as the element of sequence fields.
pub struct Nested {
    pub a: i32,
    pub b: String,
}

impl DeepView for Nested {
    type V = (<i32 as DeepView>::V, <String as DeepView>::V);

    open spec fn deep_view(&self) -> Self::V {
        (self.a.deep_view(), self.b.deep_view())
    }
}

impl Duplicate for Nested {
    fn duplicate(&self) -> (r: Self) {
        Nested { a: self.a, b: self.b.duplicate() }
    }
}

/// The builder of `Nested`: an optional override per field.
pub struct NestedBuilder {
    pub a: Option<i32>,
    pub b: Option<String>,
}

impl NestedBuilder {
    /// Overrides `a`.
    pub fn a(self, value: i32) -> (r: Self)
        ensures
            r.a == Option::Some(value),
            r.b == self.b,
    {
        NestedBuilder { a: Option::Some(value), ..self }
    }

    /// Overrides `b`.
    pub fn b(self, value: &str) -> (r: Self)
        ensures
            r.b matches Option::Some(s) && s@ == value@,
            r.a == self.a,
    {
        NestedBuilder { b: Option::Some(value.to_owned()), ..self }
    }

}

impl Builder for NestedBuilder {
    type Output = Nested;

    open spec fn built(&self) -> <Nested as DeepView>::V {
        (
            match self.a {
                Option::Some(x) => x.deep_view(),
                Option::None => 0i32,
            },
            match self.b {
                Option::Some(x) => x.deep_view(),
                Option::None => Seq::<char>::empty(),
            },
        )
    }

    fn build(self) -> (r: Nested) {
        let a = match self.a {
            Option::Some(x) => x,
            Option::None => 0,
        };
        let b = match self.b {
            Option::Some(x) => x,
            Option::None => String::new(),
        };
        Nested { a, b }
    }
}

impl Buildable for Nested {
    type Builder = NestedBuilder;

    open spec fn default_builder() -> NestedBuilder {
        NestedBuilder { a: Option::None, b: Option::None }
    }

    fn builder() -> (r: NestedBuilder) {
        NestedBuilder { a: Option::None, b: Option::None }
    }
}

/// The generator of `Nested`: one generator per field, each of which keeps
/// its state from one record to the next.
pub struct NestedGenerator<A, B> {
    pub a: A,
    pub b: B,
}

impl<A, B> NestedGenerator<A, B> {
    /// Replaces the generator of `a`.
    pub fn a<G: Generator<Output = i32>>(self, gen: G) -> (r: NestedGenerator<G, B>)
        ensures
            r.a == gen,
            r.b == self.b,
    {
        NestedGenerator { a: gen, b: self.b }
    }

    /// Replaces the generator of `b`.
    pub fn b<G: Generator<Output = String>>(self, gen: G) -> (r: NestedGenerator<A, G>)
        ensures
            r.a == self.a,
            r.b == gen,
    {
        NestedGenerator { a: self.a, b: gen }
    }
}

impl<A: Generator<Output = i32>, B: Generator<Output = String>> Generator for NestedGenerator<A, B> {
    type Output = Nested;

    open spec fn wf(&self) -> bool {
        self.a.wf() && self.b.wf()
    }

    open spec fn next_output(&self) -> <Nested as DeepView>::V {
        (self.a.next_output(), self.b.next_output())
    }

    open spec fn next_state(&self) -> Self {
        NestedGenerator { a: self.a.next_state(), b: self.b.next_state() }
    }

    fn generate(&mut self) -> (r: Nested) {
        let a = self.a.generate();
        let b = self.b.generate();
        Nested { a, b }
    }
}

impl Generatable for Nested {
    type Generator = NestedGenerator<Const<i32>, Const<String>>;

    open spec fn is_default_generator(g: &Self::Generator) -> bool {
        &&& g.a == Const(0i32)
        &&& g.b.0@ == Seq::<char>::empty()
    }

    fn generator() -> (r: Self::Generator) {
        NestedGenerator { a: Const(0i32), b: Const(String::new()) }
    }
}

proof fn lemma_nested_advanced<A: Generator<Output = i32>, B: Generator<Output = String>>(
    g: NestedGenerator<A, B>,
    k: nat,
)
    ensures
        advanced(g, k).a == advanced(g.a, k),
        advanced(g, k).b == advanced(g.b, k),
    decreases k,
{
    if k > 0 {
        lemma_nested_advanced(g, (k - 1) as nat);
        lemma_step(g, (k - 1) as nat);
        lemma_step(g.a, (k - 1) as nat);
        lemma_step(g.b, (k - 1) as nat);
    }
}

/// A `Nested` generator yields, as its `k`-th record, the `k`-th values of
/// its two field generators.
pub proof fn lemma_nested_outputs<A: Generator<Output = i32>, B: Generator<Output = String>>(
    g: NestedGenerator<A, B>,
    n: nat,
)
    ensures
        outputs(g, n).len() == n,
        forall|k: int|
            0 <= k < n ==> #[trigger] outputs(g, n)[k] == (outputs(g.a, n)[k], outputs(g.b, n)[k]),
{
    lemma_step(g, n);
    assert forall|k: int| 0 <= k < n implies #[trigger] outputs(g, n)[k] == (
        outputs(g.a, n)[k],
        outputs(g.b, n)[k],
    ) by {
        lemma_prefix(g, k as nat, n);
        lemma_prefix(g.a, k as nat, n);
        lemma_prefix(g.b, k as nat, n);
        lemma_nested_advanced(g, k as nat);
    }
}

/// `n` records numbered from `a0` and `b0`: the `i`-th has `a0 + i` as `a`
/// and `b_prefix` followed by `b0 + i` in decimal as `b`.
fn numbered_nested(a0: i32, b_prefix: &str, b0: i64, n: usize) -> (r: Vec<Nested>)
    requires
        a0 + n <= i32::MAX + 1,
        b0 + n <= i64::MAX + 1,
    ensures
        r.deep_view() == Seq::new(
            n as nat,
            |i: int| ((a0 + i) as i32, b_prefix@ + decimal(b0 + i)),
        ),
{
    let mut g = NestedGenerator { a: Inc(a0), b: Pattern::new(b_prefix, Inc(b0), "") };
    let ghost g0 = g;
    let r = take(&mut g, n);
    proof {
        lemma_nested_outputs(g0, n as nat);
        lemma_inc_counts_up(a0, n as nat);
        lemma_pattern_counts_up(g0.b, n as nat);
        reveal_strlit("");
        assert forall|i: int| 0 <= i < n implies #[trigger] r.deep_view()[i] == (
            (a0 + i) as i32,
            b_prefix@ + decimal(b0 + i),
        ) by {
            assert(b_prefix@ + decimal(b0 + i) + ""@ =~= b_prefix@ + decimal(b0 + i));
        }
        assert(r.deep_view() =~= Seq::new(
            n as nat,
            |i: int| ((a0 + i) as i32, b_prefix@ + decimal(b0 + i)),
        ));
    }
    r
}

#[derive(Debug)]
/// A record with two defaulted fields.
pub struct Womble {
    pub a: String,
    pub b: i32,
}

impl DeepView for Womble {
    type V = (<String as DeepView>::V, <i32 as DeepView>::V);

    open spec fn deep_view(&self) -> Self::V {
        (self.a.deep_view(), self.b.deep_view())
    }
}

/// The builder of `Womble`: an optional override per field.
pub struct WombleBuilder {
    pub a: Option<String>,
    pub b: Option<i32>,
}

impl WombleBuilder {
    /// Overrides `a`.
    pub fn a(self, value: &str) -> (r: Self)
        ensures
            r.a matches Option::Some(s) && s@ == value@,
            r.b == self.b,
    {
        WombleBuilder { a: Option::Some(value.to_owned()), ..self }
    }

    /// Overrides `b`.
    pub fn b(self, value: i32) -> (r: Self)
        ensures
            r.b == Option::Some(value),
            r.a == self.a,
    {
        WombleBuilder { b: Option::Some(value), ..self }
    }

}

impl Builder for WombleBuilder {
    type Output = Womble;

    open spec fn built(&self) -> <Womble as DeepView>::V {
        (
            match self.a {
                Option::Some(x) => x.deep_view(),
                Option::None => "hullo"@,
            },
            match self.b {
                Option::Some(x) => x.deep_view(),
                Option::None => 7i32,
            },
        )
    }

    fn build(self) -> (r: Womble) {
        let a = match self.a {
            Option::Some(x) => x,
            Option::None => "hullo".to_owned(),
        };
        let b = match self.b {
            Option::Some(x) => x,
            Option::None => foo(1) as i32,
        };
        Womble { a, b }
    }
}

impl Buildable for Womble {
    type Builder = WombleBuilder;

    open spec fn default_builder() -> WombleBuilder {
        WombleBuilder { a: Option::None, b: Option::None }
    }

    fn builder() -> (r: WombleBuilder) {
        WombleBuilder { a: Option::None, b: Option::None }
    }
}

/// A field of a builder resolves to its override where one was given, and
/// to its declared default where none was.
pub proof fn lemma_override_wins(b: WombleBuilder)
    ensures
        b.a matches Option::Some(v) ==> b.built().0 == v@,
        b.a is None ==> b.built().0 == "hullo"@,
        b.b matches Option::Some(v) ==> b.built().1 == v,
        b.b is None ==> b.built().1 == 7i32,
{
}

#[derive(Debug)]
/// A record whose fields are built records.
pub struct Badger {
    pub w: Womble,
    pub v: Womble,
}

impl DeepView for Badger {
    type V = (<Womble as DeepView>::V, <Womble as DeepView>::V);

    open spec fn deep_view(&self) -> Self::V {
        (self.w.deep_view(), self.v.deep_view())
    }
}

/// The builder of `Badger`: an optional override per field.
pub struct BadgerBuilder {
    pub w: Option<Womble>,
    pub v: Option<Womble>,
}

impl BadgerBuilder {
    /// Overrides `w`.
    pub fn w(self, value: Womble) -> (r: Self)
        ensures
            r.w == Option::Some(value),
            r.v == self.v,
    {
        BadgerBuilder { w: Option::Some(value), ..self }
    }

    /// Overrides `v`.
    pub fn v(self, value: Womble) -> (r: Self)
        ensures
            r.v == Option::Some(value),
            r.w == self.w,
    {
        BadgerBuilder { v: Option::Some(value), ..self }
    }

}

impl Builder for BadgerBuilder {
    type Output = Badger;

    open spec fn built(&self) -> <Badger as DeepView>::V {
        (
            match self.w {
                Option::Some(x) => x.deep_view(),
                Option::None => ("hallo"@, 11i32),
            },
            match self.v {
                Option::Some(x) => x.deep_view(),
                Option::None => ("hullo"@, 7i32),
            },
        )
    }

    fn build(self) -> (r: Badger) {
        let w = match self.w {
            Option::Some(x) => x,
            Option::None => Womble::builder().a("hallo").b(foo(5) as i32).build(),
        };
        let v = match self.v {
            Option::Some(x) => x,
            Option::None => Womble::builder().build(),
        };
        Badger { w, v }
    }
}

impl Buildable for Badger {
    type Builder = BadgerBuilder;

    open spec fn default_builder() -> BadgerBuilder {
        BadgerBuilder { w: Option::None, v: Option::None }
    }

    fn builder() -> (r: BadgerBuilder) {
        BadgerBuilder { w: Option::None, v: Option::None }
    }
}

/// A record with a field of any buildable type.
#[derive(Debug)]
pub struct Bodger<U> {
    pub w: Womble,
    pub v: U,
}

impl<U: DeepView> DeepView for Bodger<U> {
    type V = (<Womble as DeepView>::V, U::V);

    open spec fn deep_view(&self) -> Self::V {
        (self.w.deep_view(), self.v.deep_view())
    }
}

/// The builder of `Bodger`: an optional override per field.
pub struct BodgerBuilder<U> {
    pub w: Option<Womble>,
    pub v: Option<U>,
}

impl<U> BodgerBuilder<U> {
    /// Overrides `w`.
    pub fn w(self, value: Womble) -> (r: Self)
        ensures
            r.w == Option::Some(value),
            r.v == self.v,
    {
        BodgerBuilder { w: Option::Some(value), v: self.v }
    }

    /// Overrides `v`.
    pub fn v(self, value: U) -> (r: Self)
        ensures
            r.w == self.w,
            r.v == Option::Some(value),
    {
        BodgerBuilder { w: self.w, v: Option::Some(value) }
    }
}

impl<U: Buildable> Builder for BodgerBuilder<U> {
    type Output = Bodger<U>;

    open spec fn built(&self) -> <Bodger<U> as DeepView>::V {
        (
            match self.w {
                Option::Some(x) => x.deep_view(),
                Option::None => ("hallo"@, 11i32),
            },
            match self.v {
                Option::Some(x) => x.deep_view(),
                Option::None => U::default_builder().built(),
            },
        )
    }

    fn build(self) -> (r: Bodger<U>) {
        let w = match self.w {
            Option::Some(x) => x,
            Option::None => Womble::builder().a("hallo").b(foo(5) as i32).build(),
        };
        let v = match self.v {
            Option::Some(x) => x,
            Option::None => U::builder().build(),
        };
        Bodger { w, v }
    }
}

impl<U: Buildable> Buildable for Bodger<U> {
    type Builder = BodgerBuilder<U>;

    open spec fn default_builder() -> BodgerBuilder<U> {
        BodgerBuilder { w: Option::None, v: Option::None }
    }

    fn builder() -> (r: BodgerBuilder<U>) {
        BodgerBuilder { w: Option::None, v: Option::None }
    }
}

#[derive(Debug)]
/// A record with a defaulted field and a counted one.
pub struct Wizard {
    pub a: String,
    pub b: i32,
}

impl DeepView for Wizard {
    type V = (<String as DeepView>::V, <i32 as DeepView>::V);

    open spec fn deep_view(&self) -> Self::V {
        (self.a.deep_view(), self.b.deep_view())
    }
}

/// The generator of `Wizard`: one generator per field, each of which keeps
/// its state from one record to the next.
pub struct WizardGenerator<A, B> {
    pub a: A,
    pub b: B,
}

impl<A, B> WizardGenerator<A, B> {
    /// Replaces the generator of `a`.
    pub fn a<G: Generator<Output = String>>(self, gen: G) -> (r: WizardGenerator<G, B>)
        ensures
            r.a == gen,
            r.b == self.b,
    {
        WizardGenerator { a: gen, b: self.b }
    }

    /// Replaces the generator of `b`.
    pub fn b<G: Generator<Output = i32>>(self, gen: G) -> (r: WizardGenerator<A, G>)
        ensures
            r.a == self.a,
            r.b == gen,
    {
        WizardGenerator { a: self.a, b: gen }
    }
}

impl<A: Generator<Output = String>, B: Generator<Output = i32>> Generator for WizardGenerator<A, B> {
    type Output = Wizard;

    open spec fn wf(&self) -> bool {
        self.a.wf() && self.b.wf()
    }

    open spec fn next_output(&self) -> <Wizard as DeepView>::V {
        (self.a.next_output(), self.b.next_output())
    }

    open spec fn next_state(&self) -> Self {
        WizardGenerator { a: self.a.next_state(), b: self.b.next_state() }
    }

    fn generate(&mut self) -> (r: Wizard) {
        let a = self.a.generate();
        let b = self.b.generate();
        Wizard { a, b }
    }
}

impl Generatable for Wizard {
    type Generator = WizardGenerator<Const<String>, Inc<i32>>;

    open spec fn is_default_generator(g: &Self::Generator) -> bool {
        &&& g.a.0@ == "hello"@
        &&& g.b == Inc(5i32)
    }

    fn generator() -> (r: Self::Generator) {
        WizardGenerator { a: Const("hello".to_owned()), b: Inc(5i32) }
    }
}

#[derive(Debug)]
/// A record with a numbered string and a counted number.
pub struct Sorceress {
    pub a: String,
    pub b: i32,
}

impl DeepView for Sorceress {
    type V = (<String as DeepView>::V, <i32 as DeepView>::V);

    open spec fn deep_view(&self) -> Self::V {
        (self.a.deep_view(), self.b.deep_view())
    }
}

/// The generator of `Sorceress`: one generator per field, each of which keeps
/// its state from one record to the next.
pub struct SorceressGenerator<A, B> {
    pub a: A,
    pub b: B,
}

impl<A, B> SorceressGenerator<A, B> {
    /// Replaces the generator of `a`.
    pub fn a<G: Generator<Output = String>>(self, gen: G) -> (r: SorceressGenerator<G, B>)
        ensures
            r.a == gen,
            r.b == self.b,
    {
        SorceressGenerator { a: gen, b: self.b }
    }

    /// Replaces the generator of `b`.
    pub fn b<G: Generator<Output = i32>>(self, gen: G) -> (r: SorceressGenerator<A, G>)
        ensures
            r.a == self.a,
            r.b == gen,
    {
        SorceressGenerator { a: self.a, b: gen }
    }
}

impl<A: Generator<Output = String>, B: Generator<Output = i32>> Generator for SorceressGenerator<A, B> {
    type Output = Sorceress;

    open spec fn wf(&self) -> bool {
        self.a.wf() && self.b.wf()
    }

    open spec fn next_output(&self) -> <Sorceress as DeepView>::V {
        (self.a.next_output(), self.b.next_output())
    }

    open spec fn next_state(&self) -> Self {
        SorceressGenerator { a: self.a.next_state(), b: self.b.next_state() }
    }

    fn generate(&mut self) -> (r: Sorceress) {
        let a = self.a.generate();
        let b = self.b.generate();
        Sorceress { a, b }
    }
}

impl Generatable for Sorceress {
    type Generator = SorceressGenerator<Pattern<Inc<i64>>, Inc<i32>>;

    open spec fn is_default_generator(g: &Self::Generator) -> bool {
        &&& g.a.prefix() == "an-example-"@ && g.a.arg() == Inc(1i64) && g.a.suffix() == ""@
        &&& g.b == Inc(5i32)
    }

    fn generator() -> (r: Self::Generator) {
        SorceressGenerator { a: Pattern::new("an-example-", Inc(1i64), ""), b: Inc(5i32) }
    }
}

#[derive(Debug)]
/// A record with a string holding two numbers, and a counted number.
pub struct Sorceress2 {
    pub a: String,
    pub b: i32,
}

impl DeepView for Sorceress2 {
    type V = (<String as DeepView>::V, <i32 as DeepView>::V);

    open spec fn deep_view(&self) -> Self::V {
        (self.a.deep_view(), self.b.deep_view())
    }
}

/// The generator of `Sorceress2`: one generator per field, each of which keeps
/// its state from one record to the next.
pub struct Sorceress2Generator<A, B> {
    pub a: A,
    pub b: B,
}

impl<A, B> Sorceress2Generator<A, B> {
    /// Replaces the generator of `a`.
    pub fn a<G: Generator<Output = String>>(self, gen: G) -> (r: Sorceress2Generator<G, B>)
        ensures
            r.a == gen,
            r.b == self.b,
    {
        Sorceress2Generator { a: gen, b: self.b }
    }

    /// Replaces the generator of `b`.
    pub fn b<G: Generator<Output = i32>>(self, gen: G) -> (r: Sorceress2Generator<A, G>)
        ensures
            r.a == self.a,
            r.b == gen,
    {
        Sorceress2Generator { a: self.a, b: gen }
    }
}

impl<A: Generator<Output = String>, B: Generator<Output = i32>> Generator for Sorceress2Generator<A, B> {
    type Output = Sorceress2;

    open spec fn wf(&self) -> bool {
        self.a.wf() && self.b.wf()
    }

    open spec fn next_output(&self) -> <Sorceress2 as DeepView>::V {
        (self.a.next_output(), self.b.next_output())
    }

    open spec fn next_state(&self) -> Self {
        Sorceress2Generator { a: self.a.next_state(), b: self.b.next_state() }
    }

    fn generate(&mut self) -> (r: Sorceress2) {
        let a = self.a.generate();
        let b = self.b.generate();
        Sorceress2 { a, b }
    }
}

impl Generatable for Sorceress2 {
    type Generator = Sorceress2Generator<Pattern2<Inc<i64>, Inc<i64>>, Inc<i32>>;

    open spec fn is_default_generator(g: &Self::Generator) -> bool {
        &&& g.a.head() == ""@ && g.a.first() == Inc(1i64) && g.a.middle() == "-an-example-"@ && g.a.second() == Inc(5i64) && g.a.tail() == ""@
        &&& g.b == Inc(5i32)
    }

    fn generator() -> (r: Self::Generator) {
        Sorceress2Generator { a: Pattern2::new("", Inc(1i64), "-an-example-", Inc(5i64), ""), b: Inc(5i32) }
    }
}

/// A record with a field of any generatable type.
#[derive(Debug)]
pub struct Elephant<T> {
    pub foo: T,
    pub ival: i64,
}

impl<T: DeepView> DeepView for Elephant<T> {
    type V = (T::V, i64);

    open spec fn deep_view(&self) -> Self::V {
        (self.foo.deep_view(), self.ival)
    }
}

/// The generator of `Elephant`: one generator per field, each of which
/// keeps its state from one record to the next.
pub struct ElephantGenerator<A, B> {
    pub foo: A,
    pub ival: B,
}

impl<A, B> ElephantGenerator<A, B> {
    /// Replaces the generator of `foo`.
    pub fn foo<G>(self, gen: G) -> (r: ElephantGenerator<G, B>)
        ensures
            r.foo == gen,
            r.ival == self.ival,
    {
        ElephantGenerator { foo: gen, ival: self.ival }
    }

    /// Replaces the generator of `ival`.
    pub fn ival<G: Generator<Output = i64>>(self, gen: G) -> (r: ElephantGenerator<A, G>)
        ensures
            r.foo == self.foo,
            r.ival == gen,
    {
        ElephantGenerator { foo: self.foo, ival: gen }
    }
}

impl<A: Generator, B: Generator<Output = i64>> Generator for ElephantGenerator<A, B> {
    type Output = Elephant<A::Output>;

    open spec fn wf(&self) -> bool {
        self.foo.wf() && self.ival.wf()
    }

    open spec fn next_output(&self) -> <Elephant<A::Output> as DeepView>::V {
        (self.foo.next_output(), self.ival.next_output())
    }

    open spec fn next_state(&self) -> Self {
        ElephantGenerator { foo: self.foo.next_state(), ival: self.ival.next_state() }
    }

    fn generate(&mut self) -> (r: Elephant<A::Output>) {
        let foo = self.foo.generate();
        let ival = self.ival.generate();
        Elephant { foo, ival }
    }
}

impl<T: Generatable> Generatable for Elephant<T> {
    type Generator = ElephantGenerator<T::Generator, Const<i64>>;

    open spec fn is_default_generator(g: &Self::Generator) -> bool {
        &&& T::is_default_generator(&g.foo)
        &&& g.ival == Const(5i64)
    }

    fn generator() -> (r: Self::Generator) {
        ElephantGenerator { foo: T::generator(), ival: Const(5i64) }
    }
}

#[derive(Debug)]
/// A record whose fields take the default values of their types.
pub struct Giraffe {
    pub a: i32,
    pub b: String,
}

impl DeepView for Giraffe {
    type V = (<i32 as DeepView>::V, <String as DeepView>::V);

    open spec fn deep_view(&self) -> Self::V {
        (self.a.deep_view(), self.b.deep_view())
    }
}

/// The generator of `Giraffe`: one generator per field, each of which keeps
/// its state from one record to the next.
pub struct GiraffeGenerator<A, B> {
    pub a: A,
    pub b: B,
}

impl<A, B> GiraffeGenerator<A, B> {
    /// Replaces the generator of `a`.
    pub fn a<G: Generator<Output = i32>>(self, gen: G) -> (r: GiraffeGenerator<G, B>)
        ensures
            r.a == gen,
            r.b == self.b,
    {
        GiraffeGenerator { a: gen, b: self.b }
    }

    /// Replaces the generator of `b`.
    pub fn b<G: Generator<Output = String>>(self, gen: G) -> (r: GiraffeGenerator<A, G>)
        ensures
            r.a == self.a,
            r.b == gen,
    {
        GiraffeGenerator { a: self.a, b: gen }
    }
}

impl<A: Generator<Output = i32>, B: Generator<Output = String>> Generator for GiraffeGenerator<A, B> {
    type Output = Giraffe;

    open spec fn wf(&self) -> bool {
        self.a.wf() && self.b.wf()
    }

    open spec fn next_output(&self) -> <Giraffe as DeepView>::V {
        (self.a.next_output(), self.b.next_output())
    }

    open spec fn next_state(&self) -> Self {
        GiraffeGenerator { a: self.a.next_state(), b: self.b.next_state() }
    }

    fn generate(&mut self) -> (r: Giraffe) {
        let a = self.a.generate();
        let b = self.b.generate();
        Giraffe { a, b }
    }
}

impl Generatable for Giraffe {
    type Generator = GiraffeGenerator<Const<i32>, Const<String>>;

    open spec fn is_default_generator(g: &Self::Generator) -> bool {
        &&& g.a == Const(0i32)
        &&& g.b.0@ == Seq::<char>::empty()
    }

    fn generator() -> (r: Self::Generator) {
        GiraffeGenerator { a: Const(0i32), b: Const(String::new()) }
    }
}

#[derive(Debug)]
/// A record with a sequence field of fixed length: by default two empty strings.
pub struct Zebra1 {
    pub a: i32,
    pub b: Vec<String>,
}

impl DeepView for Zebra1 {
    type V = (<i32 as DeepView>::V, <Vec<String> as DeepView>::V);

    open spec fn deep_view(&self) -> Self::V {
        (self.a.deep_view(), self.b.deep_view())
    }
}

/// The builder of `Zebra1`: an optional override per field.
pub struct Zebra1Builder {
    pub a: Option<i32>,
    pub b: Option<Vec<String>>,
}

impl Zebra1Builder {
    /// Overrides `a`.
    pub fn a(self, value: i32) -> (r: Self)
        ensures
            r.a == Option::Some(value),
            r.b == self.b,
    {
        Zebra1Builder { a: Option::Some(value), ..self }
    }

    /// Overrides `b`.
    pub fn b(self, value: Vec<String>) -> (r: Self)
        ensures
            r.b == Option::Some(value),
            r.a == self.a,
    {
        Zebra1Builder { b: Option::Some(value), ..self }
    }

}

impl Builder for Zebra1Builder {
    type Output = Zebra1;

    open spec fn built(&self) -> <Zebra1 as DeepView>::V {
        (
            match self.a {
                Option::Some(x) => x.deep_view(),
                Option::None => 0i32,
            },
            match self.b {
                Option::Some(x) => x.deep_view(),
                Option::None => Seq::new(2, |i: int| Seq::<char>::empty()),
            },
        )
    }

    fn build(self) -> (r: Zebra1) {
        let a = match self.a {
            Option::Some(x) => x,
            Option::None => 0,
        };
        let b = match self.b {
            Option::Some(x) => x,
            Option::None => repeated(String::new(), 2),
        };
        Zebra1 { a, b }
    }
}

impl Buildable for Zebra1 {
    type Builder = Zebra1Builder;

    open spec fn default_builder() -> Zebra1Builder {
        Zebra1Builder { a: Option::None, b: Option::None }
    }

    fn builder() -> (r: Zebra1Builder) {
        Zebra1Builder { a: Option::None, b: Option::None }
    }
}

#[derive(Debug)]
/// A record with a sequence field of fixed length: by default three copies of a string.
pub struct Zebra2 {
    pub a: i32,
    pub b: Vec<String>,
}

impl DeepView for Zebra2 {
    type V = (<i32 as DeepView>::V, <Vec<String> as DeepView>::V);

    open spec fn deep_view(&self) -> Self::V {
        (self.a.deep_view(), self.b.deep_view())
    }
}

/// The builder of `Zebra2`: an optional override per field.
pub struct Zebra2Builder {
    pub a: Option<i32>,
    pub b: Option<Vec<String>>,
}

impl Zebra2Builder {
    /// Overrides `a`.
    pub fn a(self, value: i32) -> (r: Self)
        ensures
            r.a == Option::Some(value),
            r.b == self.b,
    {
        Zebra2Builder { a: Option::Some(value), ..self }
    }

    /// Overrides `b`.
    pub fn b(self, value: Vec<String>) -> (r: Self)
        ensures
            r.b == Option::Some(value),
            r.a == self.a,
    {
        Zebra2Builder { b: Option::Some(value), ..self }
    }

}

impl Builder for Zebra2Builder {
    type Output = Zebra2;

    open spec fn built(&self) -> <Zebra2 as DeepView>::V {
        (
            match self.a {
                Option::Some(x) => x.deep_view(),
                Option::None => 0i32,
            },
            match self.b {
                Option::Some(x) => x.deep_view(),
                Option::None => Seq::new(3, |i: int| "hello"@),
            },
        )
    }

    fn build(self) -> (r: Zebra2) {
        let a = match self.a {
            Option::Some(x) => x,
            Option::None => 0,
        };
        let b = match self.b {
            Option::Some(x) => x,
            Option::None => repeated("hello".to_owned(), 3),
        };
        Zebra2 { a, b }
    }
}

impl Buildable for Zebra2 {
    type Builder = Zebra2Builder;

    open spec fn default_builder() -> Zebra2Builder {
        Zebra2Builder { a: Option::None, b: Option::None }
    }

    fn builder() -> (r: Zebra2Builder) {
        Zebra2Builder { a: Option::None, b: Option::None }
    }
}

#[derive(Debug)]
/// A record with a sequence field of fixed length: by default four numbered strings.
pub struct Zebra3 {
    pub a: i32,
    pub b: Vec<String>,
}

impl DeepView for Zebra3 {
    type V = (<i32 as DeepView>::V, <Vec<String> as DeepView>::V);

    open spec fn deep_view(&self) -> Self::V {
        (self.a.deep_view(), self.b.deep_view())
    }
}

/// The builder of `Zebra3`: an optional override per field.
pub struct Zebra3Builder {
    pub a: Option<i32>,
    pub b: Option<Vec<String>>,
}

impl Zebra3Builder {
    /// Overrides `a`.
    pub fn a(self, value: i32) -> (r: Self)
        ensures
            r.a == Option::Some(value),
            r.b == self.b,
    {
        Zebra3Builder { a: Option::Some(value), ..self }
    }

    /// Overrides `b`.
    pub fn b(self, value: Vec<String>) -> (r: Self)
        ensures
            r.b == Option::Some(value),
            r.a == self.a,
    {
        Zebra3Builder { b: Option::Some(value), ..self }
    }

}

impl Builder for Zebra3Builder {
    type Output = Zebra3;

    open spec fn built(&self) -> <Zebra3 as DeepView>::V {
        (
            match self.a {
                Option::Some(x) => x.deep_view(),
                Option::None => 0i32,
            },
            match self.b {
                Option::Some(x) => x.deep_view(),
                Option::None => Seq::new(4, |i: int| "a-"@ + decimal(i)),
            },
        )
    }

    fn build(self) -> (r: Zebra3) {
        let a = match self.a {
            Option::Some(x) => x,
            Option::None => 0,
        };
        let b = match self.b {
            Option::Some(x) => x,
            Option::None => {
                let v = numbered("a-", 0, 4);
                proof {
                    assert(v.deep_view() =~= Seq::new(4, |i: int| "a-"@ + decimal(i)));
                }
                v
            },
        };
        Zebra3 { a, b }
    }
}

impl Buildable for Zebra3 {
    type Builder = Zebra3Builder;

    open spec fn default_builder() -> Zebra3Builder {
        Zebra3Builder { a: Option::None, b: Option::None }
    }

    fn builder() -> (r: Zebra3Builder) {
        Zebra3Builder { a: Option::None, b: Option::None }
    }
}

#[derive(Debug)]
/// A record with a sequence field of fixed length: by default five generated records.
pub struct Zebra4 {
    pub a: i32,
    pub b: Vec<Nested>,
}

impl DeepView for Zebra4 {
    type V = (<i32 as DeepView>::V, <Vec<Nested> as DeepView>::V);

    open spec fn deep_view(&self) -> Self::V {
        (self.a.deep_view(), self.b.deep_view())
    }
}

/// The builder of `Zebra4`: an optional override per field.
pub struct Zebra4Builder {
    pub a: Option<i32>,
    pub b: Option<Vec<Nested>>,
}

impl Zebra4Builder {
    /// Overrides `a`.
    pub fn a(self, value: i32) -> (r: Self)
        ensures
            r.a == Option::Some(value),
            r.b == self.b,
    {
        Zebra4Builder { a: Option::Some(value), ..self }
    }

    /// Overrides `b`.
    pub fn b(self, value: Vec<Nested>) -> (r: Self)
        ensures
            r.b == Option::Some(value),
            r.a == self.a,
    {
        Zebra4Builder { b: Option::Some(value), ..self }
    }

}

impl Builder for Zebra4Builder {
    type Output = Zebra4;

    open spec fn built(&self) -> <Zebra4 as DeepView>::V {
        (
            match self.a {
                Option::Some(x) => x.deep_view(),
                Option::None => 0i32,
            },
            match self.b {
                Option::Some(x) => x.deep_view(),
                Option::None => Seq::new(5, |i: int| ((5 + i) as i32, "x"@ + decimal(2 + i))),
            },
        )
    }

    fn build(self) -> (r: Zebra4) {
        let a = match self.a {
            Option::Some(x) => x,
            Option::None => 0,
        };
        let b = match self.b {
            Option::Some(x) => x,
            Option::None => numbered_nested(5, "x", 2, 5),
        };
        Zebra4 { a, b }
    }
}

impl Buildable for Zebra4 {
    type Builder = Zebra4Builder;

    open spec fn default_builder() -> Zebra4Builder {
        Zebra4Builder { a: Option::None, b: Option::None }
    }

    fn builder() -> (r: Zebra4Builder) {
        Zebra4Builder { a: Option::None, b: Option::None }
    }
}

#[derive(Debug)]
/// A record with a sequence field of fixed length: by default six copies of a built record.
pub struct Zebra5 {
    pub a: i32,
    pub b: Vec<Nested>,
}

impl DeepView for Zebra5 {
    type V = (<i32 as DeepView>::V, <Vec<Nested> as DeepView>::V);

    open spec fn deep_view(&self) -> Self::V {
        (self.a.deep_view(), self.b.deep_view())
    }
}

/// The builder of `Zebra5`: an optional override per field.
pub struct Zebra5Builder {
    pub a: Option<i32>,
    pub b: Option<Vec<Nested>>,
}

impl Zebra5Builder {
    /// Overrides `a`.
    pub fn a(self, value: i32) -> (r: Self)
        ensures
            r.a == Option::Some(value),
            r.b == self.b,
    {
        Zebra5Builder { a: Option::Some(value), ..self }
    }

    /// Overrides `b`.
    pub fn b(self, value: Vec<Nested>) -> (r: Self)
        ensures
            r.b == Option::Some(value),
            r.a == self.a,
    {
        Zebra5Builder { b: Option::Some(value), ..self }
    }

}

impl Builder for Zebra5Builder {
    type Output = Zebra5;

    open spec fn built(&self) -> <Zebra5 as DeepView>::V {
        (
            match self.a {
                Option::Some(x) => x.deep_view(),
                Option::None => 0i32,
            },
            match self.b {
                Option::Some(x) => x.deep_view(),
                Option::None => Seq::new(6, |i: int| (10i32, "hello"@)),
            },
        )
    }

    fn build(self) -> (r: Zebra5) {
        let a = match self.a {
            Option::Some(x) => x,
            Option::None => 0,
        };
        let b = match self.b {
            Option::Some(x) => x,
            Option::None => repeated(Nested::builder().a(10).b("hello").build(), 6),
        };
        Zebra5 { a, b }
    }
}

impl Buildable for Zebra5 {
    type Builder = Zebra5Builder;

    open spec fn default_builder() -> Zebra5Builder {
        Zebra5Builder { a: Option::None, b: Option::None }
    }

    fn builder() -> (r: Zebra5Builder) {
        Zebra5Builder { a: Option::None, b: Option::None }
    }
}

#[derive(Debug)]
/// A record with a sequence field of growing length: by default empty strings, two in the first record.
pub struct Kangaroo1 {
    pub a: i32,
    pub b: Vec<String>,
}

impl DeepView for Kangaroo1 {
    type V = (<i32 as DeepView>::V, <Vec<String> as DeepView>::V);

    open spec fn deep_view(&self) -> Self::V {
        (self.a.deep_view(), self.b.deep_view())
    }
}

/// The generator of `Kangaroo1`: one generator per field, each of which keeps
/// its state from one record to the next.
pub struct Kangaroo1Generator<A, B> {
    pub a: A,
    pub b: B,
}

impl<A, B> Kangaroo1Generator<A, B> {
    /// Replaces the generator of `a`.
    pub fn a<G: Generator<Output = i32>>(self, gen: G) -> (r: Kangaroo1Generator<G, B>)
        ensures
            r.a == gen,
            r.b == self.b,
    {
        Kangaroo1Generator { a: gen, b: self.b }
    }

    /// Replaces the generator of `b`.
    pub fn b<G: Generator<Output = Vec<String>>>(self, gen: G) -> (r: Kangaroo1Generator<A, G>)
        ensures
            r.a == self.a,
            r.b == gen,
    {
        Kangaroo1Generator { a: self.a, b: gen }
    }
}

impl<A: Generator<Output = i32>, B: Generator<Output = Vec<String>>> Generator for Kangaroo1Generator<A, B> {
    type Output = Kangaroo1;

    open spec fn wf(&self) -> bool {
        self.a.wf() && self.b.wf()
    }

    open spec fn next_output(&self) -> <Kangaroo1 as DeepView>::V {
        (self.a.next_output(), self.b.next_output())
    }

    open spec fn next_state(&self) -> Self {
        Kangaroo1Generator { a: self.a.next_state(), b: self.b.next_state() }
    }

    fn generate(&mut self) -> (r: Kangaroo1) {
        let a = self.a.generate();
        let b = self.b.generate();
        Kangaroo1 { a, b }
    }
}

impl Generatable for Kangaroo1 {
    type Generator = Kangaroo1Generator<Const<i32>, Sample<Const<String>, Inc<usize>>>;

    open spec fn is_default_generator(g: &Self::Generator) -> bool {
        &&& g.a == Const(0i32)
        &&& g.b.value().0@ == Seq::<char>::empty() && g.b.count() == Inc(2usize)
    }

    fn generator() -> (r: Self::Generator) {
        Kangaroo1Generator { a: Const(0i32), b: Sample::new(Const(String::new()), Inc(2usize)) }
    }
}

#[derive(Debug)]
/// A record with a sequence field of growing length: by default copies of a string, three in the first record.
pub struct Kangaroo2 {
    pub a: i32,
    pub b: Vec<String>,
}

impl DeepView for Kangaroo2 {
    type V = (<i32 as DeepView>::V, <Vec<String> as DeepView>::V);

    open spec fn deep_view(&self) -> Self::V {
        (self.a.deep_view(), self.b.deep_view())
    }
}

/// The generator of `Kangaroo2`: one generator per field, each of which keeps
/// its state from one record to the next.
pub struct Kangaroo2Generator<A, B> {
    pub a: A,
    pub b: B,
}

impl<A, B> Kangaroo2Generator<A, B> {
    /// Replaces the generator of `a`.
    pub fn a<G: Generator<Output = i32>>(self, gen: G) -> (r: Kangaroo2Generator<G, B>)
        ensures
            r.a == gen,
            r.b == self.b,
    {
        Kangaroo2Generator { a: gen, b: self.b }
    }

    /// Replaces the generator of `b`.
    pub fn b<G: Generator<Output = Vec<String>>>(self, gen: G) -> (r: Kangaroo2Generator<A, G>)
        ensures
            r.a == self.a,
            r.b == gen,
    {
        Kangaroo2Generator { a: self.a, b: gen }
    }
}

impl<A: Generator<Output = i32>, B: Generator<Output = Vec<String>>> Generator for Kangaroo2Generator<A, B> {
    type Output = Kangaroo2;

    open spec fn wf(&self) -> bool {
        self.a.wf() && self.b.wf()
    }

    open spec fn next_output(&self) -> <Kangaroo2 as DeepView>::V {
        (self.a.next_output(), self.b.next_output())
    }

    open spec fn next_state(&self) -> Self {
        Kangaroo2Generator { a: self.a.next_state(), b: self.b.next_state() }
    }

    fn generate(&mut self) -> (r: Kangaroo2) {
        let a = self.a.generate();
        let b = self.b.generate();
        Kangaroo2 { a, b }
    }
}

impl Generatable for Kangaroo2 {
    type Generator = Kangaroo2Generator<Const<i32>, Sample<Const<String>, Inc<usize>>>;

    open spec fn is_default_generator(g: &Self::Generator) -> bool {
        &&& g.a == Const(0i32)
        &&& g.b.value().0@ == "hello"@ && g.b.count() == Inc(3usize)
    }

    fn generator() -> (r: Self::Generator) {
        Kangaroo2Generator { a: Const(0i32), b: Sample::new(Const("hello".to_owned()), Inc(3usize)) }
    }
}

#[derive(Debug)]
/// A record with a sequence field of growing length: by default numbered strings, four in the first record.
pub struct Kangaroo3 {
    pub a: i32,
    pub b: Vec<String>,
}

impl DeepView for Kangaroo3 {
    type V = (<i32 as DeepView>::V, <Vec<String> as DeepView>::V);

    open spec fn deep_view(&self) -> Self::V {
        (self.a.deep_view(), self.b.deep_view())
    }
}

/// The generator of `Kangaroo3`: one generator per field, each of which keeps
/// its state from one record to the next.
pub struct Kangaroo3Generator<A, B> {
    pub a: A,
    pub b: B,
}

impl<A, B> Kangaroo3Generator<A, B> {
    /// Replaces the generator of `a`.
    pub fn a<G: Generator<Output = i32>>(self, gen: G) -> (r: Kangaroo3Generator<G, B>)
        ensures
            r.a == gen,
            r.b == self.b,
    {
        Kangaroo3Generator { a: gen, b: self.b }
    }

    /// Replaces the generator of `b`.
    pub fn b<G: Generator<Output = Vec<String>>>(self, gen: G) -> (r: Kangaroo3Generator<A, G>)
        ensures
            r.a == self.a,
            r.b == gen,
    {
        Kangaroo3Generator { a: self.a, b: gen }
    }
}

impl<A: Generator<Output = i32>, B: Generator<Output = Vec<String>>> Generator for Kangaroo3Generator<A, B> {
    type Output = Kangaroo3;

    open spec fn wf(&self) -> bool {
        self.a.wf() && self.b.wf()
    }

    open spec fn next_output(&self) -> <Kangaroo3 as DeepView>::V {
        (self.a.next_output(), self.b.next_output())
    }

    open spec fn next_state(&self) -> Self {
        Kangaroo3Generator { a: self.a.next_state(), b: self.b.next_state() }
    }

    fn generate(&mut self) -> (r: Kangaroo3) {
        let a = self.a.generate();
        let b = self.b.generate();
        Kangaroo3 { a, b }
    }
}

impl Generatable for Kangaroo3 {
    type Generator = Kangaroo3Generator<Const<i32>, Sample<Pattern<Inc<i64>>, Inc<usize>>>;

    open spec fn is_default_generator(g: &Self::Generator) -> bool {
        &&& g.a == Const(0i32)
        &&& g.b.value().prefix() == "a-"@ && g.b.value().arg() == Inc(0i64) && g.b.value().suffix() == ""@ && g.b.count() == Inc(4usize)
    }

    fn generator() -> (r: Self::Generator) {
        Kangaroo3Generator { a: Const(0i32), b: Sample::new(Pattern::new("a-", Inc(0i64), ""), Inc(4usize)) }
    }
}

#[derive(Debug)]
/// A record with a sequence field of growing length: by default generated records, five in the first record.
pub struct Kangaroo4 {
    pub a: i32,
    pub b: Vec<Nested>,
}

impl DeepView for Kangaroo4 {
    type V = (<i32 as DeepView>::V, <Vec<Nested> as DeepView>::V);

    open spec fn deep_view(&self) -> Self::V {
        (self.a.deep_view(), self.b.deep_view())
    }
}

/// The generator of `Kangaroo4`: one generator per field, each of which keeps
/// its state from one record to the next.
pub struct Kangaroo4Generator<A, B> {
    pub a: A,
    pub b: B,
}

impl<A, B> Kangaroo4Generator<A, B> {
    /// Replaces the generator of `a`.
    pub fn a<G: Generator<Output = i32>>(self, gen: G) -> (r: Kangaroo4Generator<G, B>)
        ensures
            r.a == gen,
            r.b == self.b,
    {
        Kangaroo4Generator { a: gen, b: self.b }
    }

    /// Replaces the generator of `b`.
    pub fn b<G: Generator<Output = Vec<Nested>>>(self, gen: G) -> (r: Kangaroo4Generator<A, G>)
        ensures
            r.a == self.a,
            r.b == gen,
    {
        Kangaroo4Generator { a: self.a, b: gen }
    }
}

impl<A: Generator<Output = i32>, B: Generator<Output = Vec<Nested>>> Generator for Kangaroo4Generator<A, B> {
    type Output = Kangaroo4;

    open spec fn wf(&self) -> bool {
        self.a.wf() && self.b.wf()
    }

    open spec fn next_output(&self) -> <Kangaroo4 as DeepView>::V {
        (self.a.next_output(), self.b.next_output())
    }

    open spec fn next_state(&self) -> Self {
        Kangaroo4Generator { a: self.a.next_state(), b: self.b.next_state() }
    }

    fn generate(&mut self) -> (r: Kangaroo4) {
        let a = self.a.generate();
        let b = self.b.generate();
        Kangaroo4 { a, b }
    }
}

impl Generatable for Kangaroo4 {
    type Generator = Kangaroo4Generator<Const<i32>, Sample<NestedGenerator<Inc<i32>, Pattern<Inc<i64>>>, Inc<usize>>>;

    open spec fn is_default_generator(g: &Self::Generator) -> bool {
        &&& g.a == Const(0i32)
        &&& g.b.value().a == Inc(5i32) && g.b.value().b.prefix() == "x"@ && g.b.value().b.arg() == Inc(2i64) && g.b.value().b.suffix() == ""@ && g.b.count() == Inc(5usize)
    }

    fn generator() -> (r: Self::Generator) {
        Kangaroo4Generator { a: Const(0i32), b: Sample::new(NestedGenerator { a: Inc(5i32), b: Pattern::new("x", Inc(2i64), "") }, Inc(5usize)) }
    }
}

#[derive(Debug)]
/// A record with a sequence field of growing length: by default copies of a built record, six in the first record.
pub struct Kangaroo5 {
    pub a: i32,
    pub b: Vec<Nested>,
}

impl DeepView for Kangaroo5 {
    type V = (<i32 as DeepView>::V, <Vec<Nested> as DeepView>::V);

    open spec fn deep_view(&self) -> Self::V {
        (self.a.deep_view(), self.b.deep_view())
    }
}

/// The generator of `Kangaroo5`: one generator per field, each of which keeps
/// its state from one record to the next.
pub struct Kangaroo5Generator<A, B> {
    pub a: A,
    pub b: B,
}

impl<A, B> Kangaroo5Generator<A, B> {
    /// Replaces the generator of `a`.
    pub fn a<G: Generator<Output = i32>>(self, gen: G) -> (r: Kangaroo5Generator<G, B>)
        ensures
            r.a == gen,
            r.b == self.b,
    {
        Kangaroo5Generator { a: gen, b: self.b }
    }

    /// Replaces the generator of `b`.
    pub fn b<G: Generator<Output = Vec<Nested>>>(self, gen: G) -> (r: Kangaroo5Generator<A, G>)
        ensures
            r.a == self.a,
            r.b == gen,
    {
        Kangaroo5Generator { a: self.a, b: gen }
    }
}

impl<A: Generator<Output = i32>, B: Generator<Output = Vec<Nested>>> Generator for Kangaroo5Generator<A, B> {
    type Output = Kangaroo5;

    open spec fn wf(&self) -> bool {
        self.a.wf() && self.b.wf()
    }

    open spec fn next_output(&self) -> <Kangaroo5 as DeepView>::V {
        (self.a.next_output(), self.b.next_output())
    }

    open spec fn next_state(&self) -> Self {
        Kangaroo5Generator { a: self.a.next_state(), b: self.b.next_state() }
    }

    fn generate(&mut self) -> (r: Kangaroo5) {
        let a = self.a.generate();
        let b = self.b.generate();
        Kangaroo5 { a, b }
    }
}

impl Generatable for Kangaroo5 {
    type Generator = Kangaroo5Generator<Const<i32>, Sample<Const<Nested>, Inc<usize>>>;

    open spec fn is_default_generator(g: &Self::Generator) -> bool {
        &&& g.a == Const(0i32)
        &&& g.b.value().0.deep_view() == (10i32, "hello"@) && g.b.count() == Inc(6usize)
    }

    fn generator() -> (r: Self::Generator) {
        Kangaroo5Generator { a: Const(0i32), b: Sample::new(Const(Nested::builder().a(10).b("hello").build()), Inc(6usize)) }
    }
}

#[derive(Debug)]
/// A record with a sequence field of fixed length: by default three generated records in each.
pub struct Kangaroo6 {
    pub a: i32,
    pub b: Vec<Nested>,
}

impl DeepView for Kangaroo6 {
    type V = (<i32 as DeepView>::V, <Vec<Nested> as DeepView>::V);

    open spec fn deep_view(&self) -> Self::V {
        (self.a.deep_view(), self.b.deep_view())
    }
}

/// The generator of `Kangaroo6`: one generator per field, each of which keeps
/// its state from one record to the next.
pub struct Kangaroo6Generator<A, B> {
    pub a: A,
    pub b: B,
}

impl<A, B> Kangaroo6Generator<A, B> {
    /// Replaces the generator of `a`.
    pub fn a<G: Generator<Output = i32>>(self, gen: G) -> (r: Kangaroo6Generator<G, B>)
        ensures
            r.a == gen,
            r.b == self.b,
    {
        Kangaroo6Generator { a: gen, b: self.b }
    }

    /// Replaces the generator of `b`.
    pub fn b<G: Generator<Output = Vec<Nested>>>(self, gen: G) -> (r: Kangaroo6Generator<A, G>)
        ensures
            r.a == self.a,
            r.b == gen,
    {
        Kangaroo6Generator { a: self.a, b: gen }
    }
}

impl<A: Generator<Output = i32>, B: Generator<Output = Vec<Nested>>> Generator for Kangaroo6Generator<A, B> {
    type Output = Kangaroo6;

    open spec fn wf(&self) -> bool {
        self.a.wf() && self.b.wf()
    }

    open spec fn next_output(&self) -> <Kangaroo6 as DeepView>::V {
        (self.a.next_output(), self.b.next_output())
    }

    open spec fn next_state(&self) -> Self {
        Kangaroo6Generator { a: self.a.next_state(), b: self.b.next_state() }
    }

    fn generate(&mut self) -> (r: Kangaroo6) {
        let a = self.a.generate();
        let b = self.b.generate();
        Kangaroo6 { a, b }
    }
}

impl Generatable for Kangaroo6 {
    type Generator = Kangaroo6Generator<Const<i32>, Sample<NestedGenerator<Inc<i32>, Pattern<Inc<i64>>>, Const<usize>>>;

    open spec fn is_default_generator(g: &Self::Generator) -> bool {
        &&& g.a == Const(0i32)
        &&& g.b.value().a == Inc(5i32) && g.b.value().b.prefix() == "x"@ && g.b.value().b.arg() == Inc(2i64) && g.b.value().b.suffix() == ""@ && g.b.count() == Const(3usize)
    }

    fn generator() -> (r: Self::Generator) {
        Kangaroo6Generator { a: Const(0i32), b: Sample::new(NestedGenerator { a: Inc(5i32), b: Pattern::new("x", Inc(2i64), "") }, Const(3usize)) }
    }
}

} // verus!
