//! The generator capability: a stateful producer of an unbounded,
//! deterministic sequence of values.
use vstd::prelude::*;

verus! {

/// A stateful producer of values.
///
/// Each call of `generate` returns `next_output()` of the state it was
/// called on and moves the state to `next_state()`. Both are spec
/// functions of the state alone, so a generator holds no hidden entropy.
pub trait Generator: Sized {
    type Output: DeepView;

    /// What the generator asks of its state (a non-empty base, say).
    spec fn wf(&self) -> bool;

    /// The value that the next call of `generate` returns.
    spec fn next_output(&self) -> <Self::Output as DeepView>::V;

    /// The state after the next call of `generate`.
    spec fn next_state(&self) -> Self;

    fn generate(&mut self) -> (r: Self::Output)
        requires
            old(self).wf(),
        ensures
            r.deep_view() == old(self).next_output(),
            *final(self) == old(self).next_state(),
            final(self).wf(),
    ;
}

/// The state of `g` after `n` calls of `generate`.
pub open spec fn advanced<G: Generator>(g: G, n: nat) -> G
    decreases n,
{
    if n == 0 {
        g
    } else {
        advanced(g.next_state(), (n - 1) as nat)
    }
}

/// The values that `n` calls of `generate` on `g` return, in order.
pub open spec fn outputs<G: Generator>(g: G, n: nat) -> Seq<<G::Output as DeepView>::V>
    decreases n,
{
    if n == 0 {
        Seq::empty()
    } else {
        seq![g.next_output()] + outputs(g.next_state(), (n - 1) as nat)
    }
}

/// One step more is one call more on the state reached so far.
pub proof fn lemma_step<G: Generator>(g: G, n: nat)
    ensures
        advanced(g, n + 1) == advanced(g, n).next_state(),
        outputs(g, n + 1) == outputs(g, n).push(advanced(g, n).next_output()),
        outputs(g, n).len() == n,
    decreases n,
{
    if n > 0 {
        lemma_step(g.next_state(), (n - 1) as nat);
        assert(outputs(g, n + 1) =~= outputs(g, n).push(advanced(g, n).next_output()));
    } else {
        assert(advanced(g.next_state(), 0) == g.next_state());
        assert(outputs(g.next_state(), 0) =~= Seq::<<G::Output as DeepView>::V>::empty());
        assert(outputs(g, 1) =~= outputs(g, 0).push(g.next_output()));
    }
}

/// Drawing `a` values and then `b` more is drawing `a + b` values.
pub proof fn lemma_split<G: Generator>(g: G, a: nat, b: nat)
    ensures
        outputs(g, a + b) == outputs(g, a) + outputs(advanced(g, a), b),
        advanced(g, a + b) == advanced(advanced(g, a), b),
    decreases a,
{
    if a > 0 {
        lemma_split(g.next_state(), (a - 1) as nat, b);
        assert(outputs(g, a + b) =~= outputs(g, a) + outputs(advanced(g, a), b));
    } else {
        assert(outputs(g, b) =~= outputs(g, 0) + outputs(g, b));
    }
}

/// The `k`-th of `n` values is the one that the state after `k` calls
/// yields.
pub proof fn lemma_prefix<G: Generator>(g: G, k: nat, n: nat)
    requires
        k < n,
    ensures
        outputs(g, n)[k as int] == advanced(g, k).next_output(),
{
    lemma_split(g, k, (n - k) as nat);
    lemma_step(g, k);
    lemma_step(g, n);
    let rest = advanced(g, k);
    assert(outputs(rest, (n - k) as nat)[0] == rest.next_output());
}

/// Two generators in the same state produce the same values, call for
/// call, and end in the same state.
pub proof fn lemma_determinism<G: Generator>(g1: G, g2: G, n: nat)
    requires
        g1 == g2,
    ensures
        outputs(g1, n) == outputs(g2, n),
        advanced(g1, n) == advanced(g2, n),
{
}

/// Draws `n` values from `g`, continuing from its current state.
pub fn take<G: Generator>(g: &mut G, n: usize) -> (r: Vec<G::Output>)
    requires
        old(g).wf(),
    ensures
        r.deep_view() == outputs(*old(g), n as nat),
        *final(g) == advanced(*old(g), n as nat),
        final(g).wf(),
{
    let ghost g0 = *g;
    let mut v: Vec<G::Output> = Vec::new();
    let mut i: usize = 0;
    while i < n
        invariant
            i <= n,
            g.wf(),
            v.deep_view() == outputs(g0, i as nat),
            *g == advanced(g0, i as nat),
        decreases n - i,
    {
        proof {
            lemma_step(g0, i as nat);
        }
        let x = g.generate();
        v.push(x);
        assert(v.deep_view() =~= outputs(g0, (i + 1) as nat));
        i = i + 1;
    }
    v
}

/// A value that can be copied exactly.
pub trait Duplicate: Sized {
    fn duplicate(&self) -> (r: Self)
        ensures
            r == *self,
    ;
}

impl Duplicate for String {
    fn duplicate(&self) -> (r: Self) {
        self.clone()
    }
}

impl Duplicate for bool {
    fn duplicate(&self) -> (r: Self) {
        *self
    }
}

impl Duplicate for char {
    fn duplicate(&self) -> (r: Self) {
        *self
    }
}

impl Duplicate for i16 {
    fn duplicate(&self) -> (r: Self) {
        *self
    }
}

impl Duplicate for i32 {
    fn duplicate(&self) -> (r: Self) {
        *self
    }
}

impl Duplicate for i64 {
    fn duplicate(&self) -> (r: Self) {
        *self
    }
}

impl Duplicate for u32 {
    fn duplicate(&self) -> (r: Self) {
        *self
    }
}

impl Duplicate for u64 {
    fn duplicate(&self) -> (r: Self) {
        *self
    }
}

impl Duplicate for usize {
    fn duplicate(&self) -> (r: Self) {
        *self
    }
}

impl Duplicate for i8 {
    fn duplicate(&self) -> (r: Self) {
        *self
    }
}

impl Duplicate for u8 {
    fn duplicate(&self) -> (r: Self) {
        *self
    }
}

impl Duplicate for u16 {
    fn duplicate(&self) -> (r: Self) {
        *self
    }
}

impl Duplicate for i128 {
    fn duplicate(&self) -> (r: Self) {
        *self
    }
}

impl Duplicate for u128 {
    fn duplicate(&self) -> (r: Self) {
        *self
    }
}

impl Duplicate for isize {
    fn duplicate(&self) -> (r: Self) {
        *self
    }
}

impl<T: Duplicate> Duplicate for Option<T> {
    fn duplicate(&self) -> (r: Self) {
        match self {
            Option::Some(x) => Option::Some(x.duplicate()),
            Option::None => Option::None,
        }
    }
}

} // verus!
