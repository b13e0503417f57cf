//! The builder capability, and the traits that give a record type its
//! builder or its generator.
use vstd::prelude::*;
use crate::generator::Generator;

verus! {

/// A one-shot accumulator of field overrides that produces exactly one
/// record.
pub trait Builder: Sized {
    type Output: DeepView;

    /// The record that `build` returns: each field is its override where
    /// one was given, else its declared default.
    spec fn built(&self) -> <Self::Output as DeepView>::V;

    fn build(self) -> (r: Self::Output)
        ensures
            r.deep_view() == self.built(),
    ;
}

/// A record type with a builder.
pub trait Buildable: Sized + DeepView {
    type Builder: Builder<Output = Self>;

    /// The builder with no field overridden.
    spec fn default_builder() -> Self::Builder;

    fn builder() -> (r: Self::Builder)
        ensures
            r == Self::default_builder(),
    ;
}

/// A record type with a generator.
pub trait Generatable: Sized + DeepView {
    type Generator: Generator<Output = Self>;

    /// Whether `g` holds each field's declared default generator, in its
    /// initial state.
    spec fn is_default_generator(g: &Self::Generator) -> bool;

    fn generator() -> (r: Self::Generator)
        ensures
            Self::is_default_generator(&r),
            r.wf(),
    ;
}

} // verus!
