//! Synthetic test data: value generators that produce unbounded,
//! deterministic sequences, combinators that compose them, and records
//! assembled field by field from overrides, defaults and generators.
pub mod builder;
pub mod generator;
pub mod generators;
pub mod records;

pub use builder::{Buildable, Builder, Generatable};
pub use generator::{Duplicate, Generator, take};
pub use generators::{
    Const, Cycle, Inc, Optional, Pattern, Pattern2, Repeat, Sample, Step, Subsets, Time, TimeStep,
    Timestamp,
};
pub use records::{
    Badger, BadgerBuilder, Bodger, BodgerBuilder, Elephant, ElephantGenerator, Giraffe,
    GiraffeGenerator, Kangaroo1, Kangaroo1Generator, Kangaroo2, Kangaroo2Generator, Kangaroo3,
    Kangaroo3Generator, Kangaroo4, Kangaroo4Generator, Kangaroo5, Kangaroo5Generator, Kangaroo6,
    Kangaroo6Generator, Nested, NestedBuilder, NestedGenerator, Sorceress, Sorceress2,
    Sorceress2Generator, SorceressGenerator, Wizard, WizardGenerator, Womble, WombleBuilder,
    Zebra1, Zebra1Builder, Zebra2, Zebra2Builder, Zebra3, Zebra3Builder, Zebra4, Zebra4Builder,
    Zebra5, Zebra5Builder, foo,
};
