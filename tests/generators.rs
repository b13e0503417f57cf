use boulder::{
    Buildable, Builder, Const, Cycle, Generatable, Generator, Inc, Kangaroo3, Optional, Pattern,
    Pattern2, Repeat, Sample, Subsets, Time, TimeStep, Timestamp, Womble, foo, take,
};

#[test]
fn foo_adds_six() {
    assert_eq!(foo(1), 7);
    assert_eq!(foo(5), 11);
    assert_eq!(foo(-6), 0);
}

#[test]
fn const_repeats_its_value() {
    let mut g = Const::new("same".to_string());
    for _ in 0..4 {
        assert_eq!(g.generate(), "same".to_string());
    }
}

#[test]
fn inc_counts_up_by_one() {
    let mut g = Inc(-2i64);
    assert_eq!(take(&mut g, 5), vec![-2, -1, 0, 1, 2]);
    let mut u = Inc(7usize);
    assert_eq!(u.generate(), 7);
    assert_eq!(u.generate(), 8);
}

#[test]
fn inc_with_no_calls_yields_nothing() {
    let mut g = Inc(3i32);
    assert_eq!(take(&mut g, 0), Vec::<i32>::new());
    assert_eq!(g.generate(), 3);
}

#[test]
fn inc_wraps_at_the_largest_value() {
    let mut g = Inc(i32::MAX);
    assert_eq!(g.generate(), i32::MAX);
    assert_eq!(g.generate(), i32::MIN);
    let mut u = Inc(u32::MAX);
    assert_eq!(u.generate(), u32::MAX);
    assert_eq!(u.generate(), 0);
}

#[test]
fn repeat_cycles_through_its_base() {
    let mut g = Repeat::new(vec![1i32, 2, 3]);
    assert_eq!(take(&mut g, 7), vec![1, 2, 3, 1, 2, 3, 1]);
}

#[test]
fn repeat_with_one_element() {
    let mut g = Repeat::new(vec!['z']);
    assert_eq!(take(&mut g, 3), vec!['z', 'z', 'z']);
}

#[test]
fn cycle_cycles_through_its_items() {
    let mut g = Cycle::new(vec!["a".to_string(), "b".to_string()]);
    let got = take(&mut g, 5);
    assert_eq!(got, vec!["a", "b", "a", "b", "a"]);
}

#[test]
fn optional_wraps_values() {
    let mut g = Optional(Inc(4u64));
    assert_eq!(g.generate(), Some(4));
    assert_eq!(g.generate(), Some(5));
}

#[test]
fn subsets_enumerate_in_binary_order() {
    let mut g = Subsets::new(vec!['a', 'b', 'c']);
    let expected: Vec<Vec<char>> = vec![
        vec![],
        vec!['a'],
        vec!['b'],
        vec!['a', 'b'],
        vec!['c'],
        vec!['a', 'c'],
        vec!['b', 'c'],
        vec!['a', 'b', 'c'],
    ];
    assert_eq!(take(&mut g, 8), expected);
    assert_eq!(take(&mut g, 8), expected);
}

#[test]
fn subsets_of_empty_base_are_empty() {
    let mut g = Subsets::<u32>::new(vec![]);
    assert_eq!(g.generate(), Vec::<u32>::new());
    assert_eq!(g.generate(), Vec::<u32>::new());
}

#[test]
fn subsets_never_pick_elements_past_the_counter_width() {
    let base: Vec<usize> = (0..70).collect();
    let mut g = Subsets::new(base);
    let mut all = Vec::new();
    for _ in 0..40 {
        all.extend(g.generate());
    }
    assert!(all.iter().all(|&x| x < 64));
}

#[test]
fn sample_continues_its_value_generator() {
    let mut g = Sample::new(Inc(1i32), Inc(1usize));
    assert_eq!(g.generate(), vec![1]);
    assert_eq!(g.generate(), vec![2, 3]);
    assert_eq!(g.generate(), vec![4, 5, 6]);
}

#[test]
fn sample_with_fixed_count() {
    let mut g = Sample::new(Repeat::new(vec![7u32, 8]), Const(3usize));
    assert_eq!(g.generate(), vec![7, 8, 7]);
    assert_eq!(g.generate(), vec![8, 7, 8]);
    let mut empty = Sample::new(Inc(0i64), Const(0usize));
    assert_eq!(empty.generate(), Vec::<i64>::new());
    assert_eq!(empty.generate(), Vec::<i64>::new());
}

#[test]
fn sample_length_follows_the_count_generator() {
    let mut g = Sample::new(Const('q'), Repeat::new(vec![2usize, 0, 5]));
    assert_eq!(g.generate().len(), 2);
    assert_eq!(g.generate().len(), 0);
    assert_eq!(g.generate().len(), 5);
    assert_eq!(g.generate().len(), 2);
}

#[test]
fn pattern_writes_numbers_in_decimal() {
    let mut g = Pattern::new("n=", Inc(-1i64), "!");
    assert_eq!(g.generate(), "n=-1!".to_string());
    assert_eq!(g.generate(), "n=0!".to_string());
    assert_eq!(g.generate(), "n=1!".to_string());
    let mut big = Pattern::new("", Inc(i64::MIN), "");
    assert_eq!(big.generate(), "-9223372036854775808".to_string());
}

#[test]
fn pattern2_writes_both_numbers() {
    let mut g = Pattern2::new("<", Inc(10i64), "|", Inc(-3i64), ">");
    assert_eq!(g.generate(), "<10|-3>".to_string());
    assert_eq!(g.generate(), "<11|-2>".to_string());
}

#[test]
fn time_steps_evenly() {
    let hour = 3_600_000_000_000i128;
    let start = Timestamp { nanos: 1_648_744_800_000_000_000 };
    let mut g = Time::new(start, TimeStep { nanos: hour });
    assert_eq!(g.generate(), start);
    assert_eq!(g.generate(), Timestamp { nanos: start.nanos + hour });
    assert_eq!(g.generate(), Timestamp { nanos: start.nanos + 2 * hour });
}

#[test]
fn time_steps_backwards() {
    let mut g = Time::new(Timestamp { nanos: 10 }, TimeStep { nanos: -4 });
    assert_eq!(take(&mut g, 3), vec![
        Timestamp { nanos: 10 },
        Timestamp { nanos: 6 },
        Timestamp { nanos: 2 },
    ]);
}

#[test]
fn identical_generators_agree() {
    let mut g1 = Sample::new(Pattern::new("v", Inc(3i64), ""), Repeat::new(vec![1usize, 2]));
    let mut g2 = Sample::new(Pattern::new("v", Inc(3i64), ""), Repeat::new(vec![1usize, 2]));
    for _ in 0..5 {
        assert_eq!(g1.generate(), g2.generate());
    }
}

#[test]
fn builder_override_wins_over_default() {
    let w = Womble::builder().a("given").build();
    assert_eq!(w.a, "given".to_string());
    assert_eq!(w.b, 7);
    let d = Womble::builder().build();
    assert_eq!(d.a, "hullo".to_string());
    assert_eq!(d.b, 7);
    let o = Womble::builder().b(-1).build();
    assert_eq!(o.b, -1);
    assert_eq!(o.a, "hullo".to_string());
}

#[test]
fn record_generator_keeps_defaults_and_continues_sequences() {
    let mut g = Kangaroo3::generator()
        .a(Const(5i32))
        .b(Sample::new(Pattern::new("a-", Inc(0i64), ""), Const(3usize)));
    let first = g.generate();
    assert_eq!(first.a, 5);
    assert_eq!(first.b, vec!["a-0", "a-1", "a-2"]);
    let second = g.generate();
    assert_eq!(second.a, 5);
    assert_eq!(second.b, vec!["a-3", "a-4", "a-5"]);
}

#[test]
fn repeat_and_cycle_accept_an_empty_base_when_made() {
    let _r = Repeat::<u8>::new(vec![]);
    let _c = Cycle::<u8>::new(vec![]);
}

#[test]
fn repeat_over_one_element_stays_put() {
    let mut g = Repeat::new(vec![7u8]);
    assert_eq!(take(&mut g, 4), vec![7, 7, 7, 7]);
}

#[test]
fn inc_on_narrow_and_wide_types() {
    let mut a = Inc(126i8);
    assert_eq!(take(&mut a, 3), vec![126, 127, -128]);
    let mut b = Inc(u128::MAX - 1);
    assert_eq!(take(&mut b, 3), vec![u128::MAX - 1, u128::MAX, 0]);
    let mut c = Inc(-1isize);
    assert_eq!(take(&mut c, 2), vec![-1, 0]);
}

#[test]
fn subsets_repeat_after_two_to_the_length() {
    let mut g = Subsets::new(vec![10u16, 20]);
    let first = take(&mut g, 4);
    assert_eq!(first, vec![vec![], vec![10], vec![20], vec![10, 20]]);
    assert_eq!(take(&mut g, 4), first);
}

#[test]
fn sample_with_zero_count_draws_nothing() {
    let mut g = Sample::new(Inc(1i32), Repeat::new(vec![0usize, 2]));
    assert_eq!(g.generate(), Vec::<i32>::new());
    assert_eq!(g.generate(), vec![1, 2]);
    assert_eq!(g.generate(), Vec::<i32>::new());
    assert_eq!(g.generate(), vec![3, 4]);
}

#[test]
fn time_is_start_plus_k_steps() {
    let start = Timestamp { nanos: -5 };
    let step = TimeStep { nanos: 1_000_000_000 };
    let mut g = Time::new(start, step);
    for k in 0..6i128 {
        assert_eq!(g.generate(), Timestamp { nanos: -5 + k * 1_000_000_000 });
    }
}
