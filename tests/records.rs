use boulder::{
    Badger, Buildable, Cycle, Builder, Bodger, Elephant, Generatable, Generator, Giraffe, Kangaroo1,
    Kangaroo2, Kangaroo3, Kangaroo4, Kangaroo5, Kangaroo6, Pattern, Inc, Sorceress, Sorceress2,
    Wizard, Womble, Zebra1, Zebra2, Zebra3, Zebra4, Zebra5, take,
};

#[test]
fn test_simple() {
    let w = Womble::builder().a("hello").b(4).build();
    println!("W: {:?}", w);

    let w = Womble::builder().build();
    println!("W: {:?}", w);

    let b = Badger::builder().build();
    println!("B: {:?}", b);
}

#[test]
fn test_generic() {
    let w = Bodger::<Womble>::builder()
        .w(Womble::builder().build())
        .v(Womble::builder().build())
        .build();
    println!("B: {:?}", w);
}

#[test]
fn test_generator() {
    let mut g = Wizard::generator();

    let w = g.generate();
    let w2 = g.generate();

    assert_eq!(w.a, "hello".to_string());
    assert_eq!(w.b, 5);
    assert_eq!(w2.a, "hello".to_string());
    assert_eq!(w2.b, 6);
}

#[test]
fn test_string_pattern() {
    let mut g = Pattern::new("example-", Inc(2), "");
    for i in 0..5 {
        assert_eq!(g.generate(), format!("example-{}", i + 2));
    }
}

#[test]
fn test_generator2() {
    let mut g = Sorceress::generator();

    let w = g.generate();
    let w2 = g.generate();

    assert_eq!(w.a, "an-example-1".to_string());
    assert_eq!(w.b, 5);
    assert_eq!(w2.a, "an-example-2".to_string());
    assert_eq!(w2.b, 6);
}

#[test]
fn test_generator3() {
    let mut g = Sorceress2::generator();

    let w = g.generate();
    let w2 = g.generate();

    assert_eq!(w.a, "1-an-example-5".to_string());
    assert_eq!(w.b, 5);
    assert_eq!(w2.a, "2-an-example-6".to_string());
    assert_eq!(w2.b, 6);
}

#[test]
fn test_iterator() {
    let mut g = Elephant::<Sorceress2>::generator();

    for (count, elt) in take(&mut g, 5).into_iter().enumerate() {
        assert_eq!(elt.foo.a, format!("{}-an-example-{}", count + 1, count + 5));
        assert_eq!(elt.foo.b, (count + 5) as i32);
        assert_eq!(elt.ival, 5i64);
    }
}

#[test]
fn test_closure() {
    // A field generator that counts on from `z`, and one that yields a
    // growing run of `+`.
    let z = 5;
    let mut gen = Giraffe::generator()
        .a(Inc(z + 1))
        .b(Cycle::new(vec!["+".to_string(), "++".to_string()]));
    let g1 = gen.generate();
    let g2 = gen.generate();
    assert_eq!(g1.a, 6);
    assert_eq!(g1.b, "+".to_string());
    assert_eq!(g2.a, 7);
    assert_eq!(g2.b, "++".to_string());
}

#[test]
fn test_build_vector() {
    let z1 = Zebra1::builder().build();
    assert_eq!(z1.a, 0);
    assert_eq!(z1.b.len(), 2);
    assert_eq!(z1.b[0], String::new());
    assert_eq!(z1.b[1], String::new());

    let z2 = Zebra2::builder().build();
    assert_eq!(z2.a, 0);
    assert_eq!(z2.b.len(), 3);
    assert_eq!(z2.b[0], "hello".to_string());
    assert_eq!(z2.b[1], "hello".to_string());
    assert_eq!(z2.b[2], "hello".to_string());

    let z3 = Zebra3::builder().build();
    assert_eq!(z3.a, 0);
    assert_eq!(z3.b.len(), 4);
    assert_eq!(z3.b[0], "a-0".to_string());
    assert_eq!(z3.b[1], "a-1".to_string());
    assert_eq!(z3.b[2], "a-2".to_string());
    assert_eq!(z3.b[3], "a-3".to_string());

    let z4 = Zebra4::builder().build();
    assert_eq!(z4.a, 0);
    assert_eq!(z4.b.len(), 5);
    assert_eq!(z4.b[0].a, 5);
    assert_eq!(z4.b[0].b, "x2".to_string());
    assert_eq!(z4.b[1].a, 6);
    assert_eq!(z4.b[1].b, "x3".to_string());
    assert_eq!(z4.b[2].a, 7);
    assert_eq!(z4.b[2].b, "x4".to_string());
    assert_eq!(z4.b[3].a, 8);
    assert_eq!(z4.b[3].b, "x5".to_string());
    assert_eq!(z4.b[4].a, 9);
    assert_eq!(z4.b[4].b, "x6".to_string());

    let z5 = Zebra5::builder().build();
    assert_eq!(z5.a, 0);
    assert_eq!(z5.b.len(), 6);
    assert_eq!(z5.b[0].a, 10);
    assert_eq!(z5.b[0].b, "hello".to_string());
    assert_eq!(z5.b[1].a, 10);
    assert_eq!(z5.b[1].b, "hello".to_string());
    assert_eq!(z5.b[2].a, 10);
    assert_eq!(z5.b[2].b, "hello".to_string());
    assert_eq!(z5.b[3].a, 10);
    assert_eq!(z5.b[3].b, "hello".to_string());
    assert_eq!(z5.b[4].a, 10);
    assert_eq!(z5.b[4].b, "hello".to_string());
    assert_eq!(z5.b[5].a, 10);
    assert_eq!(z5.b[5].b, "hello".to_string());
}

// The element generators of sequence fields keep their state from one
// record to the next: a second record continues where the first stopped.
#[test]
fn test_generate_vector() {
    let mut g = Kangaroo1::generator();
    let k11 = g.generate();
    let k12 = g.generate();
    assert_eq!(k11.a, 0);
    assert_eq!(k11.b.len(), 2);
    assert_eq!(k11.b[0], String::new());
    assert_eq!(k11.b[1], String::new());
    assert_eq!(k12.a, 0);
    assert_eq!(k12.b.len(), 3);
    assert_eq!(k12.b[0], String::new());
    assert_eq!(k12.b[1], String::new());
    assert_eq!(k12.b[2], String::new());

    let mut g = Kangaroo2::generator();
    let k21 = g.generate();
    let k22 = g.generate();
    assert_eq!(k21.a, 0);
    assert_eq!(k21.b.len(), 3);
    assert_eq!(k21.b[0], "hello".to_string());
    assert_eq!(k21.b[1], "hello".to_string());
    assert_eq!(k21.b[2], "hello".to_string());
    assert_eq!(k22.a, 0);
    assert_eq!(k22.b.len(), 4);
    assert_eq!(k22.b[0], "hello".to_string());
    assert_eq!(k22.b[1], "hello".to_string());
    assert_eq!(k22.b[2], "hello".to_string());
    assert_eq!(k22.b[3], "hello".to_string());

    let mut g = Kangaroo3::generator();
    let k31 = g.generate();
    let k32 = g.generate();
    assert_eq!(k31.a, 0);
    assert_eq!(k31.b.len(), 4);
    assert_eq!(k31.b[0], "a-0".to_string());
    assert_eq!(k31.b[1], "a-1".to_string());
    assert_eq!(k31.b[2], "a-2".to_string());
    assert_eq!(k31.b[3], "a-3".to_string());
    assert_eq!(k32.a, 0);
    assert_eq!(k32.b.len(), 5);
    assert_eq!(k32.b[0], "a-4".to_string());
    assert_eq!(k32.b[1], "a-5".to_string());
    assert_eq!(k32.b[2], "a-6".to_string());
    assert_eq!(k32.b[3], "a-7".to_string());
    assert_eq!(k32.b[4], "a-8".to_string());

    let mut g = Kangaroo4::generator();
    let k41 = g.generate();
    let k42 = g.generate();
    assert_eq!(k41.a, 0);
    assert_eq!(k41.b.len(), 5);
    assert_eq!(k41.b[0].a, 5);
    assert_eq!(k41.b[0].b, "x2".to_string());
    assert_eq!(k41.b[1].a, 6);
    assert_eq!(k41.b[1].b, "x3".to_string());
    assert_eq!(k41.b[2].a, 7);
    assert_eq!(k41.b[2].b, "x4".to_string());
    assert_eq!(k41.b[3].a, 8);
    assert_eq!(k41.b[3].b, "x5".to_string());
    assert_eq!(k41.b[4].a, 9);
    assert_eq!(k41.b[4].b, "x6".to_string());
    assert_eq!(k42.a, 0);
    assert_eq!(k42.b.len(), 6);
    for i in 0..6 {
        assert_eq!(k42.b[i].a, 10 + i as i32);
        assert_eq!(k42.b[i].b, format!("x{}", 7 + i));
    }

    let mut g = Kangaroo5::generator();
    let k51 = g.generate();
    let k52 = g.generate();
    assert_eq!(k51.a, 0);
    assert_eq!(k51.b.len(), 6);
    for e in k51.b.iter() {
        assert_eq!(e.a, 10);
        assert_eq!(e.b, "hello".to_string());
    }
    assert_eq!(k52.a, 0);
    assert_eq!(k52.b.len(), 7);
    for e in k52.b.iter() {
        assert_eq!(e.a, 10);
        assert_eq!(e.b, "hello".to_string());
    }

    let mut g = Kangaroo6::generator();
    let k61 = g.generate();
    let k62 = g.generate();
    assert_eq!(k61.a, 0);
    assert_eq!(k61.b.len(), 3);
    assert_eq!(k61.b[0].a, 5);
    assert_eq!(k61.b[0].b, "x2".to_string());
    assert_eq!(k61.b[1].a, 6);
    assert_eq!(k61.b[1].b, "x3".to_string());
    assert_eq!(k61.b[2].a, 7);
    assert_eq!(k61.b[2].b, "x4".to_string());
    assert_eq!(k62.a, 0);
    assert_eq!(k62.b.len(), 3);
    assert_eq!(k62.b[0].a, 8);
    assert_eq!(k62.b[0].b, "x5".to_string());
    assert_eq!(k62.b[1].a, 9);
    assert_eq!(k62.b[1].b, "x6".to_string());
    assert_eq!(k62.b[2].a, 10);
    assert_eq!(k62.b[2].b, "x7".to_string());
}
