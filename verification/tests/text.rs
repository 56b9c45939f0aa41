use contemplate::text::{decimal_len, push_decimal, push_right_aligned};

#[test]
fn decimal_matches_the_standard_formatter() {
    let values: [u128; 12] = [
        0,
        1,
        9,
        10,
        11,
        99,
        100,
        12_345,
        u32::MAX as u128,
        u64::MAX as u128,
        100 * (u64::MAX as u128),
        u128::MAX,
    ];
    for n in values {
        let mut out = String::from("x");
        push_decimal(&mut out, n);
        assert_eq!(out, format!("x{}", n));
        assert_eq!(decimal_len(n), n.to_string().len());
    }
}

#[test]
fn right_alignment_matches_the_standard_formatter() {
    for n in [0u128, 7, 42, 100, 999, 1_000, 65_536, 1_000_000] {
        let mut three = String::new();
        push_right_aligned(&mut three, n, 3);
        assert_eq!(three, format!("{:3}", n));
        let mut five = String::from("<");
        push_right_aligned(&mut five, n, 5);
        assert_eq!(five, format!("<{:5}", n));
        let mut none = String::new();
        push_right_aligned(&mut none, n, 0);
        assert_eq!(none, format!("{}", n));
    }
}

#[test]
fn right_alignment_pads_with_spaces() {
    let mut out = String::new();
    push_right_aligned(&mut out, 5, 4);
    assert_eq!(out, "   5");
    push_right_aligned(&mut out, 12_345, 4);
    assert_eq!(out, "   512345");
}
