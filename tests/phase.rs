use pitch_shift::phase::even_half_turns;

#[test]
fn even_counts_stay() {
    assert_eq!(even_half_turns(0), 0);
    assert_eq!(even_half_turns(4), 4);
    assert_eq!(even_half_turns(-6), -6);
    assert_eq!(even_half_turns(i64::MIN), i64::MIN);
}

#[test]
fn odd_counts_move_away_from_zero() {
    assert_eq!(even_half_turns(1), 2);
    assert_eq!(even_half_turns(3), 4);
    assert_eq!(even_half_turns(-1), -2);
    assert_eq!(even_half_turns(-5), -6);
    assert_eq!(even_half_turns(i64::MAX - 2), i64::MAX - 1);
    assert_eq!(even_half_turns(i64::MIN + 1), i64::MIN);
}

#[test]
fn agrees_with_low_bit_rule() {
    for q in -50i64..50 {
        let expected = if q >= 0 { q + (q & 1) } else { q - (q & 1) };
        assert_eq!(even_half_turns(q), expected);
    }
}
