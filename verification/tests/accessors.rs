use int_counter::Counter;
use int_counter::Wide;
use int_counter::U8;

fn zeroed() -> Counter {
    let wide = Wide { hi: 0, lo: 0 };
    Counter {
        unsigned8: 0,
        unsigned16: 0,
        unsigned24: 0,
        unsigned32: 0,
        unsigned64: 0,
        unsigned128: 0,
        unsigned160: wide,
        unsigned200: wide,
        unsigned256: wide,
        signed8: 0,
        signed16: 0,
        signed24: 0,
        signed32: 0,
        signed64: 0,
        signed128: 0,
        signed160: wide,
        signed200: wide,
        signed256: wide,
    }
}

fn busy() -> Counter {
    Counter {
        unsigned8: 17,
        unsigned16: 0xBEEF,
        unsigned24: 0xFF_FFFF,
        unsigned32: 0xDEAD_BEEF,
        unsigned64: u64::MAX,
        unsigned128: u128::MAX,
        unsigned160: Wide { hi: 0xFFFF_FFFF, lo: 1 },
        unsigned200: Wide { hi: 0xFF_FFFF_FFFF_FFFF_FFFF, lo: 2 },
        unsigned256: Wide { hi: u128::MAX, lo: 3 },
        signed8: -128,
        signed16: -2,
        signed24: -0x80_0000,
        signed32: i32::MIN,
        signed64: -64,
        signed128: i128::MIN,
        signed160: Wide { hi: 0xFFFF_FFFF, lo: u128::MAX },
        signed200: Wide { hi: 7, lo: 8 },
        signed256: Wide { hi: 9, lo: 10 },
    }
}

#[test]
fn fresh_record_has_every_field_zero() {
    let fresh = Counter::default();
    assert_eq!(fresh, zeroed());
    assert_eq!(fresh.get_u8(), U8 { value: 0 });
    assert_eq!(fresh.get_u8_builtin(), 0);
}

#[test]
fn first_increment_of_a_fresh_record_gives_one() {
    let mut counter = Counter::default();
    assert_eq!(counter.get_u8(), U8 { value: 0 });
    counter.increment_u8();
    assert_eq!(counter.get_u8(), U8 { value: 1 });
    assert_eq!(counter.get_u8_builtin(), 1);
}

#[test]
fn get_returns_what_set_wrote_for_every_value() {
    let mut counter = Counter::default();
    for v in 0..=u8::MAX {
        counter.set_u8(U8 { value: v });
        assert_eq!(counter.get_u8(), U8 { value: v });
        assert_eq!(counter.get_u8_builtin(), v);
    }
}

#[test]
fn builtin_get_returns_what_builtin_set_wrote_for_every_value() {
    let mut counter = Counter::default();
    for v in 0..=u8::MAX {
        counter.set_u8_builtin(v);
        assert_eq!(counter.get_u8_builtin(), v);
        assert_eq!(counter.get_u8(), U8 { value: v });
    }
}

#[test]
fn set_overwrites_whatever_was_there() {
    let mut counter = busy();
    counter.set_u8(U8 { value: 200 });
    assert_eq!(counter.get_u8_builtin(), 200);
    counter.set_u8_builtin(3);
    assert_eq!(counter.get_u8(), U8 { value: 3 });
    counter.set_u8(U8 { value: 3 });
    assert_eq!(counter.get_u8(), U8 { value: 3 });
}

#[test]
fn get_does_not_change_the_record() {
    let counter = busy();
    let copy = counter;
    assert_eq!(counter.get_u8(), U8 { value: 17 });
    assert_eq!(counter.get_u8_builtin(), 17);
    assert_eq!(counter, copy);
}

#[test]
fn increment_adds_one() {
    let mut counter = Counter::default();
    counter.set_u8_builtin(41);
    counter.increment_u8();
    assert_eq!(counter.get_u8_builtin(), 42);
    counter.increment_u8();
    counter.increment_u8();
    assert_eq!(counter.get_u8(), U8 { value: 44 });
}

#[test]
fn increment_wraps_from_255_to_zero() {
    let mut counter = Counter::default();
    counter.set_u8(U8 { value: 255 });
    counter.increment_u8();
    assert_eq!(counter.get_u8(), U8 { value: 0 });
    counter.increment_u8();
    assert_eq!(counter.get_u8_builtin(), 1);
}

#[test]
fn increment_follows_the_wrapping_rule_for_every_value() {
    for v in 0..=u8::MAX {
        let mut counter = Counter::default();
        counter.set_u8_builtin(v);
        counter.increment_u8();
        assert_eq!(counter.get_u8_builtin(), v.wrapping_add(1));
    }
}

#[test]
fn increment_agrees_with_the_fixed_width_type() {
    for v in 0..=u8::MAX {
        let mut counter = Counter::default();
        counter.set_u8_builtin(v);
        counter.increment_u8();
        let word: alloy_primitives::Uint<8, 1> = alloy_primitives::Uint::from(v);
        let next = word + alloy_primitives::Uint::from(1);
        assert_eq!(counter.get_u8_builtin(), next.to::<u8>());
    }
}

#[test]
fn two_hundred_fifty_six_increments_come_back_to_the_start() {
    let mut counter = Counter::default();
    counter.set_u8_builtin(99);
    for _ in 0..256 {
        counter.increment_u8();
    }
    assert_eq!(counter.get_u8_builtin(), 99);
}

#[test]
fn writes_to_the_8_bit_field_leave_the_others_alone() {
    let mut counter = busy();
    counter.set_u8(U8 { value: 1 });
    counter.set_u8_builtin(254);
    counter.increment_u8();
    counter.increment_u8();
    assert_eq!(counter.get_u8_builtin(), 0);
    let mut expected = busy();
    expected.unsigned8 = 0;
    assert_eq!(counter, expected);
}

#[test]
fn word_and_builtin_variants_agree() {
    let mut by_word = busy();
    let mut by_builtin = busy();
    by_word.set_u8(U8 { value: 128 });
    by_builtin.set_u8_builtin(128);
    assert_eq!(by_word, by_builtin);
    assert_eq!(by_word.get_u8().value, by_builtin.get_u8_builtin());
}

#[test]
fn builtin_conversions_agree_with_the_fixed_width_type() {
    for v in 0..=u8::MAX {
        let mut counter = Counter::default();
        counter.set_u8_builtin(v);
        let word = alloy_primitives::Uint::<8, 1>::try_from(v).unwrap();
        assert_eq!(counter.get_u8().value, word.byte(0));
        assert_eq!(counter.get_u8_builtin(), u8::try_from(word).unwrap());
    }
}

#[test]
fn copies_of_a_record_are_independent() {
    let mut first = Counter::default();
    let second = first;
    first.increment_u8();
    assert_eq!(first.get_u8_builtin(), 1);
    assert_eq!(second.get_u8_builtin(), 0);
}
