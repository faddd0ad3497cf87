use netstream::number::Number;

fn number(value: f64) -> Number {
    Number::from_bits(value.to_bits())
}

fn samples() -> Vec<f64> {
    vec![
        0.0,
        -0.0,
        5e-324,
        2.2250738585072014e-308,
        0.25,
        0.5,
        0.999999999999,
        1.0,
        1.5,
        1.9999999999999998,
        2.0,
        3.0,
        7.0,
        12.7,
        25.0,
        29.97,
        100.0,
        254.0,
        254.9,
        255.0,
        255.5,
        256.0,
        480.0,
        640.0,
        1000.25,
        65534.999,
        65535.0,
        65535.9,
        65536.0,
        1e10,
        4503599627370496.0,
        9007199254740992.0,
        1e300,
        f64::MAX,
        f64::MIN_POSITIVE,
        f64::INFINITY,
        f64::NEG_INFINITY,
        f64::NAN,
        -f64::NAN,
        -0.5,
        -1.0,
        -3.9,
        -300.0,
        -1e300,
    ]
}

#[test]
fn from_bits_keeps_the_encoding() {
    assert_eq!(Number::from_bits(0x4059_0000_0000_0000).to_bits(), 0x4059_0000_0000_0000);
    assert_eq!(number(100.0).to_bits(), 100.0f64.to_bits());
    assert_eq!(Number::from_bits(0).bits, 0);
}

#[test]
fn to_u8_truncates_and_saturates() {
    assert_eq!(number(0.0).to_u8(), 0);
    assert_eq!(number(2.0).to_u8(), 2);
    assert_eq!(number(4.9).to_u8(), 4);
    assert_eq!(number(255.0).to_u8(), 255);
    assert_eq!(number(255.9).to_u8(), 255);
    assert_eq!(number(256.0).to_u8(), 255);
    assert_eq!(number(1e20).to_u8(), 255);
    assert_eq!(number(f64::INFINITY).to_u8(), 255);
    assert_eq!(number(-1.0).to_u8(), 0);
    assert_eq!(number(-0.0).to_u8(), 0);
    assert_eq!(number(f64::NEG_INFINITY).to_u8(), 0);
    assert_eq!(number(f64::NAN).to_u8(), 0);
    assert_eq!(number(0.999).to_u8(), 0);
    assert_eq!(number(5e-324).to_u8(), 0);
}

#[test]
fn to_u16_truncates_and_saturates() {
    assert_eq!(number(0.0).to_u16(), 0);
    assert_eq!(number(640.0).to_u16(), 640);
    assert_eq!(number(480.75).to_u16(), 480);
    assert_eq!(number(65535.0).to_u16(), 65535);
    assert_eq!(number(65535.99).to_u16(), 65535);
    assert_eq!(number(65536.0).to_u16(), 65535);
    assert_eq!(number(f64::MAX).to_u16(), 65535);
    assert_eq!(number(f64::INFINITY).to_u16(), 65535);
    assert_eq!(number(-640.0).to_u16(), 0);
    assert_eq!(number(f64::NAN).to_u16(), 0);
}

#[test]
fn to_u8_agrees_with_the_cast_of_the_language() {
    for value in samples() {
        assert_eq!(number(value).to_u8(), value as u8, "value {}", value);
    }
}

#[test]
fn to_u16_agrees_with_the_cast_of_the_language() {
    for value in samples() {
        assert_eq!(number(value).to_u16(), value as u16, "value {}", value);
    }
}

#[test]
fn truncation_agrees_with_the_cast_on_every_whole_number_and_between() {
    let mut whole: u32 = 0;
    while whole <= 70000 {
        let value = whole as f64;
        assert_eq!(number(value).to_u16(), value as u16);
        assert_eq!(number(value).to_u8(), value as u8);
        let above = value + 0.75;
        assert_eq!(number(above).to_u16(), above as u16);
        assert_eq!(number(above).to_u8(), above as u8);
        let below = f64::from_bits(value.to_bits().wrapping_sub(1));
        assert_eq!(number(below).to_u16(), below as u16);
        assert_eq!(number(below).to_u8(), below as u8);
        whole += 1;
    }
}

#[test]
fn times_to_u32_multiplies_and_truncates() {
    assert_eq!(number(25.0).times_to_u32(&number(10.0)), 250);
    assert_eq!(number(29.97).times_to_u32(&number(12.5)), 374);
    assert_eq!(number(0.5).times_to_u32(&number(3.0)), 1);
    assert_eq!(number(0.5).times_to_u32(&number(1.5)), 0);
    assert_eq!(number(0.0).times_to_u32(&number(1e300)), 0);
    assert_eq!(number(65536.0).times_to_u32(&number(65536.0)), u32::MAX);
    assert_eq!(number(65535.0).times_to_u32(&number(65537.0)), 4294967295);
    assert_eq!(number(65536.0).times_to_u32(&number(65535.0)), 4294901760);
    assert_eq!(number(1e200).times_to_u32(&number(1e200)), u32::MAX);
    assert_eq!(number(-2.0).times_to_u32(&number(3.0)), 0);
    assert_eq!(number(-2.0).times_to_u32(&number(-3.0)), 6);
    assert_eq!(number(f64::NAN).times_to_u32(&number(3.0)), 0);
    assert_eq!(number(3.0).times_to_u32(&number(f64::NAN)), 0);
    assert_eq!(number(f64::INFINITY).times_to_u32(&number(0.0)), 0);
    assert_eq!(number(0.0).times_to_u32(&number(f64::NEG_INFINITY)), 0);
    assert_eq!(number(f64::INFINITY).times_to_u32(&number(2.0)), u32::MAX);
    assert_eq!(number(f64::NEG_INFINITY).times_to_u32(&number(2.0)), 0);
    assert_eq!(number(f64::NEG_INFINITY).times_to_u32(&number(f64::NEG_INFINITY)), u32::MAX);
    assert_eq!(number(5e-324).times_to_u32(&number(5e-324)), 0);
    assert_eq!(number(5e-324).times_to_u32(&number(1e308)), 0);
}

#[test]
fn times_to_u32_rounds_the_product_before_it_truncates() {
    // The exact product of the two numbers is a little below the whole
    // number, and nearer to it than to the number that 53 bits hold below it.
    assert_eq!(number(0.1).times_to_u32(&number(30.0)), (0.1f64 * 30.0) as u32);
    assert_eq!(number(0.1).times_to_u32(&number(30.0)), 3);
    let below_one = f64::from_bits(1.0f64.to_bits() - 1);
    assert_eq!(number(below_one).times_to_u32(&number(below_one)), 0);
    let above_one = f64::from_bits(1.0f64.to_bits() + 1);
    assert_eq!(number(below_one).times_to_u32(&number(above_one)), 1);
    let third = 1.0f64 / 3.0;
    assert_eq!(number(third).times_to_u32(&number(3.0)), (third * 3.0) as u32);
    assert_eq!(number(third).times_to_u32(&number(3.0)), 1);
    assert_eq!(number(1.1).times_to_u32(&number(1.1)), 1);
    assert_eq!(number(4.35).times_to_u32(&number(100.0)), (4.35f64 * 100.0) as u32);
    assert_eq!(number(4.35).times_to_u32(&number(100.0)), 434);
    assert_eq!(number(23.976).times_to_u32(&number(1000.0)), (23.976f64 * 1000.0) as u32);
}

#[test]
fn times_to_u32_agrees_with_the_language_on_every_pair_of_samples() {
    for a in samples() {
        for b in samples() {
            assert_eq!(number(a).times_to_u32(&number(b)), (a * b) as u32, "{} * {}", a, b);
        }
    }
}

#[test]
fn times_to_u32_agrees_with_the_language_on_scattered_encodings() {
    let mut state: u64 = 0x9E37_79B9_7F4A_7C15;
    let mut next = move || {
        state ^= state << 13;
        state ^= state >> 7;
        state ^= state << 17;
        state
    };
    for _ in 0..200000 {
        let a = f64::from_bits(next());
        let b = f64::from_bits(next());
        assert_eq!(number(a).times_to_u32(&number(b)), (a * b) as u32, "{:e} * {:e}", a, b);
    }
}

#[test]
fn times_to_u32_agrees_with_the_language_near_the_whole_numbers() {
    let mut state: u64 = 0x2545_F491_4F6C_DD1D;
    let mut next = move || {
        state ^= state << 13;
        state ^= state >> 7;
        state ^= state << 17;
        state
    };
    for _ in 0..200000 {
        let fraction_a = next() & 0x000f_ffff_ffff_ffff;
        let fraction_b = next() & 0x000f_ffff_ffff_ffff;
        let exponent_a = 1023 - 20 + next() % 56;
        let exponent_b = 1023 - 20 + next() % 56;
        let a = f64::from_bits((exponent_a << 52) | fraction_a);
        let b = f64::from_bits((exponent_b << 52) | fraction_b);
        assert_eq!(number(a).times_to_u32(&number(b)), (a * b) as u32, "{:e} * {:e}", a, b);
        let whole = (next() % 100000) as f64;
        let quotient = whole / b;
        assert_eq!(
            number(quotient).times_to_u32(&number(b)),
            (quotient * b) as u32,
            "{:e} * {:e}",
            quotient,
            b
        );
        let short = f64::from_bits(quotient.to_bits().wrapping_sub(1));
        assert_eq!(number(short).times_to_u32(&number(b)), (short * b) as u32, "{:e} * {:e}", short, b);
    }
}

#[test]
fn truncation_agrees_with_the_language_on_scattered_encodings() {
    let mut state: u64 = 0xD1B5_4A32_D192_ED03;
    let mut next = move || {
        state ^= state << 13;
        state ^= state >> 7;
        state ^= state << 17;
        state
    };
    for _ in 0..200000 {
        let scattered = f64::from_bits(next());
        assert_eq!(number(scattered).to_u8(), scattered as u8);
        assert_eq!(number(scattered).to_u16(), scattered as u16);
        let near = f64::from_bits(((1023 - 4 + next() % 24) << 52) | (next() & 0x000f_ffff_ffff_ffff));
        assert_eq!(number(near).to_u8(), near as u8);
        assert_eq!(number(near).to_u16(), near as u16);
    }
}
