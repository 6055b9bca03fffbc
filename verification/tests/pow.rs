use num_pow::pow::checked_pow;
use num_pow::pow::pow;
use num_pow::pow::pow_counted;
use num_pow::pow::Pow;

fn naive_u8(b: u8, e: usize) -> u8 {
    let mut r: u8 = 1;
    for _ in 0..e {
        r = r.wrapping_mul(b);
    }
    r
}

fn naive_i8(b: i8, e: usize) -> i8 {
    let mut r: i8 = 1;
    for _ in 0..e {
        r = r.wrapping_mul(b);
    }
    r
}

fn naive_u32(b: u32, e: usize) -> u32 {
    let mut r: u32 = 1;
    for _ in 0..e {
        r = r.wrapping_mul(b);
    }
    r
}

fn naive_i64(b: i64, e: usize) -> i64 {
    let mut r: i64 = 1;
    for _ in 0..e {
        r = r.wrapping_mul(b);
    }
    r
}

#[test]
fn matches_iterative_product_u8() {
    for b in 0..=255u8 {
        for e in 0..=12usize {
            assert_eq!(pow(b, e), naive_u8(b, e), "b={} e={}", b, e);
        }
    }
}

#[test]
fn matches_iterative_product_i8() {
    for b in -128..=127i8 {
        for e in 0..=12usize {
            assert_eq!(pow(b, e), naive_i8(b, e), "b={} e={}", b, e);
        }
    }
}

#[test]
fn matches_iterative_product_wider() {
    for &b in &[0u32, 1, 2, 3, 10, 0x1234_5678, u32::MAX] {
        for e in 0..=40usize {
            assert_eq!(pow(b, e), naive_u32(b, e), "b={} e={}", b, e);
        }
    }
    for &b in &[-3i64, -1, 0, 1, 2, 9, i64::MIN, i64::MAX] {
        for e in 0..=40usize {
            assert_eq!(pow(b, e), naive_i64(b, e), "b={} e={}", b, e);
        }
    }
}

#[test]
fn matches_iterative_product_remaining_widths() {
    for &b in &[0u16, 1, 2, 251, 40000, u16::MAX] {
        for e in 0..=20usize {
            let mut r: u16 = 1;
            for _ in 0..e {
                r = r.wrapping_mul(b);
            }
            assert_eq!(pow(b, e), r, "b={} e={}", b, e);
        }
    }
    for &b in &[i16::MIN, -181, -2, -1, 0, 1, 2, 181, i16::MAX] {
        for e in 0..=20usize {
            let mut r: i16 = 1;
            for _ in 0..e {
                r = r.wrapping_mul(b);
            }
            assert_eq!(pow(b, e), r, "b={} e={}", b, e);
        }
    }
    for &b in &[0u64, 1, 2, 3, 0xDEAD_BEEF_CAFE, u64::MAX] {
        for e in 0..=30usize {
            let mut r: u64 = 1;
            for _ in 0..e {
                r = r.wrapping_mul(b);
            }
            assert_eq!(pow(b, e), r, "b={} e={}", b, e);
        }
    }
    for &b in &[i32::MIN, -7, 0, 6, i32::MAX] {
        for e in 0..=30usize {
            let mut r: i32 = 1;
            for _ in 0..e {
                r = r.wrapping_mul(b);
            }
            assert_eq!(pow(b, e), r, "b={} e={}", b, e);
        }
    }
    for &b in &[0usize, 1, 2, 97, usize::MAX] {
        for e in 0..=30usize {
            let mut r: usize = 1;
            for _ in 0..e {
                r = r.wrapping_mul(b);
            }
            assert_eq!(pow(b, e), r, "b={} e={}", b, e);
        }
    }
    for &b in &[isize::MIN, -97, -1, 0, 1, 2, 97, isize::MAX] {
        for e in 0..=30usize {
            let mut r: isize = 1;
            for _ in 0..e {
                r = r.wrapping_mul(b);
            }
            assert_eq!(pow(b, e), r, "b={} e={}", b, e);
        }
    }
}

#[test]
fn checked_matches_std_checked_powers() {
    for &b in &[0u16, 1, 2, 6, 255, 256, u16::MAX] {
        for e in 0..=20u32 {
            assert_eq!(checked_pow(b, e as usize), b.checked_pow(e), "b={} e={}", b, e);
        }
    }
    for &b in &[i16::MIN, -180, -2, -1, 0, 1, 2, 180, i16::MAX] {
        for e in 0..=20u32 {
            assert_eq!(checked_pow(b, e as usize), b.checked_pow(e), "b={} e={}", b, e);
        }
    }
    for &b in &[0u64, 1, 2, 3, 10, 0xFFFF_FFFF, u64::MAX] {
        for e in 0..=66u32 {
            assert_eq!(checked_pow(b, e as usize), b.checked_pow(e), "b={} e={}", b, e);
        }
    }
    for &b in &[i64::MIN, -10, -3, -1, 0, 1, 2, 10, i64::MAX] {
        for e in 0..=66u32 {
            assert_eq!(checked_pow(b, e as usize), b.checked_pow(e), "b={} e={}", b, e);
        }
    }
}

#[test]
fn zero_exponent_gives_one() {
    assert_eq!(pow(0u8, 0), 1);
    assert_eq!(pow(0i8, 0), 1);
    assert_eq!(pow(255u8, 0), 1);
    assert_eq!(pow(i8::MIN, 0), 1);
    assert_eq!(pow(u64::MAX, 0), 1);
    assert_eq!(pow(i64::MIN, 0), 1);
    assert_eq!(pow(0usize, 0), 1);
    assert_eq!(pow(isize::MIN, 0), 1);
}

#[test]
fn first_power_gives_base_back() {
    assert_eq!(pow(0u8, 1), 0);
    assert_eq!(pow(255u8, 1), 255);
    assert_eq!(pow(i8::MIN, 1), i8::MIN);
    assert_eq!(pow(i8::MAX, 1), i8::MAX);
    assert_eq!(pow(u64::MAX, 1), u64::MAX);
    assert_eq!(pow(i64::MIN, 1), i64::MIN);
    assert_eq!(pow(usize::MAX, 1), usize::MAX);
    assert_eq!(pow(isize::MIN, 1), isize::MIN);
}

#[test]
fn small_powers() {
    assert_eq!(pow(2i8, 4), 16);
    assert_eq!(pow(6u8, 3), 216);
    assert_eq!(pow(2u64, 10), 1024);
    assert_eq!(pow(10u32, 9), 1_000_000_000);
    assert_eq!(pow(-3i32, 3), -27);
    assert_eq!(pow(7usize, 4), 2401);
    assert_eq!(pow(-2isize, 5), -32);
}

#[test]
fn wrapping_overflow() {
    assert_eq!(pow(200u8, 2), 64); // 40000 % 256
    assert_eq!(pow(3i8, 5), -13); // 243 wraps to -13
    assert_eq!(pow(2u8, 8), 0);
    assert_eq!(pow(2u8, 9), 0);
    assert_eq!(pow(16u16, 4), 0);
    assert_eq!(pow(-2i8, 7), -128);
    assert_eq!(pow(-2i8, 8), 0); // 256 wraps to 0
}

#[test]
fn checked_small_powers() {
    assert_eq!(checked_pow(2i8, 4), Some(16));
    assert_eq!(checked_pow(7i8, 8), None);
    assert_eq!(checked_pow(7u32, 8), Some(5_764_801));
    assert_eq!(checked_pow(6u8, 3), Some(216));
    assert_eq!(checked_pow(10u64, 19), Some(10_000_000_000_000_000_000));
    assert_eq!(checked_pow(10u64, 20), None);
}

#[test]
fn checked_at_the_edges() {
    assert_eq!(checked_pow(2u8, 7), Some(128));
    assert_eq!(checked_pow(2u8, 8), None);
    assert_eq!(checked_pow(-2i8, 7), Some(-128));
    assert_eq!(checked_pow(-2i8, 8), None);
    assert_eq!(checked_pow(200u8, 2), None);
    assert_eq!(checked_pow(3i8, 5), None);
    // exponents 0 and 1 perform no multiplication, so they never overflow
    assert_eq!(checked_pow(u8::MAX, 0), Some(1));
    assert_eq!(checked_pow(u8::MAX, 1), Some(255));
    assert_eq!(checked_pow(i8::MIN, 0), Some(1));
    assert_eq!(checked_pow(i8::MIN, 1), Some(i8::MIN));
    assert_eq!(checked_pow(isize::MIN, 1), Some(isize::MIN));
    assert_eq!(checked_pow(usize::MAX, 1), Some(usize::MAX));
}

#[test]
fn checked_agrees_with_unchecked_when_in_range() {
    for b in -128..=127i8 {
        for e in 0..=12usize {
            if let Some(v) = checked_pow(b, e) {
                assert_eq!(v, pow(b, e), "b={} e={}", b, e);
            }
        }
    }
    for b in 0..=255u8 {
        for e in 0..=12usize {
            if let Some(v) = checked_pow(b, e) {
                assert_eq!(v, pow(b, e), "b={} e={}", b, e);
            }
        }
    }
}

#[test]
fn counted_variant_agrees() {
    for b in 0..=255u8 {
        for e in 0..=12usize {
            let (r, _) = pow_counted(b, e);
            assert_eq!(r, pow(b, e), "b={} e={}", b, e);
        }
    }
}

#[test]
fn operator_agrees_with_free_function() {
    for &b in &[0u8, 1, 2, 6, 100, 255] {
        for e in 0..=10u8 {
            let expected = pow(b, e as usize);
            assert_eq!(Pow::pow(b, e), expected);
            assert_eq!(Pow::pow(b, e as u16), expected);
            assert_eq!(Pow::pow(b, e as u32), expected);
            assert_eq!(Pow::pow(b, e as usize), expected);
        }
    }
    for &b in &[-128i8, -3, -1, 0, 1, 2, 127] {
        for e in 0..=10u32 {
            let expected = pow(b, e as usize);
            assert_eq!(Pow::pow(b, e), expected);
            assert_eq!(Pow::pow(b, e as u8), expected);
            assert_eq!(Pow::pow(b, e as u16), expected);
            assert_eq!(Pow::pow(b, e as usize), expected);
        }
    }
    assert_eq!(Pow::pow(10u32, 2u32), 100);
    assert_eq!(Pow::pow(2u64, 33u32), 8_589_934_592);
    assert_eq!(Pow::pow(-5i64, 3u8), -125);
    assert_eq!(Pow::pow(3usize, 7u16), 2187);
    assert_eq!(Pow::pow(-4isize, 2usize), 16);
    assert_eq!(Pow::pow(9i16, 2u8), 81);
    assert_eq!(Pow::pow(40000u16, 2u32), 40000u16.wrapping_mul(40000));
}

#[test]
fn operator_calling_shapes_agree() {
    let bases = [0u32, 1, 2, 10, 0xFFFF, u32::MAX];
    for &b in &bases {
        for e in 0..=8u32 {
            let expected = pow(b, e as usize);
            assert_eq!(Pow::pow(b, e), expected);
            assert_eq!(Pow::pow(&b, e), expected);
            assert_eq!(Pow::pow(b, &e), expected);
            assert_eq!(Pow::pow(&b, &e), expected);
            let e16 = e as u16;
            assert_eq!(Pow::pow(b, e16), expected);
            assert_eq!(Pow::pow(&b, e16), expected);
            assert_eq!(Pow::pow(b, &e16), expected);
            assert_eq!(Pow::pow(&b, &e16), expected);
        }
    }
    for &b in &[-9i8, 3] {
        for e in 0..=5u8 {
            let expected = pow(b, e as usize);
            assert_eq!(Pow::pow(b, e), expected);
            assert_eq!(Pow::pow(&b, e), expected);
            assert_eq!(Pow::pow(b, &e), expected);
            assert_eq!(Pow::pow(&b, &e), expected);
        }
    }
}

#[test]
fn power_of_a_power_multiplies_exponents() {
    assert_eq!(pow(pow(2u32, 3), 2), pow(2u32, 6));
    assert_eq!(pow(pow(3u64, 4), 5), pow(3u64, 20));
    assert_eq!(pow(pow(-2i64, 3), 3), pow(-2i64, 9));
    // and still, under wrap-around arithmetic
    assert_eq!(pow(pow(200u8, 3), 7), pow(200u8, 21));
    assert_eq!(pow(pow(-77i8, 6), 9), pow(-77i8, 54));
}
