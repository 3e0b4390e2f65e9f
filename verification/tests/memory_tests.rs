use giflib::ffi::GifBool;
use giflib::memory::{reallocarray_overflow, reallocarray_plan, ReallocPlan, MUL_NO_OVERFLOW};

#[test]
fn gif_bool_new_and_get() {
    assert!(GifBool::new(true).get());
    assert!(!GifBool::new(false).get());
    assert_eq!(GifBool::new(true).0, 1);
    assert_eq!(GifBool::new(false).0, 0);
}

#[test]
fn gif_bool_any_nonzero_byte_is_true() {
    assert!(GifBool(7).get());
    assert!(GifBool(255).get());
    assert!(!GifBool(0).get());
}

#[test]
fn gif_bool_set_stores_one_or_zero() {
    let mut flag = GifBool(9);
    flag.set(true);
    assert_eq!(flag.0, 1);
    assert!(flag.get());
    flag.set(false);
    assert_eq!(flag.0, 0);
    assert!(!flag.get());
}

#[test]
fn mul_no_overflow_is_half_the_word() {
    assert_eq!(MUL_NO_OVERFLOW, 1usize << (usize::BITS / 2));
}

#[test]
fn overflow_small_products() {
    assert!(!reallocarray_overflow(3, 5));
    assert!(!reallocarray_overflow(0, usize::MAX));
    assert!(!reallocarray_overflow(usize::MAX, 0));
    assert!(!reallocarray_overflow(usize::MAX, 1));
    assert!(!reallocarray_overflow(1, usize::MAX));
}

#[test]
fn overflow_large_products() {
    assert!(reallocarray_overflow(usize::MAX, 2));
    assert!(reallocarray_overflow(2, usize::MAX / 2 + 1));
    assert!(!reallocarray_overflow(2, usize::MAX / 2));
    assert!(reallocarray_overflow(MUL_NO_OVERFLOW, MUL_NO_OVERFLOW));
    assert!(!reallocarray_overflow(MUL_NO_OVERFLOW - 1, MUL_NO_OVERFLOW - 1));
}

#[test]
fn overflow_agrees_with_checked_mul() {
    let samples = [0usize, 1, 2, 3, 255, 65535, 65536, 1 << 20, usize::MAX / 3, usize::MAX];
    for &a in samples.iter() {
        for &b in samples.iter() {
            assert_eq!(reallocarray_overflow(a, b), a.checked_mul(b).is_none(), "{} * {}", a, b);
        }
    }
}

#[test]
fn plan_resize() {
    assert!(matches!(reallocarray_plan(3, 5), ReallocPlan::Resize(15)));
    assert!(matches!(reallocarray_plan(1, 56), ReallocPlan::Resize(56)));
}

#[test]
fn plan_no_allocation() {
    assert!(matches!(reallocarray_plan(0, 5), ReallocPlan::NoAllocation));
    assert!(matches!(reallocarray_plan(5, 0), ReallocPlan::NoAllocation));
}

#[test]
fn plan_overflow() {
    assert!(matches!(reallocarray_plan(usize::MAX, 2), ReallocPlan::Overflow));
    assert!(matches!(reallocarray_plan(MUL_NO_OVERFLOW, MUL_NO_OVERFLOW), ReallocPlan::Overflow));
}
