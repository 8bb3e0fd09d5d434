use amy_math::meta::{Conditional, SameAs};

fn require_same<T1, T2: SameAs<T1>>() {}

#[test]
fn same_as_holds_for_identical_types() {
    require_same::<u32, u32>();
    require_same::<&str, &str>();
}

#[test]
fn conditional_selects_by_flag() {
    let x: Conditional<true, i32, u8> = -5;
    let y: Conditional<false, i32, u8> = 7;
    assert_eq!(x, -5i32);
    assert_eq!(y, 7u8);
}
