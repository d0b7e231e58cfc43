use xor::XOR;

#[test]
fn this_variant_discriminates() {
    let x: XOR<u8, u16> = XOR::This(5);
    assert!(x.is_this());
    assert!(!x.is_that());
}

#[test]
fn that_variant_discriminates() {
    let x: XOR<u8, u16> = XOR::That(5);
    assert!(x.is_that());
    assert!(!x.is_this());
}

#[test]
fn this_yields_present_on_match_and_absent_on_mismatch() {
    let x: XOR<u8, u16> = XOR::This(5);
    assert_eq!(x.clone().this(), Some(5));
    assert_eq!(x.that(), None);
}

#[test]
fn that_yields_present_on_match_and_absent_on_mismatch() {
    let x: XOR<u8, u16> = XOR::That(9);
    assert_eq!(x.clone().that(), Some(9));
    assert_eq!(x.this(), None);
}

#[test]
fn unwrap_yields_the_contained_value_on_match() {
    let x: XOR<u8, u16> = XOR::This(5);
    assert_eq!(x.unwrap_this(), 5);
    let y: XOR<u8, u16> = XOR::That(9);
    assert_eq!(y.unwrap_that(), 9);
}

#[test]
fn as_ref_round_trip_keeps_variant_and_value() {
    let x: XOR<i32, u8> = XOR::This(5);
    let r = x.as_ref();
    assert!(r.is_this());
    assert_eq!(r.this(), Some(&5));
}

#[test]
fn map_this_applies_the_transform_on_the_active_side() {
    let x: XOR<u8, u16> = XOR::This(3);
    let m = x.map_this(|d: &u8| u32::from(*d) + 1);
    assert_eq!(m, XOR::This(4u32));
}

#[test]
fn map_that_applies_the_transform_on_the_active_side() {
    let x: XOR<u8, u16> = XOR::That(3);
    let m = x.map_that(|d: &u16| u32::from(*d) + 1);
    assert_eq!(m, XOR::That(4u32));
}

#[test]
fn map_this_identity_reproduces_both_variants() {
    let x: XOR<i32, u8> = XOR::This(3);
    assert_eq!(x.map_this(|d: &i32| *d), x);
    let y: XOR<i32, u8> = XOR::That(9);
    assert_eq!(y.map_this(|d: &i32| *d), y);
}

#[test]
fn map_this_never_invokes_the_transform_on_the_inactive_side() {
    let x: XOR<u8, u16> = XOR::That(7);
    let m = x.map_this(|_d: &u8| -> u8 { panic!("transform must not run") });
    assert_eq!(m, XOR::That(7u16));
}

#[test]
fn map_that_never_invokes_the_transform_on_the_inactive_side() {
    let x: XOR<u8, u16> = XOR::This(7);
    let m = x.map_that(|_d: &u16| -> u8 { panic!("transform must not run") });
    assert_eq!(m, XOR::This(7u8));
}

#[test]
fn equality_is_reflexive_symmetric_and_variant_discriminating() {
    let a: XOR<i32, i32> = XOR::This(1);
    let b: XOR<i32, i32> = XOR::That(1);
    assert_eq!(a, a);
    assert_eq!(b, b);
    assert_ne!(a, b);
    assert_ne!(b, a);
    let c: XOR<i32, i32> = XOR::This(1);
    assert_eq!(a, c);
    assert_eq!(c, a);
}

#[test]
fn doc_scenario_holds_under_the_api() {
    let x: XOR<u8, u16> = XOR::This(42);
    assert!(x.is_this());
    assert!(!x.is_that());
    assert_eq!(x.clone().this(), Some(42));
    assert_eq!(x.that(), None);
}

#[test]
fn render_tags_the_active_variant() {
    let x: XOR<i32, &str> = XOR::This(3);
    assert_eq!(x.render(), "This(3)");
    let y: XOR<i32, &str> = XOR::That("hi");
    assert_eq!(y.render(), "That(hi)");
}

#[test]
fn render_uses_the_value_rendering_not_its_input_shape() {
    let x: XOR<u32, u8> = XOR::This(1000000);
    assert_eq!(x.render(), "This(1000000)");
    let y: XOR<&str, &str> = XOR::That("");
    assert_eq!(y.render(), "That()");
}
