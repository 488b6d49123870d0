use rkyv::config::{Attributes, LayoutMode, Repr};

#[test]
fn default_configuration_declares_nothing() {
    let a = Attributes::default();
    assert!(!a.copy);
    assert!(!a.strict);
    assert!(a.derives.is_none());
    assert!(a.compares.is_none());
    assert!(a.serialize_bound.is_none());
    assert!(a.deserialize_bound.is_none());
    assert!(a.archived.is_none());
    assert!(a.resolver.is_none());
    assert_eq!(a.repr.mode(), LayoutMode::Native);
}

#[test]
fn layout_mode_follows_the_declared_marker() {
    let mut r = Repr::default();
    assert_eq!(r.mode(), LayoutMode::Native);
    r.c = true;
    assert_eq!(r.mode(), LayoutMode::ExplicitFixed);
    r.int = Some(String::from("u8"));
    assert_eq!(r.mode(), LayoutMode::ExplicitInt);
    r.packed = true;
    assert_eq!(r.mode(), LayoutMode::Packed);
    r.transparent = true;
    assert_eq!(r.mode(), LayoutMode::Transparent);
}
