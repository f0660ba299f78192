use skybox::material::TextureSet;

#[test]
fn unbound_slot_is_minus_one() {
    let none = TextureSet::none();
    assert_eq!(none.get(), -1);
    assert!(!none.is_some());
}

#[test]
fn bound_slots_keep_their_index() {
    let set = TextureSet::from(0u32);
    assert!(set.is_some());
    assert_eq!(set.get(), 0);
    let set = TextureSet::from(3u32);
    assert!(set.is_some());
    assert_eq!(set.get(), 3);
}
