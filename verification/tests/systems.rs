use n64_gfx::systems::Systems;

#[test]
fn removers_keep_registration_order() {
    let mut systems: Systems<u32> = Systems::new();
    assert!(systems.removers().is_empty());
    systems.register_remover(10);
    systems.register_remover(20);
    systems.register_remover(30);
    assert_eq!(systems.removers().as_slice(), &[10, 20, 30]);
}

#[test]
fn removers_can_be_callbacks() {
    fn noop(_e: &u64) {}
    let mut systems: Systems<fn(&u64)> = Systems::new();
    systems.register_remover(noop);
    assert_eq!(systems.removers().len(), 1);
    (systems.removers()[0])(&7);
}
