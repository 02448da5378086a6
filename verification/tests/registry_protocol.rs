use gui_bridge::registry::{ImageRef, TextureRegistry};

#[test]
fn handles_are_monotonic_and_never_zero() {
    let mut reg = TextureRegistry::new();
    let h1 = reg.register(ImageRef::Strong(100));
    let h2 = reg.register(ImageRef::Strong(200));
    let h3 = reg.register(ImageRef::Strong(300));
    assert_ne!(h1, 0);
    assert_ne!(h2, 0);
    assert_ne!(h3, 0);
    assert_eq!(h1, 1);
    assert_eq!(h2, 2);
    assert_eq!(h3, 3);
    assert_eq!(reg.len(), 3);
}

#[test]
fn handles_are_not_reused_after_unregister() {
    let mut reg = TextureRegistry::new();
    let h1 = reg.register(ImageRef::Strong(100));
    reg.unregister(h1);
    let h2 = reg.register(ImageRef::Strong(200));
    assert_ne!(h1, h2);
    assert_eq!(h2, 2);
}

#[test]
fn register_then_unregister_is_observable_in_next_drain() {
    let mut reg = TextureRegistry::new();
    let h = reg.register(ImageRef::Strong(100));
    reg.unregister(h);
    let (adds, removes) = reg.drain_deltas();
    assert!(adds.contains(&h));
    assert!(removes.contains(&h));
    assert_eq!(reg.len(), 0);
}

#[test]
fn unregister_unknown_handle_is_a_noop() {
    let mut reg = TextureRegistry::new();
    let h = reg.register(ImageRef::Strong(100));
    reg.unregister(999);
    assert_eq!(reg.len(), 1);
    let (adds, removes) = reg.drain_deltas();
    assert_eq!(adds, vec![h]);
    assert_eq!(removes, Vec::<usize>::new());
}

#[test]
fn drain_clears_both_queues() {
    let mut reg = TextureRegistry::new();
    let h1 = reg.register(ImageRef::Strong(100));
    let h2 = reg.register(ImageRef::Strong(200));
    reg.unregister(h1);
    let (adds, removes) = reg.drain_deltas();
    assert_eq!(adds, vec![h1, h2]);
    assert_eq!(removes, vec![h1]);
    let (adds2, removes2) = reg.drain_deltas();
    assert!(adds2.is_empty());
    assert!(removes2.is_empty());
}

#[test]
fn mark_all_for_readd_queues_every_live_handle() {
    let mut reg = TextureRegistry::new();
    let h1 = reg.register(ImageRef::Strong(100));
    let h2 = reg.register(ImageRef::Strong(200));
    let h3 = reg.register(ImageRef::Strong(300));
    reg.unregister(h2);
    let _ = reg.drain_deltas();
    reg.mark_all_for_readd();
    let (adds, removes) = reg.drain_deltas();
    assert!(adds.contains(&h1));
    assert!(adds.contains(&h3));
    assert!(!adds.contains(&h2));
    assert!(removes.is_empty());
    assert_eq!(reg.len(), 2);
}

#[test]
fn note_font_texture_bumps_allocation_past_it() {
    let mut reg = TextureRegistry::new();
    let h1 = reg.register(ImageRef::Strong(100));
    assert_eq!(h1, 1);
    reg.note_font_texture(10);
    let h2 = reg.register(ImageRef::Strong(200));
    assert_eq!(h2, 11);
    reg.note_font_texture(3);
    let h3 = reg.register(ImageRef::Strong(300));
    assert_eq!(h3, 12);
}

#[test]
fn lookup_and_contains_follow_registration() {
    let mut reg = TextureRegistry::new();
    let h = reg.register(ImageRef::Strong(42));
    assert!(reg.contains(h));
    assert_eq!(reg.lookup(h), Some(42));
    assert!(!reg.contains(77));
    assert_eq!(reg.lookup(77), None);
    reg.unregister(h);
    assert!(!reg.contains(h));
    assert_eq!(reg.lookup(h), None);
}
