use provider_ty::slot::LazySlot;

#[test]
fn an_empty_slot_is_filled_by_the_first_caller() {
    let mut slot: LazySlot<u32> = LazySlot::new();
    assert!(!slot.is_initialized());
    assert_eq!(slot.get(), None);
    assert_eq!(*slot.get_or_init(|| 7), 7);
    assert!(slot.is_initialized());
    assert_eq!(slot.get(), Some(&7));
}

#[test]
fn a_filled_slot_ignores_later_factories() {
    let mut slot: LazySlot<String> = LazySlot::new();
    let mut runs = 0;
    for round in 0..10 {
        let value = slot
            .get_or_init(|| {
                runs += 1;
                format!("made in round {}", round)
            })
            .clone();
        assert_eq!(value, "made in round 0");
    }
    assert_eq!(runs, 1);
    assert_eq!(slot.get().map(|s| s.as_str()), Some("made in round 0"));
}
