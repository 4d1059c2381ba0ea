use mp_services::status::{
    ProcessorState, StatusFlag, PROCESSOR_AS_BSP_BIT, PROCESSOR_ENABLED_BIT,
    PROCESSOR_HEALTH_STATUS_BIT,
};

#[test]
fn the_three_bits_are_the_low_three() {
    assert_eq!(PROCESSOR_AS_BSP_BIT, 1);
    assert_eq!(PROCESSOR_ENABLED_BIT, 2);
    assert_eq!(PROCESSOR_HEALTH_STATUS_BIT, 4);
}

#[test]
fn empty_has_no_flag_and_all_has_each() {
    let none = StatusFlag::empty();
    assert_eq!(none.bits(), 0);
    assert!(!none.is_bsp() && !none.is_enabled() && !none.is_healthy());
    let every = StatusFlag::all();
    assert_eq!(every.bits(), 7);
    assert!(every.is_bsp() && every.is_enabled() && every.is_healthy());
    assert_eq!(StatusFlag::default(), StatusFlag::empty());
}

#[test]
fn from_bits_takes_defined_bits_only() {
    for bits in 0u32..8 {
        let flags = StatusFlag::from_bits(bits).unwrap();
        assert_eq!(flags.bits(), bits);
        assert_eq!(flags.is_bsp(), bits & 1 != 0);
        assert_eq!(flags.is_enabled(), bits & 2 != 0);
        assert_eq!(flags.is_healthy(), bits & 4 != 0);
    }
    assert_eq!(StatusFlag::from_bits(8), None);
    assert_eq!(StatusFlag::from_bits(0x8000_0001), None);
    assert_eq!(StatusFlag::from_bits(u32::MAX), None);
}

#[test]
fn from_bits_truncate_drops_the_rest() {
    assert_eq!(StatusFlag::from_bits_truncate(0xffff_fff5).bits(), 5);
    assert_eq!(StatusFlag::from_bits_truncate(8).bits(), 0);
    assert_eq!(StatusFlag::from_bits_truncate(6), StatusFlag::from_bits(6).unwrap());
}

#[test]
fn each_facet_changes_alone() {
    let flags = StatusFlag::from_bits(0b010).unwrap();
    assert_eq!(flags.with_bsp(true).bits(), 0b011);
    assert_eq!(flags.with_bsp(false).bits(), 0b010);
    assert_eq!(flags.with_enabled(false).bits(), 0b000);
    assert_eq!(flags.with_enabled(true).bits(), 0b010);
    assert_eq!(flags.with_health(true).bits(), 0b110);
    assert_eq!(flags.with_health(false).bits(), 0b010);
    let every = StatusFlag::all();
    assert_eq!(every.with_bsp(false).bits(), 0b110);
    assert_eq!(every.with_enabled(false).bits(), 0b101);
    assert_eq!(every.with_health(false).bits(), 0b011);
}

#[test]
fn the_facets_can_be_written_down() {
    let state = ProcessorState { is_bootstrap: true, enabled: false, healthy: true };
    assert!(state.is_bootstrap && !state.enabled && state.healthy);
}
