use mp_services::error::MpError;
use mp_services::mp::MPServices;
use mp_services::processor::{CPUPhysicalLocation, ProcessorCount, ProcessorInformation};
use mp_services::status::StatusFlag;

fn processor(id: u64, bits: u32, core: u32) -> ProcessorInformation {
    ProcessorInformation {
        processor_id: id,
        status_flag: StatusFlag::from_bits(bits).unwrap(),
        location: CPUPhysicalLocation { package: 1, core, thread: core % 2 },
    }
}

fn four_processors() -> MPServices {
    let table = vec![
        processor(100, 0b111, 0),
        processor(101, 0b110, 1),
        processor(102, 0b110, 2),
        processor(103, 0b110, 3),
    ];
    MPServices::with_processors(table, true).unwrap()
}

#[test]
fn count_before_discovery_is_not_ready() {
    let services = MPServices::new(true);
    assert_eq!(services.get_number_of_processors(), Err(MpError::NotReady));
}

#[test]
fn count_includes_the_bootstrap_processor() {
    let services = four_processors();
    assert_eq!(
        services.get_number_of_processors(),
        Ok(ProcessorCount { total: 4, enabled: 4 })
    );
}

#[test]
fn count_leaves_out_disabled_processors() {
    let table = vec![
        processor(1, 0b111, 0),
        processor(2, 0b100, 1),
        processor(3, 0b010, 2),
        processor(4, 0b000, 3),
        processor(5, 0b110, 4),
    ];
    let services = MPServices::with_processors(table, true).unwrap();
    assert_eq!(
        services.get_number_of_processors(),
        Ok(ProcessorCount { total: 5, enabled: 3 })
    );
}

#[test]
fn a_single_processor_is_a_roster() {
    let services = MPServices::with_processors(vec![processor(9, 0b011, 0)], false).unwrap();
    assert_eq!(
        services.get_number_of_processors(),
        Ok(ProcessorCount { total: 1, enabled: 1 })
    );
    assert_eq!(services.who_am_i(9), Ok(0));
}

#[test]
fn an_empty_table_is_no_roster() {
    assert!(MPServices::with_processors(Vec::new(), true).is_none());
}

#[test]
fn the_first_processor_must_be_the_bootstrap_processor() {
    let table = vec![processor(1, 0b110, 0), processor(2, 0b111, 1)];
    assert!(MPServices::with_processors(table, true).is_none());
    let table = vec![processor(1, 0b110, 0), processor(2, 0b110, 1)];
    assert!(MPServices::with_processors(table, true).is_none());
}

#[test]
fn two_bootstrap_processors_are_no_roster() {
    let table = vec![processor(1, 0b111, 0), processor(2, 0b110, 1), processor(3, 0b111, 2)];
    assert!(MPServices::with_processors(table, true).is_none());
}

#[test]
fn a_disabled_bootstrap_processor_is_no_roster() {
    let table = vec![processor(1, 0b101, 0), processor(2, 0b110, 1)];
    assert!(MPServices::with_processors(table, true).is_none());
}

#[test]
fn equal_identifiers_are_no_roster() {
    let table = vec![processor(1, 0b111, 0), processor(2, 0b110, 1), processor(1, 0b110, 2)];
    assert!(MPServices::with_processors(table, true).is_none());
    let table = vec![processor(7, 0b111, 0), processor(7, 0b110, 1)];
    assert!(MPServices::with_processors(table, true).is_none());
}

#[test]
fn info_returns_the_entry() {
    let services = four_processors();
    assert_eq!(services.get_processor_info(0), Ok(processor(100, 0b111, 0)));
    assert_eq!(services.get_processor_info(3), Ok(processor(103, 0b110, 3)));
    let third = services.get_processor_info(2).unwrap();
    assert_eq!(third.processor_id, 102);
    assert_eq!(third.location, CPUPhysicalLocation { package: 1, core: 2, thread: 0 });
    assert!(third.status_flag.is_enabled() && !third.status_flag.is_bsp());
}

#[test]
fn info_out_of_range_is_an_invalid_index() {
    let services = four_processors();
    assert_eq!(services.get_processor_info(4), Err(MpError::InvalidIndex));
    assert_eq!(services.get_processor_info(usize::MAX), Err(MpError::InvalidIndex));
    assert_eq!(MPServices::new(true).get_processor_info(0), Err(MpError::InvalidIndex));
}

#[test]
fn who_am_i_finds_the_caller() {
    let services = four_processors();
    assert_eq!(services.who_am_i(100), Ok(0));
    assert_eq!(services.who_am_i(102), Ok(2));
    assert_eq!(services.who_am_i(103), Ok(3));
}

#[test]
fn who_am_i_before_discovery_is_not_ready() {
    assert_eq!(MPServices::new(true).who_am_i(100), Err(MpError::NotReady));
    assert_eq!(four_processors().who_am_i(7), Err(MpError::NotReady));
}

#[test]
fn the_first_processor_is_the_bootstrap_processor_at_first() {
    assert_eq!(four_processors().bootstrap_processor(), Some(0));
    assert_eq!(MPServices::new(false).bootstrap_processor(), None);
}

#[test]
fn nothing_is_busy_at_first() {
    let services = four_processors();
    for number in 0..6 {
        assert!(!services.is_busy(number));
    }
}

#[test]
fn defaults_are_zero() {
    assert_eq!(CPUPhysicalLocation::default(), CPUPhysicalLocation { package: 0, core: 0, thread: 0 });
    assert_eq!(ProcessorCount::default(), ProcessorCount { total: 0, enabled: 0 });
    let info = ProcessorInformation::default();
    assert_eq!(info.processor_id, 0);
    assert_eq!(info.status_flag.bits(), 0);
    assert_eq!(info.location, CPUPhysicalLocation::default());
}
