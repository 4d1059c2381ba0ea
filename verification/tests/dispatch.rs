use core::time::Duration;
use mp_services::dispatch::{dispatch_end, DispatchEnd, DispatchOutcome};
use mp_services::error::MpError;
use mp_services::mp::MPServices;
use mp_services::processor::{CPUPhysicalLocation, ProcessorInformation};
use mp_services::status::StatusFlag;
use mp_services::timeout::{
    limit_in_micro_seconds, timeout_argument, timeout_in_micro_seconds, word_argument,
};

fn cpu(id: u64, bits: u32) -> ProcessorInformation {
    ProcessorInformation {
        processor_id: id,
        status_flag: StatusFlag::from_bits(bits).unwrap(),
        location: CPUPhysicalLocation { package: 0, core: id as u32, thread: 0 },
    }
}

fn machine(flags: &[u32], dispatch_supported: bool) -> MPServices {
    let table = flags.iter().enumerate().map(|(i, bits)| cpu(i as u64, *bits)).collect();
    MPServices::with_processors(table, dispatch_supported).unwrap()
}

fn four_enabled() -> MPServices {
    machine(&[0b111, 0b110, 0b110, 0b110], true)
}

fn flags_of(services: &MPServices) -> Vec<u32> {
    let total = services.get_number_of_processors().unwrap().total;
    (0..total).map(|n| services.get_processor_info(n).unwrap().status_flag.bits()).collect()
}

fn busy_of(services: &MPServices) -> Vec<bool> {
    let total = services.get_number_of_processors().unwrap().total;
    (0..total).map(|n| services.is_busy(n)).collect()
}

#[test]
fn parallel_dispatch_then_switch_of_the_bootstrap_role() {
    let mut services = four_enabled();
    let request = services.startup_all_aps(false, None).unwrap();
    assert!(!request.single_thread());
    assert!(request.waits_forever());
    let mut counter = 0;
    for _target in request.targets() {
        counter += 1;
    }
    assert_eq!(services.finish_all_aps(request, &Vec::new()), DispatchOutcome::Success);
    assert_eq!(counter, 3);
    assert_eq!(services.switch_bsp(2, true), Ok(()));
    assert_eq!(services.who_am_i(2), Ok(2));
    let first = services.get_processor_info(0).unwrap();
    assert!(!first.status_flag.is_bsp());
    assert!(first.status_flag.is_enabled());
}

#[test]
fn single_thread_runs_the_enabled_processors_in_roster_order() {
    let mut services = machine(&[0b111, 0b110, 0b100, 0b110, 0b000, 0b010, 0b110], true);
    let request = services.dispatch_all(true, None).unwrap();
    assert!(request.single_thread());
    let mut log = Vec::new();
    for target in request.targets() {
        log.push(*target);
    }
    assert_eq!(log, vec![1, 3, 5, 6]);
    assert_eq!(services.finish_all_aps(request, &Vec::new()), DispatchOutcome::Success);
}

#[test]
fn the_bootstrap_processor_is_never_a_target() {
    let mut services = four_enabled();
    services.switch_bsp(2, true).unwrap();
    let request = services.dispatch_all(false, None).unwrap();
    assert_eq!(request.targets(), &vec![0, 1, 3]);
    assert_eq!(busy_of(&services), vec![true, true, false, true]);
}

#[test]
fn no_enabled_application_processor_means_no_dispatch() {
    let mut services = machine(&[0b111, 0b100, 0b000], true);
    let flags = flags_of(&services);
    assert_eq!(services.dispatch_all(false, None).unwrap_err(), MpError::NoApAvailable);
    assert_eq!(services.startup_all_aps(true, None).unwrap_err(), MpError::NoApAvailable);
    assert_eq!(flags_of(&services), flags);
    assert_eq!(busy_of(&services), vec![false, false, false]);
    let mut alone = machine(&[0b011], true);
    assert_eq!(alone.dispatch_all(false, Some(100)).unwrap_err(), MpError::NoApAvailable);
    let mut unsupported = machine(&[0b011, 0b000], false);
    assert_eq!(unsupported.dispatch_all(false, None).unwrap_err(), MpError::NoApAvailable);
    let mut undiscovered = MPServices::new(true);
    assert_eq!(undiscovered.dispatch_all(false, None).unwrap_err(), MpError::NoApAvailable);
}

#[test]
fn an_environment_without_dispatch_is_unsupported() {
    let mut services = machine(&[0b111, 0b110], false);
    assert_eq!(services.dispatch_all(false, None).unwrap_err(), MpError::Unsupported);
    assert_eq!(services.dispatch_one(1, None).unwrap_err(), MpError::Unsupported);
    assert_eq!(busy_of(&services), vec![false, false]);
}

#[test]
fn dispatch_to_a_disabled_processor_is_refused() {
    let mut services = four_enabled();
    services.enable_disable_ap(2, false, None).unwrap();
    let flags = flags_of(&services);
    assert_eq!(services.dispatch_one(2, None).unwrap_err(), MpError::Disabled);
    assert_eq!(
        services.startup_this_ap(2, Some(Duration::from_secs(1))).unwrap_err(),
        MpError::Disabled
    );
    assert_eq!(flags_of(&services), flags);
    assert_eq!(busy_of(&services), vec![false, false, false, false]);
    let mut unsupported = machine(&[0b111, 0b100], false);
    assert_eq!(unsupported.dispatch_one(1, None).unwrap_err(), MpError::Disabled);
}

#[test]
fn dispatch_to_one_refuses_what_it_must() {
    let mut services = four_enabled();
    assert_eq!(services.dispatch_one(4, None).unwrap_err(), MpError::InvalidIndex);
    assert_eq!(services.dispatch_one(0, None).unwrap_err(), MpError::NotApplicationProcessor);
    services.switch_bsp(1, true).unwrap();
    assert_eq!(services.dispatch_one(1, None).unwrap_err(), MpError::NotApplicationProcessor);
    assert!(services.dispatch_one(0, None).is_ok());
    assert_eq!(busy_of(&services), vec![true, false, false, false]);
}

#[test]
fn dispatch_to_one_names_that_one() {
    let mut services = four_enabled();
    let request = services.dispatch_one(3, Some(250)).unwrap();
    assert_eq!(request.targets(), &vec![3]);
    assert!(!request.single_thread());
    assert!(!request.waits_forever());
    assert_eq!(request.timeout_in_micro_seconds(), 250);
    assert_eq!(busy_of(&services), vec![false, false, false, true]);
    assert!(services.finish_this_ap(request, true));
    assert_eq!(busy_of(&services), vec![false, false, false, false]);
}

#[test]
fn a_target_that_did_not_finish_stays_busy() {
    let mut services = four_enabled();
    let request = services.dispatch_one(2, Some(10)).unwrap();
    assert!(!services.finish_this_ap(request, false));
    assert!(services.is_busy(2));
    assert_eq!(services.dispatch_one(2, None).unwrap_err(), MpError::Busy);
    assert_eq!(services.dispatch_all(false, None).unwrap_err(), MpError::Busy);
    assert_eq!(services.switch_bsp(2, true), Err(MpError::Busy));
    assert_eq!(services.enable_disable_ap(2, false, None), Err(MpError::Busy));
    assert_eq!(busy_of(&services), vec![false, false, true, false]);
    assert!(services.dispatch_one(1, None).is_ok());
    services.procedure_completed(2);
    assert!(!services.is_busy(2));
    assert!(services.dispatch_one(2, None).is_ok());
    services.procedure_completed(17);
    assert_eq!(busy_of(&services), vec![false, true, true, false]);
}

#[test]
fn without_a_limit_the_one_target_has_finished() {
    let mut services = four_enabled();
    let request = services.dispatch_one(1, None).unwrap();
    assert!(services.finish_this_ap(request, false));
    assert!(!services.is_busy(1));
}

#[test]
fn a_limit_that_passes_gives_the_unfinished_targets() {
    let mut services = four_enabled();
    let request = services.dispatch_all(false, Some(1_000)).unwrap();
    assert_eq!(request.targets(), &vec![1, 2, 3]);
    assert_eq!(busy_of(&services), vec![false, true, true, true]);
    let outcome = services.finish_all_aps(request, &vec![3, 1]);
    assert_eq!(outcome, DispatchOutcome::Timeout(vec![1, 3]));
    assert_eq!(busy_of(&services), vec![false, true, false, true]);
    assert_eq!(services.dispatch_all(true, None).unwrap_err(), MpError::Busy);
    assert_eq!(busy_of(&services), vec![false, true, false, true]);
    services.procedure_completed(3);
    services.procedure_completed(1);
    let request = services.dispatch_all(true, Some(5)).unwrap();
    let outcome = services.finish_all_aps(request, &vec![9, 0]);
    assert_eq!(outcome, DispatchOutcome::Success);
    assert_eq!(busy_of(&services), vec![false, false, false, false]);
}

#[test]
fn a_limit_with_nothing_finished_fails_every_target() {
    let mut services = four_enabled();
    let request = services.dispatch_all(true, Some(1)).unwrap();
    let outcome = services.finish_all_aps(request, &vec![2, 3, 1, 3]);
    assert_eq!(outcome, DispatchOutcome::Timeout(vec![1, 2, 3]));
    assert_eq!(busy_of(&services), vec![false, true, true, true]);
}

#[test]
fn without_a_limit_there_is_no_timeout() {
    let mut services = four_enabled();
    let request = services.dispatch_all(false, None).unwrap();
    assert_eq!(services.finish_all_aps(request, &vec![1, 2, 3]), DispatchOutcome::Success);
    assert_eq!(busy_of(&services), vec![false, false, false, false]);
}

#[test]
fn a_limit_of_zero_waits_forever() {
    let mut services = four_enabled();
    let request = services.dispatch_all(false, Some(0)).unwrap();
    assert!(request.waits_forever());
    assert_eq!(request.timeout_in_micro_seconds(), 0);
    assert_eq!(services.finish_all_aps(request, &vec![1]), DispatchOutcome::Success);
    let request = services.startup_this_ap(1, Some(Duration::ZERO)).unwrap();
    assert!(request.waits_forever());
    assert!(services.finish_this_ap(request, false));
    let request = services.startup_all_aps(true, Some(Duration::ZERO)).unwrap();
    assert!(request.waits_forever());
    assert_eq!(request.timeout_in_micro_seconds(), 0);
}

#[test]
fn a_limit_under_a_microsecond_is_a_limit() {
    let mut services = four_enabled();
    let request = services.startup_this_ap(1, Some(Duration::from_nanos(999))).unwrap();
    assert!(!request.waits_forever());
    assert_eq!(request.timeout_in_micro_seconds(), 1);
    assert!(!services.finish_this_ap(request, false));
    assert!(services.is_busy(1));
    services.procedure_completed(1);
    let request = services.startup_all_aps(false, Some(Duration::from_nanos(1))).unwrap();
    assert!(!request.waits_forever());
    assert_eq!(request.timeout_in_micro_seconds(), 1);
    let outcome = services.finish_all_aps(request, &vec![2]);
    assert_eq!(outcome, DispatchOutcome::Timeout(vec![2]));
    assert_eq!(busy_of(&services), vec![false, false, true, false]);
}

#[test]
fn a_duration_is_taken_in_whole_microseconds() {
    let mut services = four_enabled();
    let request = services.startup_all_aps(true, Some(Duration::from_millis(5))).unwrap();
    assert_eq!(request.timeout_in_micro_seconds(), 5_000);
    assert!(!request.waits_forever());
    assert!(request.single_thread());
    assert_eq!(request.targets(), &vec![1, 2, 3]);
    let outcome = services.finish_all_aps(request, &Vec::new());
    assert_eq!(outcome, DispatchOutcome::Success);
    let request = services.startup_this_ap(2, Some(Duration::new(3, 1_999))).unwrap();
    assert_eq!(request.timeout_in_micro_seconds(), 3_000_001);
    assert_eq!(request.targets(), &vec![2]);
}

#[test]
fn timeouts_in_microseconds() {
    assert_eq!(timeout_in_micro_seconds(None), 0);
    assert_eq!(timeout_in_micro_seconds(Some(Duration::ZERO)), 0);
    assert_eq!(timeout_in_micro_seconds(Some(Duration::from_nanos(1))), 1);
    assert_eq!(timeout_in_micro_seconds(Some(Duration::from_nanos(999))), 1);
    assert_eq!(timeout_in_micro_seconds(Some(Duration::from_nanos(1_000))), 1);
    assert_eq!(timeout_in_micro_seconds(Some(Duration::from_nanos(1_500))), 1);
    assert_eq!(timeout_in_micro_seconds(Some(Duration::from_nanos(2_000))), 2);
    assert_eq!(timeout_in_micro_seconds(Some(Duration::from_secs(2))), 2_000_000);
    assert_eq!(
        timeout_in_micro_seconds(Some(Duration::MAX)),
        u64::MAX as u128 * 1_000_000 + 999_999
    );
}

#[test]
fn the_word_for_a_duration() {
    assert_eq!(limit_in_micro_seconds(0), 0);
    assert_eq!(limit_in_micro_seconds(1), 1);
    assert_eq!(limit_in_micro_seconds(999), 1);
    assert_eq!(limit_in_micro_seconds(1_000), 1);
    assert_eq!(limit_in_micro_seconds(1_999), 1);
    assert_eq!(limit_in_micro_seconds(2_000), 2);
    assert_eq!(limit_in_micro_seconds(77_000_500), 77_000);
    assert_eq!(limit_in_micro_seconds(u128::MAX), u128::MAX / 1000);
}

#[test]
fn the_status_word_says_how_a_dispatch_ended() {
    let error_bit = 1usize << (usize::BITS - 1);
    assert_eq!(dispatch_end(0), DispatchEnd::Completed);
    assert_eq!(dispatch_end(error_bit | 18), DispatchEnd::TimedOut);
    assert_eq!(dispatch_end(error_bit | 3), DispatchEnd::Refused);
    assert_eq!(dispatch_end(error_bit | 6), DispatchEnd::Refused);
    assert_eq!(dispatch_end(18), DispatchEnd::Refused);
    assert_eq!(dispatch_end(error_bit), DispatchEnd::Refused);
    assert_eq!(dispatch_end(usize::MAX), DispatchEnd::Refused);
}

#[test]
fn a_refused_dispatch_leaves_no_target_busy() {
    let mut services = four_enabled();
    let request = services.dispatch_all(false, Some(30)).unwrap();
    assert_eq!(busy_of(&services), vec![false, true, true, true]);
    services.dispatch_refused(request);
    assert_eq!(busy_of(&services), vec![false, false, false, false]);
    let request = services.dispatch_one(2, None).unwrap();
    let other = services.dispatch_one(3, Some(5)).unwrap();
    services.dispatch_refused(request);
    assert_eq!(busy_of(&services), vec![false, false, false, true]);
    services.dispatch_refused(other);
    assert_eq!(busy_of(&services), vec![false, false, false, false]);
    assert_eq!(flags_of(&services), vec![0b111, 0b110, 0b110, 0b110]);
}

#[test]
fn a_word_fits_a_machine_word_or_does_not() {
    assert_eq!(word_argument(0), Some(0));
    assert_eq!(word_argument(usize::MAX as u128), Some(usize::MAX));
    assert_eq!(word_argument(usize::MAX as u128 + 1), None);
    assert_eq!(word_argument(u128::MAX), None);
    assert_eq!(timeout_argument(None), Some(0));
    assert_eq!(timeout_argument(Some(Duration::ZERO)), Some(0));
    assert_eq!(timeout_argument(Some(Duration::from_nanos(10))), Some(1));
    assert_eq!(timeout_argument(Some(Duration::from_millis(3))), Some(3_000));
    assert_eq!(timeout_argument(Some(Duration::MAX)), None);
}

#[test]
fn a_limit_too_long_for_a_word_starts_nothing() {
    let mut services = four_enabled();
    assert!(services.checked_startup_all_aps(false, Some(Duration::MAX)).is_none());
    assert!(services.checked_startup_this_ap(1, Some(Duration::MAX)).is_none());
    assert_eq!(busy_of(&services), vec![false, false, false, false]);
    let started = services.checked_startup_this_ap(1, Some(Duration::from_micros(40))).unwrap();
    let request = started.unwrap();
    assert_eq!(request.targets(), &vec![1]);
    assert_eq!(request.timeout_in_micro_seconds(), 40);
    let started = services.checked_startup_all_aps(true, None).unwrap();
    assert_eq!(started.unwrap_err(), MpError::Busy);
    services.procedure_completed(1);
    let request = services.checked_startup_all_aps(true, None).unwrap().unwrap();
    assert!(request.waits_forever());
    assert_eq!(request.targets(), &vec![1, 2, 3]);
    let refused = services.checked_startup_this_ap(0, Some(Duration::from_secs(1))).unwrap();
    assert_eq!(refused.unwrap_err(), MpError::NotApplicationProcessor);
}
