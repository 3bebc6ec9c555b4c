use vape::device::measure::{average_mv, battery_percent, coarse_percent, raw_to_mv};
use vape::device::ticks::{compare_target, Ticks, MAX_COUNTER};
use vape::ext::error::ErrorMessage;
use vape::ext::option_ext::{OptionExt, OptionOptionExt};
use vape::flash::savable::flash_buffer_size;
use vape::util::logging::SoftUnwrap;

#[test]
fn option_helpers() {
    assert_eq!(Some(Some(3)).flat(), Some(3));
    assert_eq!(Some(None::<u8>).flat(), None);
    assert_eq!(None::<Option<u8>>.flat(), None);
    assert_eq!(Some(4).keep_if(true), Some(4));
    assert_eq!(Some(4).keep_if(false), None);
    assert_eq!(Some(5).if_some(|_| {}), Some(5));
}

#[test]
fn soft_unwrap_results() {
    let ok: Result<u8, ErrorMessage> = Ok(3);
    assert_eq!(ok.soft_unwrap(), Some(3));
    let err: Result<u8, ErrorMessage> = Err(ErrorMessage("pin"));
    assert_eq!(err.soft_unwrap(), None);
    let err: Result<u8, ErrorMessage> = Err(ErrorMessage("pin"));
    assert_eq!(err.soft_unwrap_or(9), 9);
}

#[test]
fn buffer_sizes_round_up() {
    assert_eq!(flash_buffer_size(0), 4);
    assert_eq!(flash_buffer_size(3), 4);
    assert_eq!(flash_buffer_size(4), 8);
    assert_eq!(flash_buffer_size(7), 8);
    assert_eq!(flash_buffer_size(10), 12);
}

#[test]
fn ticks_accumulate() {
    let mut t = Ticks::new();
    assert_eq!(t.update_total(100), 100);
    assert_eq!(t.update_total(150), 150);
    // the counter wrapped: a whole counter period is added
    assert_eq!(t.update_total(10), 150 + MAX_COUNTER as u64);
    assert_eq!(t.last, 10);
    assert_eq!(compare_target(0xFFFFF0, 0x20), 0x10);
    assert_eq!(compare_target(5, 10), 15);
}

#[test]
fn voltage_arithmetic() {
    assert_eq!(raw_to_mv(-5), 0);
    assert_eq!(raw_to_mv(4095), 10797);
    assert_eq!(raw_to_mv(1000), 2634);
    assert_eq!(average_mv(&[3900, 3901, 3902, 3903, 3904, 3905, 3906, 3907]), 3903);
    assert_eq!(battery_percent(3000), 0);
    assert_eq!(battery_percent(3850), 50);
    assert_eq!(battery_percent(4155), 93);
    assert_eq!(coarse_percent(3000), 0);
    assert_eq!(coarse_percent(3506), 0);
    assert_eq!(coarse_percent(3850), 50);
    assert_eq!(coarse_percent(5000), 100);
}
