use wb_hal::pwr::Power;
use wb_hal::pwr::PwrRegisters;

#[test]
fn second_core_starts_held_in_reset() {
    let power = Power::new(PwrRegisters::new());
    assert!(!power.is_cpu2_booted());
}

#[test]
fn boot_cpu2_releases_the_second_core() {
    let mut power = Power::new(PwrRegisters::new());
    power.boot_cpu2();
    assert!(power.is_cpu2_booted());
    // Booting again keeps it released.
    power.boot_cpu2();
    assert!(power.is_cpu2_booted());
}
