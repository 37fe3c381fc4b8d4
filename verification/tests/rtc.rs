use wb_hal::rcc::RtcClkSrc;
use wb_hal::rtc::BackupDomain;
use wb_hal::rtc::Rtc;
use wb_hal::rtc::RtcRegisters;
use wb_hal::rtc::init_mode;
use wb_hal::rtc::write_protection;
use wb_hal::rtc::ASYNCH_PREDIV;
use wb_hal::rtc::SYNCH_PREDIV;
use wb_hal::rtc::WPR_KEY_FIRST;
use wb_hal::rtc::WPR_KEY_SECOND;

#[test]
fn new_configures_and_relocks_the_calendar() {
    let mut domain = BackupDomain::new();
    let rtc = Rtc::new(RtcRegisters::new(), &mut domain, RtcClkSrc::Lse);

    assert!(domain.backup_access_enabled());
    assert!(domain.apb_clock_enabled());
    assert_eq!(domain.rtc_source(), 0b01);
    assert!(domain.rtc_enabled());

    assert!(rtc.write_protected());
    assert_eq!(rtc.synchronous_prescaler(), SYNCH_PREDIV);
    assert_eq!(rtc.synchronous_prescaler(), 0x7FFF);
    assert_eq!(rtc.asynchronous_prescaler(), ASYNCH_PREDIV);
    assert_eq!(rtc.asynchronous_prescaler(), 15);
    assert_eq!(rtc.output_selection(), 0b11);
}

#[test]
fn new_with_hse_source() {
    let mut domain = BackupDomain::new();
    let _rtc = Rtc::new(RtcRegisters::new(), &mut domain, RtcClkSrc::HseDiv32);
    assert_eq!(domain.rtc_source(), 0b11);
}

#[test]
fn unlock_needs_both_keys_in_order() {
    let mut regs = RtcRegisters::new();
    assert!(regs.is_write_protected());

    // Second key alone does not unlock.
    regs.write_key(WPR_KEY_SECOND);
    assert!(regs.is_write_protected());

    // A wrong key between the two re-arms the sequence.
    regs.write_key(WPR_KEY_FIRST);
    regs.write_key(0x00);
    assert!(regs.is_write_protected());
    regs.write_key(WPR_KEY_SECOND);
    assert!(regs.is_write_protected());

    // The exact sequence unlocks.
    regs.write_key(WPR_KEY_FIRST);
    regs.write_key(WPR_KEY_SECOND);
    assert!(!regs.is_write_protected());
}

#[test]
fn write_protection_round_trip() {
    let mut regs = RtcRegisters::new();
    write_protection(&mut regs, false);
    assert!(!regs.is_write_protected());
    write_protection(&mut regs, true);
    assert!(regs.is_write_protected());
}

#[test]
fn init_mode_enter_is_idempotent() {
    let mut regs = RtcRegisters::new();
    write_protection(&mut regs, false);
    assert!(!regs.in_init_mode());
    init_mode(&mut regs, true);
    assert!(regs.in_init_mode());
    init_mode(&mut regs, true);
    assert!(regs.in_init_mode());
    init_mode(&mut regs, false);
    assert!(!regs.in_init_mode());
}
