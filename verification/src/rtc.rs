//! Real-time clock setup.
//!
//! The calendar registers sit in the backup domain and are guarded twice
//! over: a two-key write-protection sequence must be entered before any
//! register accepts a write, and the prescalers can only be changed while
//! the peripheral is held in its initialization mode. Both guards are part
//! of the register model, so verification shows that the setup sequence
//! unlocks, initializes and re-locks in the right order.

use crate::rcc::RtcClkSrc;
use vstd::prelude::*;

verus! {

/// First key of the unlock sequence for the write-protection register.
pub const WPR_KEY_FIRST: u8 = 0xCA;

/// Second key of the unlock sequence for the write-protection register.
pub const WPR_KEY_SECOND: u8 = 0x53;

/// Any other value re-arms the write protection; this one is customary.
pub const WPR_KEY_LOCK: u8 = 0xFF;

/// The clock driving the calendar is divided down to one tick per second;
/// this is the asynchronous part of that division.
pub const RTC_CLK_DIV: u8 = 16;

pub const ASYNCH_PREDIV: u8 = RTC_CLK_DIV - 1;

pub const SYNCH_PREDIV: u16 = 0x7FFF;

// ------------------------------------------------------------------
// Backup-domain control
// ------------------------------------------------------------------

/// Model of the backup-domain control bits that the calendar setup owns:
/// write access to the domain, the peripheral bus clock, and the clock
/// source selection for the calendar.
#[verifier::ext_equal]
pub ghost struct BackupDomainView {
    /// Backup-domain write access enabled.
    pub dbp: bool,
    /// Bus clock for the calendar's register interface enabled.
    pub rtcapben: bool,
    /// Selected calendar clock source, as a register encoding.
    pub rtcsel: u8,
    /// Calendar clock enabled.
    pub rtcen: bool,
}

/// The backup-domain control registers. The clock-selection bits only
/// accept writes while backup-domain write access is enabled.
pub struct BackupDomain {
    dbp: bool,
    rtcapben: bool,
    rtcsel: u8,
    rtcen: bool,
}

impl View for BackupDomain {
    type V = BackupDomainView;

    closed spec fn view(&self) -> BackupDomainView {
        BackupDomainView { dbp: self.dbp, rtcapben: self.rtcapben, rtcsel: self.rtcsel, rtcen: self.rtcen }
    }
}

impl BackupDomain {
    /// The power-on state: write access disabled, no clock selected.
    pub fn new() -> (d: BackupDomain)
        ensures
            d@ == (BackupDomainView { dbp: false, rtcapben: false, rtcsel: 0, rtcen: false }),
    {
        BackupDomain { dbp: false, rtcapben: false, rtcsel: 0, rtcen: false }
    }

    /// Enables write access to the backup domain.
    pub fn enable_backup_access(&mut self)
        ensures
            final(self)@ == (BackupDomainView { dbp: true, ..old(self)@ }),
    {
        self.dbp = true;
    }

    /// Enables the bus clock of the calendar's register interface.
    pub fn enable_apb_clock(&mut self)
        ensures
            final(self)@ == (BackupDomainView { rtcapben: true, ..old(self)@ }),
    {
        self.rtcapben = true;
    }

    /// Selects the calendar clock source. The selection bits are in the
    /// backup domain, so write access must be enabled first.
    pub fn select_rtc_source(&mut self, bits: u8)
        requires
            old(self)@.dbp,
        ensures
            final(self)@ == (BackupDomainView { rtcsel: bits, ..old(self)@ }),
    {
        self.rtcsel = bits;
    }

    /// Enables the calendar clock; needs backup-domain write access.
    pub fn enable_rtc(&mut self)
        requires
            old(self)@.dbp,
        ensures
            final(self)@ == (BackupDomainView { rtcen: true, ..old(self)@ }),
    {
        self.rtcen = true;
    }

    /// Whether the calendar clock is enabled.
    pub fn rtc_enabled(&self) -> (e: bool)
        ensures
            e == self@.rtcen,
    {
        self.rtcen
    }

    /// The selected calendar clock source, as a register encoding.
    pub fn rtc_source(&self) -> (s: u8)
        ensures
            s == self@.rtcsel,
    {
        self.rtcsel
    }

    /// Whether write access to the backup domain is enabled.
    pub fn backup_access_enabled(&self) -> (e: bool)
        ensures
            e == self@.dbp,
    {
        self.dbp
    }

    /// Whether the bus clock of the register interface is enabled.
    pub fn apb_clock_enabled(&self) -> (e: bool)
        ensures
            e == self@.rtcapben,
    {
        self.rtcapben
    }
}

// ------------------------------------------------------------------
// Calendar registers
// ------------------------------------------------------------------

/// Model of the calendar's own registers, together with the two guards
/// the hardware puts on them.
#[verifier::ext_equal]
pub ghost struct RtcView {
    /// Writes are ignored unless the unlock sequence has been entered.
    pub write_protected: bool,
    /// The first unlock key has been seen, the second is awaited.
    pub unlock_started: bool,
    /// The peripheral is halted for initialization.
    pub init_mode: bool,
    /// Hour format bit.
    pub fmt: bool,
    /// Output selection: which internal signal drives the output pin.
    pub osel: u8,
    /// Output polarity bit.
    pub pol: bool,
    /// Wakeup-timer clock selection.
    pub wucksel: u8,
    /// Synchronous prescaler.
    pub prediv_s: u16,
    /// Asynchronous prescaler.
    pub prediv_a: u8,
    /// Alarm output type bit.
    pub alarm_type: bool,
    /// Output remap bit.
    pub out_rmp: bool,
}

/// Effect of writing `key` to the write-protection register: the exact
/// two-key sequence disarms the protection; any other write re-arms it.
pub open spec fn write_key_spec(v: RtcView, key: u8) -> RtcView {
    if key == WPR_KEY_FIRST {
        RtcView { unlock_started: true, ..v }
    } else if key == WPR_KEY_SECOND && v.unlock_started {
        RtcView { unlock_started: false, write_protected: false, ..v }
    } else {
        RtcView { unlock_started: false, write_protected: true, ..v }
    }
}

/// The calendar register block. Constructing one stands for taking
/// exclusive ownership of the peripheral at startup.
pub struct RtcRegisters {
    write_protected: bool,
    unlock_started: bool,
    init_mode: bool,
    fmt: bool,
    osel: u8,
    pol: bool,
    wucksel: u8,
    prediv_s: u16,
    prediv_a: u8,
    alarm_type: bool,
    out_rmp: bool,
}

impl View for RtcRegisters {
    type V = RtcView;

    closed spec fn view(&self) -> RtcView {
        RtcView {
            write_protected: self.write_protected,
            unlock_started: self.unlock_started,
            init_mode: self.init_mode,
            fmt: self.fmt,
            osel: self.osel,
            pol: self.pol,
            wucksel: self.wucksel,
            prediv_s: self.prediv_s,
            prediv_a: self.prediv_a,
            alarm_type: self.alarm_type,
            out_rmp: self.out_rmp,
        }
    }
}

impl RtcRegisters {
    /// The power-on state: protected, not initializing, all fields at
    /// their reset values.
    pub fn new() -> (r: RtcRegisters)
        ensures
            r@ == (RtcView {
                write_protected: true,
                unlock_started: false,
                init_mode: false,
                fmt: false,
                osel: 0,
                pol: false,
                wucksel: 0,
                prediv_s: 0,
                prediv_a: 0,
                alarm_type: false,
                out_rmp: false,
            }),
    {
        RtcRegisters {
            write_protected: true,
            unlock_started: false,
            init_mode: false,
            fmt: false,
            osel: 0,
            pol: false,
            wucksel: 0,
            prediv_s: 0,
            prediv_a: 0,
            alarm_type: false,
            out_rmp: false,
        }
    }

    /// Writes one key to the write-protection register.
    pub fn write_key(&mut self, key: u8)
        ensures
            final(self)@ == write_key_spec(old(self)@, key),
    {
        if key == WPR_KEY_FIRST {
            self.unlock_started = true;
        } else if key == WPR_KEY_SECOND && self.unlock_started {
            self.unlock_started = false;
            self.write_protected = false;
        } else {
            self.unlock_started = false;
            self.write_protected = true;
        }
    }

    /// Halts the calendar for initialization; needs the protection
    /// disarmed.
    pub fn enter_init(&mut self)
        requires
            !old(self)@.write_protected,
        ensures
            final(self)@ == (RtcView { init_mode: true, ..old(self)@ }),
    {
        self.init_mode = true;
    }

    /// Restarts the calendar after initialization.
    pub fn exit_init(&mut self)
        requires
            !old(self)@.write_protected,
        ensures
            final(self)@ == (RtcView { init_mode: false, ..old(self)@ }),
    {
        self.init_mode = false;
    }

    /// Sets hour format, output selection and output polarity; needs the
    /// protection disarmed.
    pub fn set_control(&mut self, fmt: bool, osel: u8, pol: bool)
        requires
            !old(self)@.write_protected,
        ensures
            final(self)@ == (RtcView { fmt, osel, pol, ..old(self)@ }),
    {
        self.fmt = fmt;
        self.osel = osel;
        self.pol = pol;
    }

    /// Selects the wakeup-timer clock; needs the protection disarmed.
    pub fn set_wakeup_clock(&mut self, wucksel: u8)
        requires
            !old(self)@.write_protected,
        ensures
            final(self)@ == (RtcView { wucksel, ..old(self)@ }),
    {
        self.wucksel = wucksel;
    }

    /// Sets the two prescalers; the hardware accepts this write only in
    /// initialization mode with the protection disarmed.
    pub fn set_prescalers(&mut self, prediv_s: u16, prediv_a: u8)
        requires
            !old(self)@.write_protected,
            old(self)@.init_mode,
        ensures
            final(self)@ == (RtcView { prediv_s, prediv_a, ..old(self)@ }),
    {
        self.prediv_s = prediv_s;
        self.prediv_a = prediv_a;
    }

    /// Sets alarm output type and output remap; needs the protection
    /// disarmed.
    pub fn set_output(&mut self, alarm_type: bool, out_rmp: bool)
        requires
            !old(self)@.write_protected,
        ensures
            final(self)@ == (RtcView { alarm_type, out_rmp, ..old(self)@ }),
    {
        self.alarm_type = alarm_type;
        self.out_rmp = out_rmp;
    }

    /// Whether the calendar is halted in initialization mode.
    pub fn in_init_mode(&self) -> (i: bool)
        ensures
            i == self@.init_mode,
    {
        self.init_mode
    }

    /// Whether the register write protection is armed.
    pub fn is_write_protected(&self) -> (p: bool)
        ensures
            p == self@.write_protected,
    {
        self.write_protected
    }
}

/// Arms or disarms the register write protection, using the two-key
/// unlock sequence the hardware expects.
pub fn write_protection(rtc: &mut RtcRegisters, enable: bool)
    ensures
        enable ==> final(rtc)@ == (RtcView { unlock_started: false, write_protected: true, ..old(rtc)@ }),
        !enable ==> final(rtc)@ == (RtcView { unlock_started: false, write_protected: false, ..old(rtc)@ }),
{
    if enable {
        rtc.write_key(WPR_KEY_LOCK);
    } else {
        rtc.write_key(WPR_KEY_FIRST);
        rtc.write_key(WPR_KEY_SECOND);
    }
}

/// Enters or leaves initialization mode; entering is a no-op when the
/// calendar is already halted.
pub fn init_mode(rtc: &mut RtcRegisters, enabled: bool)
    requires
        !old(rtc)@.write_protected,
    ensures
        final(rtc)@ == (RtcView { init_mode: enabled, ..old(rtc)@ }),
{
    if enabled {
        if !rtc.in_init_mode() {
            rtc.enter_init();
        }
    } else {
        rtc.exit_init();
    }
}

// ------------------------------------------------------------------
// Driver
// ------------------------------------------------------------------

/// The calendar register state established by `Rtc::new`.
pub open spec fn configured_rtc() -> RtcView {
    RtcView {
        write_protected: true,
        unlock_started: false,
        init_mode: false,
        fmt: false,
        osel: 0b11,
        pol: false,
        wucksel: 0b000,
        prediv_s: SYNCH_PREDIV,
        prediv_a: ASYNCH_PREDIV,
        alarm_type: false,
        out_rmp: false,
    }
}

/// Driver handle owning the calendar peripheral.
pub struct Rtc {
    peripheral: RtcRegisters,
}

impl View for Rtc {
    type V = RtcView;

    closed spec fn view(&self) -> RtcView {
        self.peripheral@
    }
}

impl Rtc {
    /// Takes exclusive ownership of the calendar peripheral and
    /// configures it: the backup domain is opened and given the requested
    /// clock source, and the calendar is unlocked, initialized with a
    /// one-second tick (24-hour format, wakeup output, standard
    /// prescalers) and locked again.
    pub fn new(peripheral: RtcRegisters, domain: &mut BackupDomain, rtc_src: RtcClkSrc) -> (rtc: Rtc)
        ensures
            rtc@ == configured_rtc(),
            final(domain)@ == (BackupDomainView {
                dbp: true,
                rtcapben: true,
                rtcsel: rtc_src.spec_bits(),
                rtcen: true,
            }),
    {
        let mut regs = peripheral;

        domain.enable_backup_access();
        domain.enable_apb_clock();
        domain.select_rtc_source(rtc_src.bits());
        domain.enable_rtc();

        write_protection(&mut regs, false);
        init_mode(&mut regs, true);
        regs.set_control(false, 0b11, false);
        regs.set_wakeup_clock(0b000);
        regs.set_prescalers(SYNCH_PREDIV, ASYNCH_PREDIV);
        init_mode(&mut regs, false);
        regs.set_output(false, false);
        write_protection(&mut regs, true);

        Rtc { peripheral: regs }
    }

    /// Whether the register write protection is armed.
    pub fn write_protected(&self) -> (p: bool)
        ensures
            p == self@.write_protected,
    {
        self.peripheral.write_protected
    }

    /// The configured synchronous prescaler.
    pub fn synchronous_prescaler(&self) -> (p: u16)
        ensures
            p == self@.prediv_s,
    {
        self.peripheral.prediv_s
    }

    /// The configured asynchronous prescaler.
    pub fn asynchronous_prescaler(&self) -> (p: u8)
        ensures
            p == self@.prediv_a,
    {
        self.peripheral.prediv_a
    }

    /// The configured output selection.
    pub fn output_selection(&self) -> (o: u8)
        ensures
            o == self@.osel,
    {
        self.peripheral.osel
    }
}

} // verus!
