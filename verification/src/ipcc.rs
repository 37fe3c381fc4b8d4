//! Driver for the inter-processor communication controller, a hardware
//! mailbox through which the two cores of the chip exchange short control
//! messages over a fixed set of flag-based channels.
//!
//! The hardware exposes one register bank per core; each bank holds one
//! occupied flag per channel and one interrupt mask per channel per
//! direction. The local core sets a flag to publish data, the peer core
//! clears it to acknowledge consumption, and two chip-wide interrupt
//! lines ("a channel we watch became free" / "a channel we watch became
//! occupied") wake at most one suspended waiter per direction. Because an
//! interrupt cannot tell which channel changed, a woken waiter must
//! re-check its own channel's bit and suspend again if it is unchanged.
//!
//! The register banks are represented by a model type owned by the driver
//! handle, so the protocol logic is verified against an explicit account
//! of every flag, mask and waker slot; the peer core's half of the
//! handshake is available as explicit transitions on the same model.

use vstd::prelude::*;

verus! {

/// Number of handshake channels the mailbox provides.
pub const NUM_IPCC_CHANNELS: usize = 6;

// ------------------------------------------------------------------
// Mathematical model
// ------------------------------------------------------------------

/// Model of one core's register bank: the per-channel occupied flags and
/// the per-channel, per-direction interrupt masks (`true` means masked,
/// the quiescent default).
#[verifier::ext_equal]
pub ghost struct BankView {
    /// Occupied flag per channel: set by the producing core, cleared by
    /// the consuming side.
    pub flags: Seq<bool>,
    /// Mask for the "channel became occupied" notification, per channel.
    pub mask_occupied: Seq<bool>,
    /// Mask for the "channel became free" notification, per channel.
    pub mask_free: Seq<bool>,
}

impl BankView {
    /// Every register field covers exactly the fixed channel set.
    pub open spec fn wf(self) -> bool {
        &&& self.flags.len() == NUM_IPCC_CHANNELS
        &&& self.mask_occupied.len() == NUM_IPCC_CHANNELS
        &&& self.mask_free.len() == NUM_IPCC_CHANNELS
    }
}

/// Model of the whole mailbox register block: the local core's bank, the
/// peer core's bank, and the local top-level receive interrupt enable.
#[verifier::ext_equal]
pub ghost struct RegsView {
    pub local: BankView,
    pub peer: BankView,
    /// Top-level enable for the local receive interrupt line.
    pub rx_line_enabled: bool,
}

impl RegsView {
    pub open spec fn wf(self) -> bool {
        self.local.wf() && self.peer.wf()
    }
}

/// Model of the driver: the register block plus the waker registry, which
/// stores at most one pending waiter per direction (registering a new
/// waiter overwrites the previous one in that slot).
#[verifier::ext_equal]
pub ghost struct IpccView {
    pub regs: RegsView,
    /// Waiter suspended until a channel it occupied becomes free.
    pub tx_free_waker: Option<u64>,
    /// Waiter suspended until a channel it watches becomes occupied.
    pub rx_event_waker: Option<u64>,
}

impl IpccView {
    pub open spec fn wf(self) -> bool {
        self.regs.wf()
    }
}

/// A sequence with one entry of value `v` per channel.
pub open spec fn all_channels(v: bool) -> Seq<bool> {
    Seq::new(NUM_IPCC_CHANNELS as nat, |i: int| v)
}

/// A bank in its safe baseline state: no flag pending, every notification
/// masked.
pub open spec fn quiescent_bank() -> BankView {
    BankView { flags: all_channels(false), mask_occupied: all_channels(true), mask_free: all_channels(true) }
}

/// Effect of `reset` on the model: both banks return to the quiescent
/// baseline; the top-level line enable and the waker slots are untouched.
pub open spec fn reset_spec(s: IpccView) -> IpccView {
    IpccView { regs: RegsView { local: quiescent_bank(), peer: quiescent_bank(), rx_line_enabled: s.regs.rx_line_enabled }, ..s }
}

/// The driver state established by `MyIpcc::new`: quiescent banks, the
/// receive line unmasked, no waiter pending in either direction.
pub open spec fn startup_spec() -> IpccView {
    IpccView {
        regs: RegsView { local: quiescent_bank(), peer: quiescent_bank(), rx_line_enabled: true },
        tx_free_waker: None,
        rx_event_waker: None,
    }
}

/// Effect of `set_channel_occupied`: the local bank's flag for the channel
/// is set; everything else is unchanged.
pub open spec fn set_occupied_spec(s: IpccView, c: int) -> IpccView {
    IpccView {
        regs: RegsView {
            local: BankView { flags: s.regs.local.flags.update(c, true), ..s.regs.local },
            ..s.regs
        },
        ..s
    }
}

/// Effect of `enable_channel_free_interrupt`: the local free-notification
/// mask for the channel is lifted.
pub open spec fn enable_free_spec(s: IpccView, c: int) -> IpccView {
    IpccView {
        regs: RegsView {
            local: BankView { mask_free: s.regs.local.mask_free.update(c, false), ..s.regs.local },
            ..s.regs
        },
        ..s
    }
}

/// Effect of `disable_channel_free_interrupt`: the local free-notification
/// mask for the channel is set again.
pub open spec fn disable_free_spec(s: IpccView, c: int) -> IpccView {
    IpccView {
        regs: RegsView {
            local: BankView { mask_free: s.regs.local.mask_free.update(c, true), ..s.regs.local },
            ..s.regs
        },
        ..s
    }
}

/// Effect of `enable_irq_rx_for_channel`: the occupied-notification mask
/// for the channel is lifted in the receive direction.
pub open spec fn enable_rx_irq_spec(s: IpccView, c: int) -> IpccView {
    IpccView {
        regs: RegsView {
            local: BankView { mask_occupied: s.regs.local.mask_occupied.update(c, false), ..s.regs.local },
            ..s.regs
        },
        ..s
    }
}

/// Effect of abandoning an event wait: the occupied-notification mask for
/// the channel is set again.
pub open spec fn disable_rx_irq_spec(s: IpccView, c: int) -> IpccView {
    IpccView {
        regs: RegsView {
            local: BankView { mask_occupied: s.regs.local.mask_occupied.update(c, true), ..s.regs.local },
            ..s.regs
        },
        ..s
    }
}

/// Effect of starting a half-duplex transfer: the channel is marked
/// occupied and its free notification is unmasked.
pub open spec fn start_transfer_spec(s: IpccView, c: int) -> IpccView {
    enable_free_spec(set_occupied_spec(s, c), c)
}

/// Effect of one poll of a half-duplex wait: the waiter is registered in
/// the transmit-free slot (overwriting any previous one); no register
/// changes.
pub open spec fn transfer_poll_spec(s: IpccView, w: u64) -> IpccView {
    IpccView { tx_free_waker: Some(w), ..s }
}

/// A half-duplex wait on channel `c` resolves exactly when the peer has
/// cleared the local occupied flag.
pub open spec fn transfer_poll_is_ready(s: IpccView, c: int) -> bool {
    !s.regs.local.flags[c]
}

/// Effect of one poll of an event wait: the waiter is registered in the
/// receive slot (overwriting any previous one); no register changes.
pub open spec fn event_poll_spec(s: IpccView, w: u64) -> IpccView {
    IpccView { rx_event_waker: Some(w), ..s }
}

/// An event wait on channel `c` resolves exactly when the peer's occupied
/// flag for the channel reads set — level-triggered, so a flag that is
/// already set resolves the wait on the first check.
pub open spec fn event_poll_is_ready(s: IpccView, c: int) -> bool {
    s.regs.peer.flags[c]
}

/// Effect of the "channel free" interrupt: the one pending transmit-free
/// waiter, if any, is taken out of its slot and woken.
pub open spec fn irq_free_spec(s: IpccView) -> IpccView {
    IpccView { tx_free_waker: None, ..s }
}

/// Effect of the "channel occupied" receive interrupt: the one pending
/// receive waiter, if any, is taken out of its slot and woken.
pub open spec fn irq_receive_spec(s: IpccView) -> IpccView {
    IpccView { rx_event_waker: None, ..s }
}

/// Effect of the peer core consuming channel `c`: the hardware clears the
/// local occupied flag.
pub open spec fn peer_clear_spec(s: IpccView, c: int) -> IpccView {
    IpccView {
        regs: RegsView {
            local: BankView { flags: s.regs.local.flags.update(c, false), ..s.regs.local },
            ..s.regs
        },
        ..s
    }
}

/// Effect of the peer core signalling an event on channel `c`: the
/// hardware sets the flag in the peer bank.
pub open spec fn peer_post_spec(s: IpccView, c: int) -> IpccView {
    IpccView {
        regs: RegsView {
            peer: BankView { flags: s.regs.peer.flags.update(c, true), ..s.regs.peer },
            ..s.regs
        },
        ..s
    }
}

// ------------------------------------------------------------------
// Register model (executable)
// ------------------------------------------------------------------

struct Bank {
    flags: Vec<bool>,
    mask_occupied: Vec<bool>,
    mask_free: Vec<bool>,
}

impl View for Bank {
    type V = BankView;

    closed spec fn view(&self) -> BankView {
        BankView { flags: self.flags@, mask_occupied: self.mask_occupied@, mask_free: self.mask_free@ }
    }
}

/// One flag per channel, all of value `value`.
fn channel_row(value: bool) -> (v: Vec<bool>)
    ensures
        v@ == all_channels(value),
{
    let mut v: Vec<bool> = Vec::new();
    v.push(value);
    v.push(value);
    v.push(value);
    v.push(value);
    v.push(value);
    v.push(value);
    proof {
        assert(v@ =~= all_channels(value));
    }
    v
}

impl Bank {
    fn quiescent() -> (b: Bank)
        ensures
            b@ == quiescent_bank(),
    {
        Bank { flags: channel_row(false), mask_occupied: channel_row(true), mask_free: channel_row(true) }
    }
}

/// The mailbox register block. Constructing one stands for taking
/// exclusive ownership of the peripheral at startup, so no other code
/// path can issue conflicting register writes.
pub struct IpccRegisters {
    local: Bank,
    peer: Bank,
    rx_line_enabled: bool,
}

impl View for IpccRegisters {
    type V = RegsView;

    closed spec fn view(&self) -> RegsView {
        RegsView { local: self.local@, peer: self.peer@, rx_line_enabled: self.rx_line_enabled }
    }
}

impl IpccRegisters {
    /// The power-on state: no flag pending, every notification masked,
    /// the receive line disabled.
    pub fn new() -> (r: IpccRegisters)
        ensures
            r@ == (RegsView { local: quiescent_bank(), peer: quiescent_bank(), rx_line_enabled: false }),
    {
        IpccRegisters { local: Bank::quiescent(), peer: Bank::quiescent(), rx_line_enabled: false }
    }
}

// ------------------------------------------------------------------
// Waker registry
// ------------------------------------------------------------------

/// Process-lifetime storage of at most one pending waiter per direction.
/// Registering a new waiter overwrites any previous one in the same slot:
/// only the most recently suspended operation in a direction is woken.
struct State {
    tx_free_waker: Option<u64>,
    rx_event_waker: Option<u64>,
}

impl State {
    fn new() -> (s: State)
        ensures
            s.tx_free_waker is None,
            s.rx_event_waker is None,
    {
        State { tx_free_waker: None, rx_event_waker: None }
    }
}

/// Result of polling a suspended operation once.
#[derive(Clone, Copy, Debug, PartialEq, Eq, Structural)]
pub enum Poll {
    /// The condition does not hold yet; the waiter stays suspended.
    Pending,
    /// The condition holds; the operation has resolved.
    Ready,
}

// ------------------------------------------------------------------
// Driver
// ------------------------------------------------------------------

/// Driver handle for the mailbox: owns the register block and the waker
/// registry.
pub struct MyIpcc {
    regs: IpccRegisters,
    state: State,
}

impl View for MyIpcc {
    type V = IpccView;

    closed spec fn view(&self) -> IpccView {
        IpccView { regs: self.regs@, tx_free_waker: self.state.tx_free_waker, rx_event_waker: self.state.rx_event_waker }
    }
}

impl MyIpcc {
    /// Takes exclusive ownership of the mailbox peripheral, resets it to
    /// the safe baseline and unmasks the top-level receive line.
    pub fn new(peripheral: IpccRegisters) -> (ipcc: MyIpcc)
        ensures
            ipcc@ == startup_spec(),
            ipcc@.wf(),
    {
        let mut ipcc = MyIpcc { regs: peripheral, state: State::new() };
        ipcc.reset();
        ipcc.regs.rx_line_enabled = true;
        ipcc
    }

    /// Returns both banks to the safe baseline: every channel's pending
    /// flag cleared and every per-channel notification masked, in both
    /// banks. Idempotent.
    pub fn reset(&mut self)
        ensures
            final(self)@ == reset_spec(old(self)@),
            final(self)@.wf(),
    {
        self.regs.local = Bank::quiescent();
        self.regs.peer = Bank::quiescent();
    }

    /// Mark channel as occupied. Indicates that valid data is present
    /// and that the other CPU can read data.
    pub fn set_channel_occupied(&mut self, channel: usize)
        requires
            old(self)@.wf(),
            channel < NUM_IPCC_CHANNELS,
        ensures
            final(self)@ == set_occupied_spec(old(self)@, channel as int),
            final(self)@.wf(),
    {
        self.regs.local.flags.set(channel, true);
    }

    /// Enable interrupt for channel free. Interrupt is triggered as soon
    /// as the other CPU indicates that it has read the data.
    pub fn enable_channel_free_interrupt(&mut self, channel: usize)
        requires
            old(self)@.wf(),
            channel < NUM_IPCC_CHANNELS,
        ensures
            final(self)@ == enable_free_spec(old(self)@, channel as int),
            final(self)@.wf(),
    {
        self.regs.local.mask_free.set(channel, false);
    }

    /// Masks the channel-free notification again. Masking an already
    /// masked channel is a no-op, not an error.
    pub fn disable_channel_free_interrupt(&mut self, channel: usize)
        requires
            old(self)@.wf(),
            channel < NUM_IPCC_CHANNELS,
        ensures
            final(self)@ == disable_free_spec(old(self)@, channel as int),
            final(self)@.wf(),
    {
        self.regs.local.mask_free.set(channel, true);
    }

    /// Unmasks the notification fired when the peer sets `channel`'s flag
    /// (simplex receive direction).
    pub fn enable_irq_rx_for_channel(&mut self, channel: usize)
        requires
            old(self)@.wf(),
            channel < NUM_IPCC_CHANNELS,
        ensures
            final(self)@ == enable_rx_irq_spec(old(self)@, channel as int),
            final(self)@.wf(),
    {
        self.regs.local.mask_occupied.set(channel, false);
    }

    /// Starts a half-duplex transfer over the mailbox.
    ///
    /// This handles just the handshake part; the data needs to be written
    /// into the shared buffer beforehand. The channel is marked as
    /// occupied so the other CPU can read the data, and the channel-free
    /// notification is unmasked. The returned operation resolves once the
    /// peer has cleared the flag, and re-masks the notification then.
    ///
    /// At most one transfer may be outstanding per channel at a time;
    /// callers serialize externally.
    pub fn write_half_duplex(&mut self, channel: usize) -> (t: WriteHalfDuplex)
        requires
            old(self)@.wf(),
            channel < NUM_IPCC_CHANNELS,
        ensures
            final(self)@ == start_transfer_spec(old(self)@, channel as int),
            final(self)@.wf(),
            t.channel == channel,
            t.state is AwaitingClear,
    {
        self.set_channel_occupied(channel);
        self.enable_channel_free_interrupt(channel);
        WriteHalfDuplex { channel, state: TransferState::AwaitingClear }
    }

    /// Wait for an event on the given channel.
    ///
    /// Events are received in simplex mode from the peer core: the
    /// receive notification for the channel is unmasked and the returned
    /// operation resolves once the peer's flag for the channel reads set.
    /// The flag is not acknowledged here; clearing is left to the caller.
    pub fn wait_for_event(&mut self, channel: usize) -> (e: EventRead)
        requires
            old(self)@.wf(),
            channel < NUM_IPCC_CHANNELS,
        ensures
            final(self)@ == enable_rx_irq_spec(old(self)@, channel as int),
            final(self)@.wf(),
            e.channel == channel,
    {
        self.enable_irq_rx_for_channel(channel);
        EventRead { channel }
    }

    /// Non-suspending read of whether the peer has set `channel`'s flag
    /// in the receive direction.
    pub fn event_pending(&self, channel: usize) -> (pending: bool)
        requires
            self@.wf(),
            channel < NUM_IPCC_CHANNELS,
        ensures
            pending == self@.regs.peer.flags[channel as int],
    {
        self.regs.peer.flags[channel]
    }

    /// Whether the channel-free notification for `channel` is masked.
    pub fn free_interrupt_masked(&self, channel: usize) -> (masked: bool)
        requires
            self@.wf(),
            channel < NUM_IPCC_CHANNELS,
        ensures
            masked == self@.regs.local.mask_free[channel as int],
    {
        self.regs.local.mask_free[channel]
    }

    /// Whether the channel-occupied notification for `channel` is masked.
    pub fn occupied_interrupt_masked(&self, channel: usize) -> (masked: bool)
        requires
            self@.wf(),
            channel < NUM_IPCC_CHANNELS,
        ensures
            masked == self@.regs.local.mask_occupied[channel as int],
    {
        self.regs.local.mask_occupied[channel]
    }

    /// Whether the peer bank's channel-free notification is masked.
    pub fn peer_free_interrupt_masked(&self, channel: usize) -> (masked: bool)
        requires
            self@.wf(),
            channel < NUM_IPCC_CHANNELS,
        ensures
            masked == self@.regs.peer.mask_free[channel as int],
    {
        self.regs.peer.mask_free[channel]
    }

    /// Whether the peer bank's channel-occupied notification is masked.
    pub fn peer_occupied_interrupt_masked(&self, channel: usize) -> (masked: bool)
        requires
            self@.wf(),
            channel < NUM_IPCC_CHANNELS,
        ensures
            masked == self@.regs.peer.mask_occupied[channel as int],
    {
        self.regs.peer.mask_occupied[channel]
    }

    /// Handler for the "channel free" interrupt line: takes the one
    /// pending transmit-free waiter, if any, out of its slot so the
    /// caller can resume it. The line cannot tell which channel changed,
    /// so the resumed waiter re-checks its own channel's bit.
    pub fn irq_c1_tx(&mut self) -> (woken: Option<u64>)
        ensures
            final(self)@ == irq_free_spec(old(self)@),
            woken == old(self)@.tx_free_waker,
    {
        let woken = self.state.tx_free_waker;
        self.state.tx_free_waker = None;
        woken
    }

    /// Handler for the "channel occupied" receive interrupt line: takes
    /// the one pending receive waiter, if any, out of its slot so the
    /// caller can resume it.
    pub fn irq_c1_rx(&mut self) -> (woken: Option<u64>)
        ensures
            final(self)@ == irq_receive_spec(old(self)@),
            woken == old(self)@.rx_event_waker,
    {
        let woken = self.state.rx_event_waker;
        self.state.rx_event_waker = None;
        woken
    }

    /// The peer core's half of a half-duplex handshake: it consumes the
    /// data and the hardware clears the local occupied flag for the
    /// channel. Returns whether the "channel free" interrupt line fires:
    /// the flag made a set-to-clear transition and was unmasked.
    pub fn peer_clear_channel(&mut self, channel: usize) -> (fired: bool)
        requires
            old(self)@.wf(),
            channel < NUM_IPCC_CHANNELS,
        ensures
            final(self)@ == peer_clear_spec(old(self)@, channel as int),
            final(self)@.wf(),
            fired == (old(self)@.regs.local.flags[channel as int]
                && !old(self)@.regs.local.mask_free[channel as int]),
    {
        let was_set = self.regs.local.flags[channel];
        let masked = self.regs.local.mask_free[channel];
        self.regs.local.flags.set(channel, false);
        was_set && !masked
    }

    /// The peer core signalling an event: the hardware sets the flag for
    /// the channel in the peer bank. Returns whether the receive
    /// interrupt line fires: the flag made a clear-to-set transition, its
    /// notification is unmasked, and the top-level receive line is
    /// enabled.
    pub fn peer_post_event(&mut self, channel: usize) -> (fired: bool)
        requires
            old(self)@.wf(),
            channel < NUM_IPCC_CHANNELS,
        ensures
            final(self)@ == peer_post_spec(old(self)@, channel as int),
            final(self)@.wf(),
            fired == (!old(self)@.regs.peer.flags[channel as int]
                && !old(self)@.regs.local.mask_occupied[channel as int]
                && old(self)@.regs.rx_line_enabled),
    {
        let was_set = self.regs.peer.flags[channel];
        let masked = self.regs.local.mask_occupied[channel];
        self.regs.peer.flags.set(channel, true);
        !was_set && !masked && self.regs.rx_line_enabled
    }
}

// ------------------------------------------------------------------
// Suspended operations
// ------------------------------------------------------------------

/// The half-duplex handshake as seen from the local core.
pub enum TransferState {
    /// No transfer outstanding on the channel.
    Idle,
    /// The occupied flag has been set; the notification is not armed yet.
    Occupied,
    /// Suspended until the peer clears the occupied flag.
    AwaitingClear,
}

/// A started half-duplex transfer, suspended until the peer clears the
/// channel's occupied flag.
pub struct WriteHalfDuplex {
    pub channel: usize,
    pub state: TransferState,
}

impl WriteHalfDuplex {
    /// One wake-and-recheck cycle. The waiter is registered in the
    /// transmit-free slot and the channel's own bit is examined: if the
    /// peer has cleared it the notification is re-masked and the transfer
    /// is done, otherwise it stays suspended. A wake whose interrupt was
    /// for some other channel therefore leaves this operation pending.
    pub fn poll(&mut self, ipcc: &mut MyIpcc, waker: u64) -> (r: Poll)
        requires
            old(ipcc)@.wf(),
            old(self).channel < NUM_IPCC_CHANNELS,
            old(self).state is AwaitingClear,
        ensures
            final(ipcc)@.wf(),
            final(self).channel == old(self).channel,
            r is Ready <==> transfer_poll_is_ready(old(ipcc)@, old(self).channel as int),
            r is Ready ==> final(self).state is Idle
                && final(ipcc)@ == disable_free_spec(
                    transfer_poll_spec(old(ipcc)@, waker), old(self).channel as int),
            r is Pending ==> final(self).state is AwaitingClear
                && final(ipcc)@ == transfer_poll_spec(old(ipcc)@, waker),
    {
        ipcc.state.tx_free_waker = Some(waker);
        if ipcc.regs.local.flags[self.channel] {
            Poll::Pending
        } else {
            ipcc.disable_channel_free_interrupt(self.channel);
            self.state = TransferState::Idle;
            Poll::Ready
        }
    }

    /// Abandons the suspended transfer before it resolved: the
    /// notification it had unmasked is explicitly re-masked, so the mask
    /// state stays consistent for later callers.
    pub fn cancel(&mut self, ipcc: &mut MyIpcc)
        requires
            old(ipcc)@.wf(),
            old(self).channel < NUM_IPCC_CHANNELS,
            old(self).state is AwaitingClear,
        ensures
            final(ipcc)@.wf(),
            final(ipcc)@ == disable_free_spec(old(ipcc)@, old(self).channel as int),
            final(self).channel == old(self).channel,
            final(self).state is Idle,
    {
        ipcc.disable_channel_free_interrupt(self.channel);
        self.state = TransferState::Idle;
    }
}

/// The bare wait for a peer clear on a channel, without mask handling.
pub struct HalfDuplexTransfer {
    pub channel: usize,
}

/// The suspended part of a half-duplex transfer: resolves once the peer
/// has cleared the occupied flag of `channel`.
pub fn wait_for_half_duplex_transfer(channel: usize) -> (t: HalfDuplexTransfer)
    ensures
        t.channel == channel,
{
    HalfDuplexTransfer { channel }
}

impl HalfDuplexTransfer {
    /// Whether the local occupied flag for this wait's channel still
    /// reads set.
    pub fn is_channel_occupied(&self, ipcc: &MyIpcc) -> (occupied: bool)
        requires
            ipcc@.wf(),
            self.channel < NUM_IPCC_CHANNELS,
        ensures
            occupied == ipcc@.regs.local.flags[self.channel as int],
    {
        ipcc.regs.local.flags[self.channel]
    }

    /// One wake-and-recheck cycle: registers the waiter in the
    /// transmit-free slot, then reads the channel's own bit; ready
    /// exactly when the peer has cleared it.
    pub fn poll(&self, ipcc: &mut MyIpcc, waker: u64) -> (r: Poll)
        requires
            old(ipcc)@.wf(),
            self.channel < NUM_IPCC_CHANNELS,
        ensures
            final(ipcc)@.wf(),
            final(ipcc)@ == transfer_poll_spec(old(ipcc)@, waker),
            r is Ready <==> transfer_poll_is_ready(old(ipcc)@, self.channel as int),
    {
        ipcc.state.tx_free_waker = Some(waker);
        if self.is_channel_occupied(ipcc) {
            Poll::Pending
        } else {
            Poll::Ready
        }
    }
}

/// A suspended wait for a peer event on one channel.
pub struct EventRead {
    pub channel: usize,
}

impl EventRead {
    /// Whether the peer has set this wait's channel flag.
    pub fn received_event(&self, ipcc: &MyIpcc) -> (received: bool)
        requires
            ipcc@.wf(),
            self.channel < NUM_IPCC_CHANNELS,
        ensures
            received == event_poll_is_ready(ipcc@, self.channel as int),
    {
        ipcc.event_pending(self.channel)
    }

    /// One wake-and-recheck cycle: registers the waiter in the receive
    /// slot, then reads the channel's own bit. Level-triggered: a flag
    /// that is already set resolves the wait on this first check; a wake
    /// whose interrupt was for some other channel leaves it pending.
    pub fn poll(&self, ipcc: &mut MyIpcc, waker: u64) -> (r: Poll)
        requires
            old(ipcc)@.wf(),
            self.channel < NUM_IPCC_CHANNELS,
        ensures
            final(ipcc)@.wf(),
            final(ipcc)@ == event_poll_spec(old(ipcc)@, waker),
            r is Ready <==> event_poll_is_ready(old(ipcc)@, self.channel as int),
    {
        ipcc.state.rx_event_waker = Some(waker);
        if self.received_event(ipcc) {
            Poll::Ready
        } else {
            Poll::Pending
        }
    }

    /// Abandons the wait before it resolved: re-masks the receive
    /// notification this wait had unmasked.
    pub fn cancel(&self, ipcc: &mut MyIpcc)
        requires
            old(ipcc)@.wf(),
            self.channel < NUM_IPCC_CHANNELS,
        ensures
            final(ipcc)@.wf(),
            final(ipcc)@ == disable_rx_irq_spec(old(ipcc)@, self.channel as int),
    {
        ipcc.regs.local.mask_occupied.set(self.channel, true);
    }
}

// ------------------------------------------------------------------
// Protocol laws
// ------------------------------------------------------------------

/// After a reset, every occupied flag on both banks reads clear and every
/// per-channel interrupt mask on both banks reads masked, whatever the
/// state was before.
pub proof fn lemma_reset_quiescent(s: IpccView, c: int)
    requires
        0 <= c < NUM_IPCC_CHANNELS,
    ensures
        !reset_spec(s).regs.local.flags[c],
        !reset_spec(s).regs.peer.flags[c],
        reset_spec(s).regs.local.mask_occupied[c],
        reset_spec(s).regs.local.mask_free[c],
        reset_spec(s).regs.peer.mask_occupied[c],
        reset_spec(s).regs.peer.mask_free[c],
{
}

/// Resetting an already reset mailbox changes nothing: the reset is
/// idempotent.
pub proof fn lemma_reset_idempotent(s: IpccView)
    ensures
        reset_spec(reset_spec(s)) == reset_spec(s),
{
}

/// Masking the channel-free notification twice is the same as masking it
/// once: the disable path is a no-op on an already masked channel, not an
/// error.
pub proof fn lemma_disable_free_idempotent(s: IpccView, c: int)
    requires
        s.wf(),
        0 <= c < NUM_IPCC_CHANNELS,
    ensures
        disable_free_spec(disable_free_spec(s, c), c) == disable_free_spec(s, c),
{
    assert(disable_free_spec(disable_free_spec(s, c), c) =~= disable_free_spec(s, c));
}

/// The half-duplex handshake: marking a channel occupied and arming its
/// free notification leaves one wait outstanding; when the peer then
/// clears the flag, the interrupt fires and resolves exactly the one
/// registered waiter; the final wake-and-recheck finds the flag clear and
/// leaves the free notification re-masked.
pub proof fn lemma_half_duplex_handshake(s: IpccView, c: int, w: u64)
    requires
        s.wf(),
        0 <= c < NUM_IPCC_CHANNELS,
    ensures
        ({
            let started = start_transfer_spec(s, c);
            let suspended = transfer_poll_spec(started, w);
            let cleared = peer_clear_spec(suspended, c);
            let woken = irq_free_spec(cleared);
            let done = disable_free_spec(transfer_poll_spec(woken, w), c);
            &&& started.regs.local.flags[c]
            &&& !transfer_poll_is_ready(suspended, c)
            &&& suspended.tx_free_waker == Some(w)
            &&& !suspended.regs.local.mask_free[c]
            &&& woken.tx_free_waker == None::<u64>
            &&& transfer_poll_is_ready(woken, c)
            &&& done.regs.local.mask_free[c]
        }),
{
}

/// A wait for an event on a channel whose flag is already set resolves on
/// the first check: the resolution condition is level-triggered, no prior
/// clear-to-set transition is needed.
pub proof fn lemma_event_wait_level_triggered(s: IpccView, c: int, w: u64)
    requires
        s.wf(),
        0 <= c < NUM_IPCC_CHANNELS,
        s.regs.peer.flags[c],
    ensures
        event_poll_is_ready(event_poll_spec(enable_rx_irq_spec(s, c), w), c),
        event_poll_is_ready(enable_rx_irq_spec(s, c), c),
{
}

/// The register state after a sequence of wake-and-recheck cycles of an
/// event wait, each registering one waiter token.
pub open spec fn polls_event(s: IpccView, tokens: Seq<u64>) -> IpccView
    decreases tokens.len(),
{
    if tokens.len() == 0 {
        s
    } else {
        polls_event(event_poll_spec(s, tokens[0]), tokens.subrange(1, tokens.len() as int))
    }
}

/// While the peer has not set the watched flag, an event wait stays
/// suspended: any number of wake-and-recheck cycles changes no register
/// and never finds the wait ready, so it cannot resolve before the flag
/// transitions to set.
pub proof fn lemma_event_wait_stays_pending(s: IpccView, c: int, tokens: Seq<u64>)
    requires
        s.wf(),
        0 <= c < NUM_IPCC_CHANNELS,
        !s.regs.peer.flags[c],
    ensures
        polls_event(s, tokens).regs == s.regs,
        !event_poll_is_ready(polls_event(s, tokens), c),
    decreases tokens.len(),
{
    if tokens.len() > 0 {
        lemma_event_wait_stays_pending(event_poll_spec(s, tokens[0]), c, tokens.subrange(1, tokens.len() as int));
    }
}

/// A spurious wake of an event wait — the receive interrupt fires, but
/// the polled channel's own bit did not change — leaves that operation
/// still pending: the re-check finds the flag still clear and the waiter
/// is registered again.
pub proof fn lemma_spurious_wake_event_stays_pending(s: IpccView, c: int, w: u64, w2: u64)
    requires
        s.wf(),
        0 <= c < NUM_IPCC_CHANNELS,
        !s.regs.peer.flags[c],
    ensures
        ({
            let suspended = event_poll_spec(s, w);
            let woken = irq_receive_spec(suspended);
            let repolled = event_poll_spec(woken, w2);
            &&& !event_poll_is_ready(suspended, c)
            &&& !event_poll_is_ready(repolled, c)
            &&& repolled.rx_event_waker == Some(w2)
            &&& repolled.regs == s.regs
        }),
{
}

/// A spurious wake of a half-duplex wait — the free interrupt fires, but
/// the polled channel's own flag is still set — leaves that operation
/// still pending and suspended again.
pub proof fn lemma_spurious_wake_transfer_stays_pending(s: IpccView, c: int, w: u64, w2: u64)
    requires
        s.wf(),
        0 <= c < NUM_IPCC_CHANNELS,
        s.regs.local.flags[c],
    ensures
        ({
            let suspended = transfer_poll_spec(s, w);
            let woken = irq_free_spec(suspended);
            let repolled = transfer_poll_spec(woken, w2);
            &&& !transfer_poll_is_ready(suspended, c)
            &&& !transfer_poll_is_ready(repolled, c)
            &&& repolled.tx_free_waker == Some(w2)
            &&& repolled.regs == s.regs
        }),
{
}

/// Operations on one channel leave every other channel's flags and masks
/// unchanged: a handshake on channel `c` is invisible on channel `d`.
pub proof fn lemma_channel_isolation(s: IpccView, c: int, d: int, w: u64)
    requires
        s.wf(),
        0 <= c < NUM_IPCC_CHANNELS,
        0 <= d < NUM_IPCC_CHANNELS,
        c != d,
    ensures
        ({
            let after = disable_free_spec(transfer_poll_spec(irq_free_spec(peer_clear_spec(
                transfer_poll_spec(start_transfer_spec(s, c), w), c)), w), c);
            &&& after.regs.local.flags[d] == s.regs.local.flags[d]
            &&& after.regs.peer.flags[d] == s.regs.peer.flags[d]
            &&& after.regs.local.mask_occupied[d] == s.regs.local.mask_occupied[d]
            &&& after.regs.local.mask_free[d] == s.regs.local.mask_free[d]
            &&& after.regs.peer.mask_occupied[d] == s.regs.peer.mask_occupied[d]
            &&& after.regs.peer.mask_free[d] == s.regs.peer.mask_free[d]
        }),
{
}

} // verus!
