use wb_hal::ipcc::EventRead;
use wb_hal::ipcc::IpccRegisters;
use wb_hal::ipcc::MyIpcc;
use wb_hal::ipcc::Poll;
use wb_hal::ipcc::TransferState;
use wb_hal::ipcc::NUM_IPCC_CHANNELS;
use wb_hal::ipcc::wait_for_half_duplex_transfer;

fn fresh() -> MyIpcc {
    MyIpcc::new(IpccRegisters::new())
}

fn channel_flag(ipcc: &MyIpcc, channel: usize) -> bool {
    wait_for_half_duplex_transfer(channel).is_channel_occupied(ipcc)
}

#[test]
fn reset_clears_all_flags_and_masks_all_interrupts() {
    let mut ipcc = fresh();

    // Dirty every kind of state first.
    ipcc.set_channel_occupied(0);
    ipcc.set_channel_occupied(4);
    ipcc.enable_channel_free_interrupt(1);
    ipcc.enable_irq_rx_for_channel(2);
    let fired = ipcc.peer_post_event(5);
    assert!(!fired); // channel 5's notification is still masked

    ipcc.reset();

    let mut c: usize = 0;
    while c < NUM_IPCC_CHANNELS {
        assert!(!channel_flag(&ipcc, c));
        assert!(!ipcc.event_pending(c));
        assert!(ipcc.free_interrupt_masked(c));
        assert!(ipcc.occupied_interrupt_masked(c));
        assert!(ipcc.peer_free_interrupt_masked(c));
        assert!(ipcc.peer_occupied_interrupt_masked(c));
        c += 1;
    }
}

#[test]
fn reset_is_idempotent() {
    let mut ipcc = fresh();
    ipcc.set_channel_occupied(3);
    ipcc.reset();
    ipcc.reset();
    let mut c: usize = 0;
    while c < NUM_IPCC_CHANNELS {
        assert!(!channel_flag(&ipcc, c));
        assert!(ipcc.free_interrupt_masked(c));
        assert!(ipcc.occupied_interrupt_masked(c));
        c += 1;
    }
}

#[test]
fn half_duplex_peer_clear_resolves_one_wait_and_remasks() {
    let mut ipcc = fresh();
    let c: usize = 2;

    let mut transfer = ipcc.write_half_duplex(c);
    assert!(channel_flag(&ipcc, c));
    assert!(!ipcc.free_interrupt_masked(c));

    // The wait is outstanding: the first poll suspends it.
    assert_eq!(transfer.poll(&mut ipcc, 17), Poll::Pending);
    assert!(matches!(transfer.state, TransferState::AwaitingClear));

    // The simulated peer consumes the data; the unmasked free line fires.
    let fired = ipcc.peer_clear_channel(c);
    assert!(fired);

    // The interrupt resolves exactly the one registered waiter.
    assert_eq!(ipcc.irq_c1_tx(), Some(17));
    assert_eq!(ipcc.irq_c1_tx(), None);

    // The woken waiter re-checks its own bit and completes, re-masking.
    assert_eq!(transfer.poll(&mut ipcc, 17), Poll::Ready);
    assert!(matches!(transfer.state, TransferState::Idle));
    assert!(ipcc.free_interrupt_masked(c));

    // Masking the already masked channel again is a no-op, not an error.
    ipcc.disable_channel_free_interrupt(c);
    assert!(ipcc.free_interrupt_masked(c));
    assert!(!channel_flag(&ipcc, c));
}

#[test]
fn masked_peer_clear_does_not_fire() {
    let mut ipcc = fresh();
    ipcc.set_channel_occupied(1);
    // The free notification was never unmasked.
    let fired = ipcc.peer_clear_channel(1);
    assert!(!fired);
    assert!(!channel_flag(&ipcc, 1));
}

#[test]
fn event_wait_already_set_resolves_on_first_check() {
    let mut ipcc = fresh();
    let c: usize = 3;

    ipcc.enable_irq_rx_for_channel(c);
    let fired = ipcc.peer_post_event(c);
    assert!(fired);

    // The flag is already set when the wait starts: level-triggered, the
    // very first poll resolves it.
    let wait = ipcc.wait_for_event(c);
    assert_eq!(wait.poll(&mut ipcc, 5), Poll::Ready);

    // No acknowledgment happens: the flag stays set, and waiting again
    // resolves immediately again.
    assert!(ipcc.event_pending(c));
    let wait_again = ipcc.wait_for_event(c);
    assert_eq!(wait_again.poll(&mut ipcc, 6), Poll::Ready);
}

#[test]
fn event_wait_stays_suspended_until_flag_sets() {
    let mut ipcc = fresh();
    let c: usize = 0;

    let wait = ipcc.wait_for_event(c);
    assert!(!ipcc.occupied_interrupt_masked(c));

    // However often it is polled, the wait never resolves while the flag
    // is clear.
    let mut round: u64 = 0;
    while round < 8 {
        assert_eq!(wait.poll(&mut ipcc, round), Poll::Pending);
        round += 1;
    }

    // Only the peer setting the flag resolves it.
    let fired = ipcc.peer_post_event(c);
    assert!(fired);
    assert_eq!(ipcc.irq_c1_rx(), Some(7));
    assert_eq!(wait.poll(&mut ipcc, 8), Poll::Ready);
}

#[test]
fn spurious_wake_leaves_event_wait_pending() {
    let mut ipcc = fresh();

    // Suspend a wait on channel 1.
    let wait = ipcc.wait_for_event(1);
    assert_eq!(wait.poll(&mut ipcc, 9), Poll::Pending);

    // An unrelated channel fires the shared receive line.
    ipcc.enable_irq_rx_for_channel(4);
    let fired = ipcc.peer_post_event(4);
    assert!(fired);
    assert_eq!(ipcc.irq_c1_rx(), Some(9));

    // The woken waiter re-checks its own bit: unchanged, so it suspends
    // again rather than resolving.
    assert_eq!(wait.poll(&mut ipcc, 9), Poll::Pending);
    assert_eq!(ipcc.irq_c1_rx(), Some(9));
}

#[test]
fn spurious_wake_leaves_transfer_pending() {
    let mut ipcc = fresh();

    let mut transfer = ipcc.write_half_duplex(5);
    assert_eq!(transfer.poll(&mut ipcc, 40), Poll::Pending);

    // Another channel completes and fires the shared free line.
    let mut other = ipcc.write_half_duplex(2);
    let fired = ipcc.peer_clear_channel(2);
    assert!(fired);
    assert_eq!(ipcc.irq_c1_tx(), Some(40));

    // Channel 5 is still occupied: its waiter suspends again.
    assert_eq!(transfer.poll(&mut ipcc, 40), Poll::Pending);
    assert!(matches!(transfer.state, TransferState::AwaitingClear));
    assert_eq!(other.poll(&mut ipcc, 41), Poll::Ready);
}

#[test]
fn last_registered_waiter_wins() {
    let mut ipcc = fresh();

    let wait = ipcc.wait_for_event(0);
    assert_eq!(wait.poll(&mut ipcc, 100), Poll::Pending);
    let second = ipcc.wait_for_event(2);
    assert_eq!(second.poll(&mut ipcc, 200), Poll::Pending);

    // One slot per direction: registering the second waiter overwrote the
    // first, and a wake resolves only the most recent registration.
    assert_eq!(ipcc.irq_c1_rx(), Some(200));
    assert_eq!(ipcc.irq_c1_rx(), None);
}

#[test]
fn cancelled_transfer_remasks_its_interrupt() {
    let mut ipcc = fresh();
    let mut transfer = ipcc.write_half_duplex(4);
    assert!(!ipcc.free_interrupt_masked(4));
    transfer.cancel(&mut ipcc);
    assert!(ipcc.free_interrupt_masked(4));
    assert!(matches!(transfer.state, TransferState::Idle));
}

#[test]
fn cancelled_event_wait_remasks_its_interrupt() {
    let mut ipcc = fresh();
    let wait: EventRead = ipcc.wait_for_event(1);
    assert!(!ipcc.occupied_interrupt_masked(1));
    wait.cancel(&mut ipcc);
    assert!(ipcc.occupied_interrupt_masked(1));
}

#[test]
fn end_to_end_transfer_on_channel_three() {
    let mut ipcc = fresh();

    // All six channels configured to the quiescent baseline by `new`.
    // Record what the bystander channels 0 and 5 look like.
    let bystanders: [usize; 2] = [0, 5];
    for &b in bystanders.iter() {
        assert!(!channel_flag(&ipcc, b));
        assert!(!ipcc.event_pending(b));
        assert!(ipcc.free_interrupt_masked(b));
        assert!(ipcc.occupied_interrupt_masked(b));
    }

    let delay: u64 = 4;
    let waker: u64 = 33;
    let mut transfer = ipcc.write_half_duplex(3);

    // The peer consumes only after `delay` polls; the transfer must not
    // resolve before then.
    let mut elapsed: u64 = 0;
    while elapsed < delay {
        assert_eq!(transfer.poll(&mut ipcc, waker), Poll::Pending);
        assert!(matches!(transfer.state, TransferState::AwaitingClear));
        elapsed += 1;
    }

    let fired = ipcc.peer_clear_channel(3);
    assert!(fired);
    assert_eq!(ipcc.irq_c1_tx(), Some(waker));
    assert_eq!(transfer.poll(&mut ipcc, waker), Poll::Ready);

    // Channel 3 is back in the idle state.
    assert!(matches!(transfer.state, TransferState::Idle));
    assert!(!channel_flag(&ipcc, 3));
    assert!(ipcc.free_interrupt_masked(3));

    // Channels 0 and 5 saw no flag or mask change throughout.
    for &b in bystanders.iter() {
        assert!(!channel_flag(&ipcc, b));
        assert!(!ipcc.event_pending(b));
        assert!(ipcc.free_interrupt_masked(b));
        assert!(ipcc.occupied_interrupt_masked(b));
    }
}
