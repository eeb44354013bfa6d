use gbcore::interrupts::{InterruptController, InterruptState};

#[test]
fn lowest_request_is_served_first() {
    let mut ic = InterruptController::new();
    ic.write(0xffff, 0x1f);
    ic.write(0xff0f, 0x1f);
    ic.state = InterruptState::Enabled;
    assert_eq!(ic.pending_interrupts(), Some(0x0040));
    assert_eq!(ic.interrupt_flag, 0x1e);
    assert!(ic.state == InterruptState::Disabled);
}

#[test]
fn requests_are_served_in_order_of_their_bits() {
    let mut ic = InterruptController::new();
    ic.write(0xffff, 0x1f);
    ic.write(0xff0f, 0x1f);
    for vector in [0x0040usize, 0x0048, 0x0050, 0x0058, 0x0060] {
        ic.state = InterruptState::Enabled;
        assert_eq!(ic.pending_interrupts(), Some(vector));
    }
    ic.state = InterruptState::Enabled;
    assert_eq!(ic.pending_interrupts(), None);
    assert!(ic.state == InterruptState::Enabled);
    assert_eq!(ic.interrupt_flag, 0x00);
}

#[test]
fn only_enabled_requests_are_served() {
    let mut ic = InterruptController::new();
    ic.write(0xffff, 0x10);
    ic.write(0xff0f, 0x07);
    ic.state = InterruptState::Enabled;
    assert!(!ic.poll_interrupts());
    assert_eq!(ic.pending_interrupts(), None);
    ic.request(0x10);
    assert!(ic.poll_interrupts());
    assert_eq!(ic.pending_interrupts(), Some(0x0060));
    assert_eq!(ic.interrupt_flag, 0x07);
}

#[test]
fn scheduled_enable_takes_one_poll() {
    let mut ic = InterruptController::new();
    ic.write(0xffff, 0x01);
    ic.write(0xff0f, 0x01);
    assert_eq!(ic.pending_interrupts(), None);
    assert!(ic.state == InterruptState::Disabled);
    ic.state = InterruptState::Scheduled;
    assert_eq!(ic.pending_interrupts(), None);
    assert!(ic.state == InterruptState::Enabled);
    assert_eq!(ic.interrupt_flag, 0x01);
    assert_eq!(ic.pending_interrupts(), Some(0x0040));
}

#[test]
fn unused_register_bits_read_as_one() {
    let mut ic = InterruptController::new();
    assert_eq!(ic.read(0xffff), 0xe0);
    assert_eq!(ic.read(0xff0f), 0xe0);
    ic.write(0xffff, 0x05);
    ic.write(0xff0f, 0x12);
    assert_eq!(ic.read(0xffff), 0xe5);
    assert_eq!(ic.read(0xff0f), 0xf2);
}
