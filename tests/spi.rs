use rp2040_bringup::spi::{exchange_byte, transfer, transfer_loopback, SpiSubordinate};

#[test]
fn one_byte_exchange_swaps_the_shift_registers() {
    assert_eq!(exchange_byte(0xA5, 0x3C), (0x3C, 0xA5));
    assert_eq!(exchange_byte(0x00, 0xFF), (0xFF, 0x00));
    assert_eq!(exchange_byte(0x80, 0x01), (0x01, 0x80));
}

#[test]
fn loopback_captures_what_was_sent() {
    let tx: Vec<u8> = vec![0xD0, 0x00, 0xFF, 0x5A, 0x81];
    let rx = transfer_loopback(&tx);
    assert_eq!(rx.len(), tx.len());
    assert_eq!(rx, tx);
    assert_eq!(transfer_loopback(&vec![]), Vec::<u8>::new());
}

#[test]
fn loopback_of_every_byte_value() {
    let tx: Vec<u8> = (0..=255u8).collect();
    assert_eq!(transfer_loopback(&tx), tx);
}

#[test]
fn transfer_to_a_subordinate() {
    let mut sub = SpiSubordinate::new(0x58);
    let rx = transfer(&vec![0xD0, 0x00, 0x07], &mut sub);
    assert_eq!(rx, vec![0x58, 0x58, 0x58]);
    assert_eq!(sub.last_received, 0x07);
    assert_eq!(sub.response, 0x58);
    let rx = transfer(&vec![], &mut sub);
    assert!(rx.is_empty());
    assert_eq!(sub.last_received, 0x07);
}

#[test]
fn subordinate_reuses_its_last_byte() {
    let mut sub = SpiSubordinate::new(0);
    assert_eq!(sub.poll(Some(5)), 5);
    // No new byte: the old one is acted on again, not a zero.
    assert_eq!(sub.poll(None), 5);
    assert_eq!(sub.poll(None), 5);
    assert_eq!(sub.poll(Some(9)), 9);
    assert_eq!(sub.poll(None), 9);
}

#[test]
fn subordinate_starts_from_zero_and_reloads_its_response() {
    let mut sub = SpiSubordinate::new(0x11);
    assert_eq!(sub.poll(None), 0);
    sub.load_response(0x22);
    assert_eq!(transfer(&vec![0x33], &mut sub), vec![0x22]);
}
