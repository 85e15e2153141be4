//! Full-duplex SPI at the level of the shift registers: on every clock the
//! main shifts its top bit out on MOSI while the subordinate shifts its top
//! bit out on MISO, and each shifts in what the other sent, most significant
//! bit first (mode 3: driven on the falling edge, sampled on the rising one).
use vstd::prelude::*;

verus! {

/// The two 8-bit shift registers seen as one 16-bit ring, main above
/// subordinate, rotated left by `k` places.
pub open spec fn ring_after(ring: u32, k: u32) -> u32 {
    ((ring << k) | (ring >> ((16 - k) as u32))) & 0xffff
}

/// One clock of the shift registers: each shifts left by one and takes in
/// the other's outgoing top bit.
fn clock_once(main: u32, sub: u32) -> (r: (u32, u32))
    requires
        main < 256,
        sub < 256,
    ensures
        r.0 < 256,
        r.1 < 256,
        (r.0 << 8) | r.1 == ring_after((main << 8) | sub, 1),
{
    let main_bit: u32 = (main >> 7) & 1;
    let sub_bit: u32 = (sub >> 7) & 1;
    let m: u32 = ((main << 1) & 0xff) | sub_bit;
    let s: u32 = ((sub << 1) & 0xff) | main_bit;
    assert(m < 256 && s < 256 && (m << 8) | s == ((((main << 8) | sub) << 1) | (((main << 8) | sub)
        >> 15)) & 0xffff) by (bit_vector)
        requires
            main < 256,
            sub < 256,
            main_bit == (main >> 7) & 1,
            sub_bit == (sub >> 7) & 1,
            m == ((main << 1) & 0xff) | sub_bit,
            s == ((sub << 1) & 0xff) | main_bit,
    ;
    (m, s)
}

/// Clocks one byte across the link: the main sends `main_tx` while the
/// subordinate sends `sub_tx`. Returns what the main captured and what the
/// subordinate captured: after eight clocks the two bytes have changed
/// places.
pub fn exchange_byte(main_tx: u8, sub_tx: u8) -> (r: (u8, u8))
    ensures
        r.0 == sub_tx,
        r.1 == main_tx,
{
    let ghost ring0: u32 = ((main_tx as u32) << 8) | sub_tx as u32;
    let mut m: u32 = main_tx as u32;
    let mut s: u32 = sub_tx as u32;
    let mut k: u32 = 0;
    let ghost m0: u32 = m;
    let ghost s0: u32 = s;
    assert(ring0 < 0x10000 && ring0 >> 8 == m0 && ring0 & 0xff == s0) by (bit_vector)
        requires
            m0 < 256,
            s0 < 256,
            ring0 == (m0 << 8) | s0,
    ;
    assert(ring_after(ring0, 0) == ring0) by (bit_vector)
        requires
            ring0 < 0x10000,
    ;
    while k < 8
        invariant
            k <= 8,
            m < 256,
            s < 256,
            ring0 < 0x10000,
            (m << 8) | s == ring_after(ring0, k),
        decreases 8 - k,
    {
        let (m2, s2) = clock_once(m, s);
        assert(ring_after(ring_after(ring0, k), 1) == ring_after(ring0, (k + 1) as u32)) by (bit_vector)
            requires
                k < 8,
                ring0 < 0x10000,
        ;
        m = m2;
        s = s2;
        k = k + 1;
    }
    assert(ring_after(ring0, 8) >> 8 == ring0 & 0xff && ring_after(ring0, 8) & 0xff == ring0 >> 8)
        by (bit_vector)
        requires
            ring0 < 0x10000,
    ;
    assert(m == (m << 8 | s) >> 8 && s == (m << 8 | s) & 0xff) by (bit_vector)
        requires
            m < 256,
            s < 256,
    ;
    (m as u8, s as u8)
}

/// A main transfer with MISO wired back to MOSI: every bit the main sends it
/// also samples. Returns the captured bytes, one per byte sent.
pub fn transfer_loopback(tx: &Vec<u8>) -> (rx: Vec<u8>)
    ensures
        rx@ == tx@,
{
    let mut rx: Vec<u8> = Vec::new();
    let mut i: usize = 0;
    while i < tx.len()
        invariant
            i <= tx@.len(),
            rx@ == tx@.subrange(0, i as int),
        decreases tx@.len() - i,
    {
        // What the main drives on MOSI is what arrives on MISO.
        let sent = tx[i];
        let (captured, _) = exchange_byte(sent, sent);
        rx.push(captured);
        i = i + 1;
        assert(rx@ == tx@.subrange(0, i as int));
    }
    assert(rx@ == tx@);
    rx
}

/// The subordinate's side of the link: the byte it last received, and the
/// byte it holds ready to shift out when the main next clocks.
pub struct SpiSubordinate {
    pub last_received: u8,
    pub response: u8,
}

impl SpiSubordinate {
    /// A subordinate that has received nothing and answers with `response`.
    pub fn new(response: u8) -> (r: SpiSubordinate)
        ensures
            r.last_received == 0,
            r.response == response,
    {
        SpiSubordinate { last_received: 0, response }
    }

    /// One pass of the subordinate's loop: `incoming` is the byte the main
    /// drove since the last pass, if any. Returns the byte to act on. With
    /// no new byte the last one received is kept and acted on again; a
    /// missed byte is not reported.
    pub fn poll(&mut self, incoming: Option<u8>) -> (r: u8)
        ensures
            final(self).response == old(self).response,
            final(self).last_received == match incoming {
                Some(b) => b,
                None => old(self).last_received,
            },
            r == final(self).last_received,
    {
        if let Some(b) = incoming {
            self.last_received = b;
        }
        self.last_received
    }

    /// The subordinate replaces the byte it will shift out next.
    pub fn load_response(&mut self, b: u8)
        ensures
            final(self).response == b,
            final(self).last_received == old(self).last_received,
    {
        self.response = b;
    }
}

/// A main transfer to `sub`: each byte of `tx` is exchanged with the byte
/// the subordinate holds. Nothing reloads the subordinate's response during
/// the transfer, so every captured byte is that held byte, and the
/// subordinate ends holding the last byte sent.
pub fn transfer(tx: &Vec<u8>, sub: &mut SpiSubordinate) -> (rx: Vec<u8>)
    ensures
        rx@.len() == tx@.len(),
        forall|i: int| 0 <= i < rx@.len() ==> #[trigger] rx@[i] == old(sub).response,
        final(sub).response == old(sub).response,
        final(sub).last_received == if tx@.len() == 0 {
            old(sub).last_received
        } else {
            tx@.last()
        },
{
    let mut rx: Vec<u8> = Vec::new();
    let mut i: usize = 0;
    while i < tx.len()
        invariant
            i <= tx@.len(),
            rx@.len() == i,
            forall|j: int| 0 <= j < i ==> #[trigger] rx@[j] == old(sub).response,
            sub.response == old(sub).response,
            sub.last_received == if i == 0 {
                old(sub).last_received
            } else {
                tx@[i - 1]
            },
        decreases tx@.len() - i,
    {
        let (captured, received) = exchange_byte(tx[i], sub.response);
        sub.poll(Some(received));
        rx.push(captured);
        i = i + 1;
    }
    rx
}

} // verus!
