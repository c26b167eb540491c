//! PS/2 mouse packets: framing of the three-byte packets in the byte stream
//! of the auxiliary port, and their decoding into motion and buttons.
use vstd::prelude::*;

verus! {

/// Bit of the first packet byte that is always set; it keeps the framing in
/// step with the stream.
pub const PACKET_SYNC: u8 = 0x08;
/// Bits of the first packet byte that hold the three button states.
pub const PACKET_BUTTONS: u8 = 0x07;
/// Sign bit of the horizontal motion.
pub const PACKET_X_SIGN: u8 = 0x10;
/// Sign bit of the vertical motion.
pub const PACKET_Y_SIGN: u8 = 0x20;
/// Overflow bits of the two motions.
pub const PACKET_OVERFLOW: u8 = 0xc0;
/// Length of a standard PS/2 mouse packet.
pub const PACKET_LEN: usize = 3;

/// Collects the bytes of one mouse packet.  Bytes that cannot start a
/// packet are dropped, so a packet never starts without its sync bit.
pub struct PacketAssembler {
    bytes: [u8; 3],
    len: usize,
}

impl PacketAssembler {
    /// The bytes of the packet collected so far.
    pub closed spec fn pending(&self) -> Seq<u8> {
        self.bytes@.take(self.len as int)
    }

    /// Fewer than a whole packet is pending, and a pending packet starts
    /// with its sync bit.
    pub closed spec fn wf(&self) -> bool {
        &&& self.len < 3
        &&& self.len > 0 ==> self.bytes@[0] & PACKET_SYNC != 0
    }

    pub fn new() -> (r: Self)
        ensures
            r.wf(),
            r.pending() == Seq::<u8>::empty(),
    {
        PacketAssembler { bytes: [0u8; 3], len: 0 }
    }

    /// The bytes pending after `byte` arrives while `pending` are: a byte
    /// without sync bit cannot start a packet and is dropped, the third byte
    /// completes the packet, any other byte is kept.
    pub open spec fn after_byte(pending: Seq<u8>, byte: u8) -> Seq<u8> {
        if pending.len() == 0 && byte & PACKET_SYNC == 0 {
            pending
        } else if pending.len() == 2 {
            Seq::empty()
        } else {
            pending.push(byte)
        }
    }

    /// Adds a byte of the stream; returns the packet that it completes.
    pub fn push(&mut self, byte: u8) -> (r: Option<[u8; 3]>)
        requires
            old(self).wf(),
        ensures
            final(self).wf(),
            final(self).pending() == Self::after_byte(old(self).pending(), byte),
            r is Some <==> old(self).pending().len() == 2,
            r matches Some(p) ==> p@[0] & PACKET_SYNC != 0,
            old(self).pending().len() == 0 && byte & PACKET_SYNC == 0 ==> r is None && final(self).pending() == old(self).pending(),
            !(old(self).pending().len() == 0 && byte & PACKET_SYNC == 0) ==> if old(self).pending().len() == 2 {
                r matches Some(p) && p@ == old(self).pending().push(byte) && final(self).pending() == Seq::<u8>::empty()
            } else {
                r is None && final(self).pending() == old(self).pending().push(byte)
            },
    {
        if self.len == 0 && byte & PACKET_SYNC == 0 {
            return None;
        }
        let ghost before = self.pending();
        self.bytes[self.len] = byte;
        self.len = self.len + 1;
        assert(self.bytes@.take(self.len as int) =~= before.push(byte));
        if self.len < 3 {
            return None;
        }
        self.len = 0;
        assert(self.pending() =~= Seq::<u8>::empty());
        Some(self.bytes)
    }
}

/// The signed value of a 9-bit two's complement motion: `delta` with the
/// sign bit `sign` in front of it.
pub open spec fn motion(delta: u8, sign: bool) -> int {
    if sign { delta - 256 } else { delta as int }
}

/// Widens a motion byte and its separate sign bit to a signed value.
pub fn sign_extend(delta: u8, sign: bool) -> (r: i16)
    ensures
        r == motion(delta, sign),
        -256 <= r <= 255,
{
    if sign {
        (delta as i16) - 256
    } else {
        delta as i16
    }
}

/// A decoded mouse packet: button bits, horizontal motion to the right and
/// vertical motion downwards (screen orientation).
#[derive(Clone, Copy, Debug, PartialEq, Eq, Structural)]
pub struct MouseReport {
    pub buttons: u8,
    pub dx: i16,
    pub dy: i16,
}

/// The report a packet carries; none when a motion overflowed.
pub open spec fn packet_report(b0: u8, b1: u8, b2: u8) -> Option<MouseReport> {
    if b0 & PACKET_OVERFLOW != 0 {
        None
    } else {
        Some(
            MouseReport {
                buttons: b0 & PACKET_BUTTONS,
                dx: motion(b1, b0 & PACKET_X_SIGN != 0) as i16,
                dy: (-motion(b2, b0 & PACKET_Y_SIGN != 0)) as i16,
            },
        )
    }
}

/// A packet reports nothing when either overflow bit (6 or 7 of the first
/// byte) is set.  Otherwise the buttons are the three low bits of the first
/// byte; the horizontal motion is the second byte, less 256 when the X sign
/// bit (bit 4) is set; the vertical motion is the negated third byte, which
/// is less 256 when the Y sign bit (bit 5) is set.  So a byte of zero with
/// its sign bit clear means no motion on that axis, and each axis takes its
/// sign from its own bit.
pub proof fn lemma_packet_fields(b0: u8, b1: u8, b2: u8)
    ensures
        packet_report(b0, b1, b2) is None <==> b0 & 0xc0 != 0,
        packet_report(b0, b1, b2) matches Some(m) ==> {
            &&& m.buttons == b0 & 0x07
            &&& m.buttons < 8
            &&& m.dx == (if b0 & 0x10 != 0 { b1 - 256 } else { b1 as int })
            &&& m.dy == -(if b0 & 0x20 != 0 { b2 - 256 } else { b2 as int })
            &&& (b1 == 0 && b0 & 0x10 == 0 ==> m.dx == 0)
            &&& (b2 == 0 && b0 & 0x20 == 0 ==> m.dy == 0)
        },
{
    assert(b0 & 0x07 < 8) by (bit_vector);
}

/// Decodes a complete packet.  The device counts upwards motion as
/// positive, the report counts downwards.
pub fn decode_packet(packet: [u8; 3]) -> (r: Option<MouseReport>)
    ensures
        r == packet_report(packet@[0], packet@[1], packet@[2]),
        r matches Some(m) ==> -255 <= m.dy <= 256 && -256 <= m.dx <= 255,
{
    let b0 = packet[0];
    let b1 = packet[1];
    let b2 = packet[2];
    if b0 & PACKET_OVERFLOW != 0 {
        return None;
    }
    let buttons = b0 & PACKET_BUTTONS;
    let dx = sign_extend(b1, b0 & PACKET_X_SIGN != 0);
    let dy = -sign_extend(b2, b0 & PACKET_Y_SIGN != 0);
    Some(MouseReport { buttons, dx, dy })
}

/// A nonzero motion of the mouse.
#[derive(Clone, Copy, Debug, PartialEq, Eq, Structural)]
pub struct Motion {
    pub dx: i16,
    pub dy: i16,
}

/// The button bits before and after a packet that changed them.
#[derive(Clone, Copy, Debug, PartialEq, Eq, Structural)]
pub struct ButtonChange {
    pub from: u8,
    pub to: u8,
}

/// What one byte of the mouse stream changed.
#[derive(Clone, Copy, Debug, PartialEq, Eq, Structural)]
pub struct MouseUpdate {
    /// Motion of a completed packet, when it moved.
    pub moved: Option<Motion>,
    /// Previous and new button bits, when they changed.
    pub buttons: Option<ButtonChange>,
}

/// Follows the mouse byte stream and reports motion and button changes.
pub struct MouseTracker {
    pub assembler: PacketAssembler,
    pub last_buttons: u8,
}

impl MouseTracker {
    pub open spec fn wf(&self) -> bool {
        self.assembler.wf()
    }

    pub fn new() -> (r: Self)
        ensures
            r.wf(),
            r.last_buttons == 0,
            r.assembler.pending() == Seq::<u8>::empty(),
    {
        MouseTracker { assembler: PacketAssembler::new(), last_buttons: 0 }
    }

    /// Takes one byte from the mouse.  A completed packet without overflow
    /// reports its motion when nonzero and its buttons when they differ from
    /// those of the last such packet.
    pub fn feed(&mut self, byte: u8) -> (r: MouseUpdate)
        requires
            old(self).wf(),
        ensures
            final(self).wf(),
            final(self).assembler.pending() == PacketAssembler::after_byte(
                old(self).assembler.pending(),
                byte,
            ),
            final(self).assembler.pending().len() == 0 || r == (MouseUpdate {
                moved: None,
                buttons: None,
            }),
            match Self::completed(old(self).assembler.pending(), byte) {
                Some(p) => match packet_report(p[0], p[1], p[2]) {
                    Some(m) => {
                        &&& r.moved == (if m.dx != 0 || m.dy != 0 {
                            Some(Motion { dx: m.dx, dy: m.dy })
                        } else {
                            None
                        })
                        &&& r.buttons == (if m.buttons != old(self).last_buttons {
                            Some(ButtonChange { from: old(self).last_buttons, to: m.buttons })
                        } else {
                            None
                        })
                        &&& final(self).last_buttons == m.buttons
                    },
                    None => r == (MouseUpdate { moved: None, buttons: None })
                        && final(self).last_buttons == old(self).last_buttons,
                },
                None => r == (MouseUpdate { moved: None, buttons: None })
                    && final(self).last_buttons == old(self).last_buttons,
            },
    {
        let none = MouseUpdate { moved: None, buttons: None };
        let packet = match self.assembler.push(byte) {
            Some(p) => p,
            None => return none,
        };
        let report = match decode_packet(packet) {
            Some(m) => m,
            None => return none,
        };
        let moved = if report.dx != 0 || report.dy != 0 {
            Some(Motion { dx: report.dx, dy: report.dy })
        } else {
            None
        };
        let buttons = if report.buttons != self.last_buttons {
            let change = ButtonChange { from: self.last_buttons, to: report.buttons };
            self.last_buttons = report.buttons;
            Some(change)
        } else {
            None
        };
        MouseUpdate { moved, buttons }
    }

    /// The packet that `byte` completes after `pending`, if any.
    pub open spec fn completed(pending: Seq<u8>, byte: u8) -> Option<Seq<u8>> {
        if pending.len() == 2 {
            Some(pending.push(byte))
        } else {
            None
        }
    }
}

/// The framing of a stream of mouse bytes: the packets it completes, in
/// order, and the bytes still pending after it.
pub open spec fn frame_stream(stream: Seq<u8>) -> (Seq<Seq<u8>>, Seq<u8>)
    decreases stream.len(),
{
    if stream.len() == 0 {
        (Seq::empty(), Seq::empty())
    } else {
        let (packets, pending) = frame_stream(stream.drop_last());
        let byte = stream.last();
        let packets = if pending.len() == 2 {
            packets.push(pending.push(byte))
        } else {
            packets
        };
        (packets, PacketAssembler::after_byte(pending, byte))
    }
}

/// Feeding one more byte to the framing of a stream: it completes a packet
/// exactly when two bytes were pending, and then that packet is the two
/// pending bytes and this one.
pub proof fn lemma_frame_stream_step(stream: Seq<u8>, byte: u8)
    ensures
        frame_stream(stream.push(byte)).1 == PacketAssembler::after_byte(
            frame_stream(stream).1,
            byte,
        ),
        frame_stream(stream.push(byte)).0 == if frame_stream(stream).1.len() == 2 {
            frame_stream(stream).0.push(frame_stream(stream).1.push(byte))
        } else {
            frame_stream(stream).0
        },
{
    assert(stream.push(byte).drop_last() =~= stream);
}

/// Every packet framed from a mouse byte stream has three bytes and starts
/// with its sync bit; fewer than three bytes stay pending, and pending bytes
/// start with the sync bit.
pub proof fn lemma_framed_packets_are_in_sync(stream: Seq<u8>)
    ensures
        forall|i: int|
            0 <= i < frame_stream(stream).0.len() ==> (#[trigger] frame_stream(stream).0[i]).len()
                == 3 && frame_stream(stream).0[i][0] & PACKET_SYNC != 0,
        frame_stream(stream).1.len() < 3,
        frame_stream(stream).1.len() > 0 ==> frame_stream(stream).1[0] & PACKET_SYNC != 0,
    decreases stream.len(),
{
    if stream.len() > 0 {
        lemma_framed_packets_are_in_sync(stream.drop_last());
        let (packets, pending) = frame_stream(stream.drop_last());
        let byte = stream.last();
        let (packets2, pending2) = frame_stream(stream);
        if pending.len() == 2 {
            assert(packets2 == packets.push(pending.push(byte)));
            assert forall|i: int| 0 <= i < packets2.len() implies (#[trigger] packets2[i]).len()
                == 3 && packets2[i][0] & PACKET_SYNC != 0 by {
                if i < packets.len() {
                    assert(packets2[i] == packets[i]);
                }
            }
        }
    }
}

} // verus!
