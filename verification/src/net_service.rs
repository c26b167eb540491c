//! Request handling of the network driver service: the IPC message word,
//! the interface description, and the status of a transmit request.
use crate::net_device::{interface_device_id, ErrnoClass, NetError, DRIVER_ID, INTERFACE_MTU};
use vstd::prelude::*;

verus! {

/// A message announced by the IPC wait: its length and its sender.
#[derive(Clone, Copy, Debug, PartialEq, Eq, Structural)]
pub struct IpcMessage {
    pub len: usize,
    pub sender: u64,
}

/// Splits the word returned by an IPC wait: the low half is the message
/// length, the high half the sender.
pub fn split_message(word: u64) -> (r: IpcMessage)
    ensures
        r.len == word & 0xffff_ffff,
        r.sender == word >> 32u64,
        word == r.sender * 0x1_0000_0000 + r.len,
{
    assert(word & 0xffff_ffff <= 0xffff_ffff && word == (word >> 32u64) * 0x1_0000_0000 + (word
        & 0xffff_ffff)) by (bit_vector);
    IpcMessage { len: (word & 0xffff_ffff) as usize, sender: word >> 32 }
}

/// The status that answers a transmit request: success, "try again" when
/// every transmit buffer is busy, an input/output error otherwise.
pub fn transmit_status(result: Result<(), NetError>) -> (r: Option<ErrnoClass>)
    ensures
        result is Ok ==> r is None,
        result == Err::<(), NetError>(NetError::QueueExhausted) ==> r == Some(ErrnoClass::TryAgain),
        result is Err && result != Err::<(), NetError>(NetError::QueueExhausted) ==> r == Some(
            ErrnoClass::Io,
        ),
{
    match result {
        Ok(()) => None,
        Err(NetError::QueueExhausted) => Some(ErrnoClass::TryAgain),
        Err(_) => Some(ErrnoClass::Io),
    }
}

/// The description of the network interface.
#[derive(Clone, Copy, Debug, PartialEq, Eq)]
pub struct InterfaceSummary {
    pub interface_id: u32,
    pub mac: [u8; 6],
    pub link_up: bool,
    pub mtu: u32,
    pub driver_id: u32,
    pub device_id: u32,
    pub driver_name: [u8; 12],
}

/// The driver name as reported: "virtio-net", zero padded.
pub open spec fn driver_name_bytes() -> Seq<u8> {
    seq![0x76u8, 0x69, 0x72, 0x74, 0x69, 0x6f, 0x2d, 0x6e, 0x65, 0x74, 0, 0]
}

/// Describes interface 1 with MAC `mac`, its link state, and the PCI
/// function it sits at.
pub fn interface_summary(mac: [u8; 6], link_up: bool, bus: u8, device: u8, function: u8) -> (r:
    InterfaceSummary)
    ensures
        r.interface_id == 1,
        r.mac == mac,
        r.link_up == link_up,
        r.mtu == INTERFACE_MTU,
        r.driver_id == DRIVER_ID,
        r.device_id == bus as int * 0x1_0000 + device as int * 0x100 + function as int,
        r.driver_name@ == driver_name_bytes(),
{
    let name: [u8; 12] = [0x76, 0x69, 0x72, 0x74, 0x69, 0x6f, 0x2d, 0x6e, 0x65, 0x74, 0, 0];
    assert(name@ =~= driver_name_bytes());
    InterfaceSummary {
        interface_id: 1,
        mac,
        link_up,
        mtu: INTERFACE_MTU,
        driver_id: DRIVER_ID,
        device_id: interface_device_id(bus, device, function),
        driver_name: name,
    }
}

} // verus!
