//! The 4-bit bus: how one byte becomes pin transitions and delays.
use vstd::prelude::*;

verus! {

/// The role of each pin that the driver writes.
#[derive(Clone, Copy, Debug, PartialEq, Eq, Structural)]
pub enum PinRole {
    RegisterSelect,
    ReadWrite,
    Enable,
    Data4,
    Data5,
    Data6,
    Data7,
}

/// One step on the bus: drive a pin, or wait.
#[derive(Clone, Copy, Debug, PartialEq, Eq, Structural)]
pub enum BusOp {
    SetPin { pin: PinRole, high: bool },
    DelayMs(u32),
    DelayUs(u32),
}

pub open spec fn set_pin(pin: PinRole, high: bool) -> BusOp {
    BusOp::SetPin { pin, high }
}

/// Enable strobe: low, 1 us setup, high, 40 us pulse, low, 40 ms settle.
pub open spec fn pulse_ops() -> Seq<BusOp> {
    seq![
        set_pin(PinRole::Enable, false),
        BusOp::DelayUs(1),
        set_pin(PinRole::Enable, true),
        BusOp::DelayUs(40),
        set_pin(PinRole::Enable, false),
        BusOp::DelayMs(40),
    ]
}

/// Bit 0 of the nibble on D4 up to bit 3 on D7, then one strobe.
pub open spec fn nibble_ops(n: u8) -> Seq<BusOp> {
    seq![
        set_pin(PinRole::Data4, n & 1 != 0),
        set_pin(PinRole::Data5, n & 2 != 0),
        set_pin(PinRole::Data6, n & 4 != 0),
        set_pin(PinRole::Data7, n & 8 != 0),
    ] + pulse_ops()
}

/// RS and RW set once, then the high nibble, then the low nibble.
pub open spec fn send_ops(value: u8, rs: bool, rw: bool) -> Seq<BusOp> {
    seq![set_pin(PinRole::RegisterSelect, rs), set_pin(PinRole::ReadWrite, rw)] + nibble_ops(
        value >> 4,
    ) + nibble_ops(value & 0xf)
}

/// An instruction byte: RS low, RW low.
pub open spec fn command_ops(value: u8) -> Seq<BusOp> {
    send_ops(value, false, false)
}

/// A data byte: RS high, RW low.
pub open spec fn data_ops(value: u8) -> Seq<BusOp> {
    send_ops(value, true, false)
}

/// One data write per byte, in order.
pub open spec fn data_stream_ops(bytes: Seq<u8>) -> Seq<BusOp>
    decreases bytes.len(),
{
    if bytes.len() == 0 {
        seq![]
    } else {
        data_stream_ops(bytes.drop_last()) + data_ops(bytes.last())
    }
}

} // verus!
