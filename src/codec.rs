//! Instruction set of the HD44780 controller: opcodes, option bits, and the
//! encoding of an instruction into the single byte that the bus carries.
use vstd::prelude::*;

verus! {

pub const CLEAR_DISPLAY: u8 = 0x01;
pub const RETURN_HOME: u8 = 0x02;
pub const ENTRY_MODE: u8 = 0x04;
pub const DISPLAY_CONTROL: u8 = 0x08;
pub const CURSOR_OR_DISPLAY_SHIFT: u8 = 0x10;
pub const FUNCTION_SET: u8 = 0x20;
pub const SET_CGRAM: u8 = 0x40;
pub const SET_DDRAM: u8 = 0x80;

/* Entry mode options */
pub const AUTO_INCREMENT_CURSOR: u8 = 0x02;
pub const AUTO_DECREMENT_CURSOR: u8 = 0x00;
pub const AUTO_DISPLAY_SHIFT_ON: u8 = 0x01;
pub const AUTO_DISPLAY_SHIFT_OFF: u8 = 0x00;

/* Display control options */
pub const DISPLAY_ON: u8 = 0x04;
pub const DISPLAY_OFF: u8 = 0x00;
pub const CURSOR_ON: u8 = 0x02;
pub const CURSOR_OFF: u8 = 0x00;
pub const BLINK_ON: u8 = 0x01;
pub const BLINK_OFF: u8 = 0x00;

/* Cursor or display shift options */
pub const SHIFT_DISPLAY: u8 = 0x08;
pub const SHIFT_CURSOR: u8 = 0x00;
pub const SHIFT_RIGHT: u8 = 0x04;
pub const SHIFT_LEFT: u8 = 0x00;

/* Function set options */
pub const EIGHT_BIT_INTERFACE: u8 = 0x10;
pub const FOUR_BIT_INTERFACE: u8 = 0x00;
pub const TWO_ROW: u8 = 0x08;
pub const ONE_ROW: u8 = 0x00;
pub const FIVE_BY_TEN: u8 = 0x04;
pub const FIVE_BY_EIGHT: u8 = 0x00;

/// One controller instruction together with its options.
#[derive(Clone, Copy, Debug, PartialEq, Eq, Structural)]
pub enum Instruction {
    ClearDisplay,
    ReturnHome,
    EntryMode { increment: bool, shift: bool },
    DisplayControl { display: bool, cursor: bool, blink: bool },
    CursorOrDisplayShift { display: bool, right: bool },
    FunctionSet { eight_bit: bool, two_rows: bool, five_by_ten: bool },
    SetCgramAddress { address: u8 },
    SetDdramAddress { address: u8 },
}

/// `on` when the flag is set, else `off`.
pub open spec fn option_bits(flag: bool, on: u8, off: u8) -> u8 {
    if flag {
        on
    } else {
        off
    }
}

/// The options of display control as a three-bit field:
/// bit 2 display, bit 1 cursor, bit 0 blink.
pub open spec fn display_options(display: bool, cursor: bool, blink: bool) -> u8 {
    option_bits(display, DISPLAY_ON, DISPLAY_OFF) | option_bits(cursor, CURSOR_ON, CURSOR_OFF)
        | option_bits(blink, BLINK_ON, BLINK_OFF)
}

/// Whether a bit of `mask` is set in `b`.
pub open spec fn has_bit(b: u8, mask: u8) -> bool {
    b & mask != 0
}

impl Instruction {
    /// Addresses fit their fields: six bits of character-generator RAM,
    /// seven bits of display-data RAM.
    pub open spec fn wf(self) -> bool {
        match self {
            Instruction::SetCgramAddress { address } => address < 0x40,
            Instruction::SetDdramAddress { address } => address < 0x80,
            _ => true,
        }
    }

    /// The instruction byte: the opcode OR'd with its option bits.
    pub open spec fn encode_spec(self) -> u8 {
        match self {
            Instruction::ClearDisplay => CLEAR_DISPLAY,
            Instruction::ReturnHome => RETURN_HOME,
            Instruction::EntryMode { increment, shift } => ENTRY_MODE | option_bits(
                increment,
                AUTO_INCREMENT_CURSOR,
                AUTO_DECREMENT_CURSOR,
            ) | option_bits(shift, AUTO_DISPLAY_SHIFT_ON, AUTO_DISPLAY_SHIFT_OFF),
            Instruction::DisplayControl { display, cursor, blink } => DISPLAY_CONTROL
                | display_options(display, cursor, blink),
            Instruction::CursorOrDisplayShift { display, right } => CURSOR_OR_DISPLAY_SHIFT
                | option_bits(display, SHIFT_DISPLAY, SHIFT_CURSOR) | option_bits(
                right,
                SHIFT_RIGHT,
                SHIFT_LEFT,
            ),
            Instruction::FunctionSet { eight_bit, two_rows, five_by_ten } => FUNCTION_SET
                | option_bits(eight_bit, EIGHT_BIT_INTERFACE, FOUR_BIT_INTERFACE) | option_bits(
                two_rows,
                TWO_ROW,
                ONE_ROW,
            ) | option_bits(five_by_ten, FIVE_BY_TEN, FIVE_BY_EIGHT),
            Instruction::SetCgramAddress { address } => SET_CGRAM | address,
            Instruction::SetDdramAddress { address } => SET_DDRAM | address,
        }
    }

    /// The instruction a byte stands for, told apart by its highest set bit;
    /// bits below an instruction's options are ignored. Zero is no instruction.
    pub open spec fn decode_spec(b: u8) -> Option<Instruction> {
        if has_bit(b, SET_DDRAM) {
            Some(Instruction::SetDdramAddress { address: b & 0x7f })
        } else if has_bit(b, SET_CGRAM) {
            Some(Instruction::SetCgramAddress { address: b & 0x3f })
        } else if has_bit(b, FUNCTION_SET) {
            Some(
                Instruction::FunctionSet {
                    eight_bit: has_bit(b, EIGHT_BIT_INTERFACE),
                    two_rows: has_bit(b, TWO_ROW),
                    five_by_ten: has_bit(b, FIVE_BY_TEN),
                },
            )
        } else if has_bit(b, CURSOR_OR_DISPLAY_SHIFT) {
            Some(
                Instruction::CursorOrDisplayShift {
                    display: has_bit(b, SHIFT_DISPLAY),
                    right: has_bit(b, SHIFT_RIGHT),
                },
            )
        } else if has_bit(b, DISPLAY_CONTROL) {
            Some(
                Instruction::DisplayControl {
                    display: has_bit(b, DISPLAY_ON),
                    cursor: has_bit(b, CURSOR_ON),
                    blink: has_bit(b, BLINK_ON),
                },
            )
        } else if has_bit(b, ENTRY_MODE) {
            Some(
                Instruction::EntryMode {
                    increment: has_bit(b, AUTO_INCREMENT_CURSOR),
                    shift: has_bit(b, AUTO_DISPLAY_SHIFT_ON),
                },
            )
        } else if has_bit(b, RETURN_HOME) {
            Some(Instruction::ReturnHome)
        } else if has_bit(b, CLEAR_DISPLAY) {
            Some(Instruction::ClearDisplay)
        } else {
            None
        }
    }

    /// Encodes the instruction as the byte sent to the controller.
    pub fn encode(&self) -> (r: u8)
        requires
            self.wf(),
        ensures
            r == self.encode_spec(),
    {
        match *self {
            Instruction::ClearDisplay => CLEAR_DISPLAY,
            Instruction::ReturnHome => RETURN_HOME,
            Instruction::EntryMode { increment, shift } => {
                let i = if increment {
                    AUTO_INCREMENT_CURSOR
                } else {
                    AUTO_DECREMENT_CURSOR
                };
                let s = if shift {
                    AUTO_DISPLAY_SHIFT_ON
                } else {
                    AUTO_DISPLAY_SHIFT_OFF
                };
                ENTRY_MODE | i | s
            },
            Instruction::DisplayControl { display, cursor, blink } => {
                let d = if display {
                    DISPLAY_ON
                } else {
                    DISPLAY_OFF
                };
                let c = if cursor {
                    CURSOR_ON
                } else {
                    CURSOR_OFF
                };
                let b = if blink {
                    BLINK_ON
                } else {
                    BLINK_OFF
                };
                DISPLAY_CONTROL | (d | c | b)
            },
            Instruction::CursorOrDisplayShift { display, right } => {
                let d = if display {
                    SHIFT_DISPLAY
                } else {
                    SHIFT_CURSOR
                };
                let r = if right {
                    SHIFT_RIGHT
                } else {
                    SHIFT_LEFT
                };
                CURSOR_OR_DISPLAY_SHIFT | d | r
            },
            Instruction::FunctionSet { eight_bit, two_rows, five_by_ten } => {
                let e = if eight_bit {
                    EIGHT_BIT_INTERFACE
                } else {
                    FOUR_BIT_INTERFACE
                };
                let t = if two_rows {
                    TWO_ROW
                } else {
                    ONE_ROW
                };
                let f = if five_by_ten {
                    FIVE_BY_TEN
                } else {
                    FIVE_BY_EIGHT
                };
                FUNCTION_SET | e | t | f
            },
            Instruction::SetCgramAddress { address } => SET_CGRAM | address,
            Instruction::SetDdramAddress { address } => SET_DDRAM | address,
        }
    }

    /// The instruction that a byte encodes, `None` for zero. A byte that
    /// encodes an instruction decodes to that instruction.
    pub fn decode(b: u8) -> (r: Option<Instruction>)
        ensures
            r == Instruction::decode_spec(b),
            forall|i: Instruction| #[trigger] i.encode_spec() == b && i.wf() ==> r == Some(i),
    {
        proof {
            assert forall|i: Instruction| #[trigger] i.encode_spec() == b && i.wf() implies Instruction::decode_spec(
                b,
            ) == Some(i) by {
                lemma_encode_decode_round_trip(i);
            }
        }
        if b & SET_DDRAM != 0 {
            Some(Instruction::SetDdramAddress { address: b & 0x7f })
        } else if b & SET_CGRAM != 0 {
            Some(Instruction::SetCgramAddress { address: b & 0x3f })
        } else if b & FUNCTION_SET != 0 {
            Some(
                Instruction::FunctionSet {
                    eight_bit: b & EIGHT_BIT_INTERFACE != 0,
                    two_rows: b & TWO_ROW != 0,
                    five_by_ten: b & FIVE_BY_TEN != 0,
                },
            )
        } else if b & CURSOR_OR_DISPLAY_SHIFT != 0 {
            Some(
                Instruction::CursorOrDisplayShift {
                    display: b & SHIFT_DISPLAY != 0,
                    right: b & SHIFT_RIGHT != 0,
                },
            )
        } else if b & DISPLAY_CONTROL != 0 {
            Some(
                Instruction::DisplayControl {
                    display: b & DISPLAY_ON != 0,
                    cursor: b & CURSOR_ON != 0,
                    blink: b & BLINK_ON != 0,
                },
            )
        } else if b & ENTRY_MODE != 0 {
            Some(
                Instruction::EntryMode {
                    increment: b & AUTO_INCREMENT_CURSOR != 0,
                    shift: b & AUTO_DISPLAY_SHIFT_ON != 0,
                },
            )
        } else if b & RETURN_HOME != 0 {
            Some(Instruction::ReturnHome)
        } else if b & CLEAR_DISPLAY != 0 {
            Some(Instruction::ClearDisplay)
        } else {
            None
        }
    }
}

/// Decoding an encoded instruction gives back the same instruction with the
/// same options: the option bits of each instruction sit at fixed positions
/// below its opcode and never overlap.
pub proof fn lemma_encode_decode_round_trip(i: Instruction)
    requires
        i.wf(),
    ensures
        Instruction::decode_spec(i.encode_spec()) == Some(i),
{
    match i {
        Instruction::ClearDisplay => {
            assert(0x01u8 & 0x80 == 0 && 0x01u8 & 0x40 == 0 && 0x01u8 & 0x20 == 0 && 0x01u8 & 0x10
                == 0 && 0x01u8 & 0x08 == 0 && 0x01u8 & 0x04 == 0 && 0x01u8 & 0x02 == 0 && 0x01u8
                & 0x01 != 0) by (bit_vector);
        },
        Instruction::ReturnHome => {
            assert(0x02u8 & 0x80 == 0 && 0x02u8 & 0x40 == 0 && 0x02u8 & 0x20 == 0 && 0x02u8 & 0x10
                == 0 && 0x02u8 & 0x08 == 0 && 0x02u8 & 0x04 == 0 && 0x02u8 & 0x02 != 0)
                by (bit_vector);
        },
        Instruction::EntryMode { increment, shift } => {
            let a = option_bits(increment, AUTO_INCREMENT_CURSOR, AUTO_DECREMENT_CURSOR);
            let s = option_bits(shift, AUTO_DISPLAY_SHIFT_ON, AUTO_DISPLAY_SHIFT_OFF);
            assert((a == 2 || a == 0) && (s == 1 || s == 0));
            assert({
                let b = 0x04u8 | a | s;
                b & 0x80 == 0 && b & 0x40 == 0 && b & 0x20 == 0 && b & 0x10 == 0 && b & 0x08 == 0
                    && b & 0x04 != 0 && (b & 0x02 != 0 <==> a == 2) && (b & 0x01 != 0 <==> s == 1)
            }) by (bit_vector)
                requires
                    (a == 2 || a == 0) && (s == 1 || s == 0),
            ;
        },
        Instruction::DisplayControl { display, cursor, blink } => {
            let d = option_bits(display, DISPLAY_ON, DISPLAY_OFF);
            let c = option_bits(cursor, CURSOR_ON, CURSOR_OFF);
            let k = option_bits(blink, BLINK_ON, BLINK_OFF);
            assert((d == 4 || d == 0) && (c == 2 || c == 0) && (k == 1 || k == 0));
            assert({
                let b = 0x08u8 | (d | c | k);
                b & 0x80 == 0 && b & 0x40 == 0 && b & 0x20 == 0 && b & 0x10 == 0 && b & 0x08 != 0
                    && (b & 0x04 != 0 <==> d == 4) && (b & 0x02 != 0 <==> c == 2) && (b & 0x01
                    != 0 <==> k == 1)
            }) by (bit_vector)
                requires
                    (d == 4 || d == 0) && (c == 2 || c == 0) && (k == 1 || k == 0),
            ;
        },
        Instruction::CursorOrDisplayShift { display, right } => {
            let d = option_bits(display, SHIFT_DISPLAY, SHIFT_CURSOR);
            let r = option_bits(right, SHIFT_RIGHT, SHIFT_LEFT);
            assert((d == 8 || d == 0) && (r == 4 || r == 0));
            assert({
                let b = 0x10u8 | d | r;
                b & 0x80 == 0 && b & 0x40 == 0 && b & 0x20 == 0 && b & 0x10 != 0 && (b & 0x08 != 0
                    <==> d == 8) && (b & 0x04 != 0 <==> r == 4)
            }) by (bit_vector)
                requires
                    (d == 8 || d == 0) && (r == 4 || r == 0),
            ;
        },
        Instruction::FunctionSet { eight_bit, two_rows, five_by_ten } => {
            let e = option_bits(eight_bit, EIGHT_BIT_INTERFACE, FOUR_BIT_INTERFACE);
            let t = option_bits(two_rows, TWO_ROW, ONE_ROW);
            let f = option_bits(five_by_ten, FIVE_BY_TEN, FIVE_BY_EIGHT);
            assert((e == 0x10 || e == 0) && (t == 8 || t == 0) && (f == 4 || f == 0));
            assert({
                let b = 0x20u8 | e | t | f;
                b & 0x80 == 0 && b & 0x40 == 0 && b & 0x20 != 0 && (b & 0x10 != 0 <==> e == 0x10)
                    && (b & 0x08 != 0 <==> t == 8) && (b & 0x04 != 0 <==> f == 4)
            }) by (bit_vector)
                requires
                    (e == 0x10 || e == 0) && (t == 8 || t == 0) && (f == 4 || f == 0),
            ;
        },
        Instruction::SetCgramAddress { address } => {
            assert({
                let b = 0x40u8 | address;
                b & 0x80 == 0 && b & 0x40 != 0 && b & 0x3f == address
            }) by (bit_vector)
                requires
                    address < 0x40,
            ;
        },
        Instruction::SetDdramAddress { address } => {
            assert({
                let b = 0x80u8 | address;
                b & 0x80 != 0 && b & 0x7f == address
            }) by (bit_vector)
                requires
                    address < 0x80,
            ;
        },
    }
}

} // verus!
