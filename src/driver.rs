//! The driver: shadow of the controller's display-control register and the
//! queue of bus steps that its operations emit.
use vstd::prelude::*;
use vstd::string::StringSliceAdditionalSpecFns;

use crate::bus::{
    command_ops, data_ops, data_stream_ops, nibble_ops, pulse_ops, send_ops, set_pin, BusOp,
    PinRole,
};
use crate::codec::{
    display_options, Instruction, AUTO_DISPLAY_SHIFT_OFF, AUTO_INCREMENT_CURSOR, BLINK_OFF, BLINK_ON, CLEAR_DISPLAY, CURSOR_OFF, CURSOR_ON,
    DISPLAY_CONTROL, DISPLAY_OFF, DISPLAY_ON, FIVE_BY_EIGHT, FOUR_BIT_INTERFACE, RETURN_HOME,
    SET_DDRAM, TWO_ROW,
};

verus! {

/// Why an operation was refused before it touched the bus.
#[derive(Clone, Copy, Debug, PartialEq, Eq, Structural)]
pub enum DriverError {
    GenericError,
}

/// The three display-control flags that the driver shadows.
#[derive(Clone, Copy, Debug, PartialEq, Eq, Structural)]
pub struct DisplayFlags {
    pub display: bool,
    pub cursor: bool,
    pub blink: bool,
}

impl DisplayFlags {
    pub open spec fn with_display(self, on: bool) -> DisplayFlags {
        DisplayFlags { display: on, ..self }
    }

    pub open spec fn with_cursor(self, on: bool) -> DisplayFlags {
        DisplayFlags { cursor: on, ..self }
    }

    pub open spec fn with_blink(self, on: bool) -> DisplayFlags {
        DisplayFlags { blink: on, ..self }
    }

    /// The display-control instruction that sets these flags.
    pub open spec fn instruction(self) -> Instruction {
        Instruction::DisplayControl { display: self.display, cursor: self.cursor, blink: self.blink }
    }
}

/// The flags held in a three-bit display-control field.
pub open spec fn flags_of(mode: u8) -> DisplayFlags {
    DisplayFlags { display: mode & 4 != 0, cursor: mode & 2 != 0, blink: mode & 1 != 0 }
}

/// What the driver holds, as seen by its contracts.
#[verifier::ext_equal]
pub ghost struct LcdState {
    /// Shadow of the display-control register.
    pub flags: DisplayFlags,
    /// Option bits of the function set, fixed at construction.
    pub function_set: u8,
    /// Option bits of the entry mode, fixed at construction.
    pub entry_mode: u8,
    /// Bus steps queued and not yet handed out.
    pub ops: Seq<BusOp>,
}

impl LcdState {
    /// The same state with `more` queued after what is already queued.
    pub open spec fn followed_by(self, more: Seq<BusOp>) -> LcdState {
        LcdState { ops: self.ops + more, ..self }
    }

    /// The state after a display-control instruction that sets `flags`.
    pub open spec fn with_flags(self, flags: DisplayFlags) -> LcdState {
        LcdState { flags, ..self.followed_by(command_ops(flags.instruction().encode_spec())) }
    }

    /// The state after `toggle_display(on)`.
    pub open spec fn toggled_display(self, on: bool) -> LcdState {
        self.with_flags(self.flags.with_display(on))
    }

    /// The state after `toggle_cursor(on)`.
    pub open spec fn toggled_cursor(self, on: bool) -> LcdState {
        self.with_flags(self.flags.with_cursor(on))
    }

    /// The state after `toggle_blink(on)`.
    pub open spec fn toggled_blink(self, on: bool) -> LcdState {
        self.with_flags(self.flags.with_blink(on))
    }
}

/// Function set of this design: 4-bit interface, two rows, 5x8 font.
pub open spec fn function_set_instruction() -> Instruction {
    Instruction::FunctionSet { eight_bit: false, two_rows: true, five_by_ten: false }
}

/// Entry mode of this design: increment the cursor, no display shift.
pub open spec fn entry_mode_instruction() -> Instruction {
    Instruction::EntryMode { increment: true, shift: false }
}

pub open spec fn all_on() -> DisplayFlags {
    DisplayFlags { display: true, cursor: true, blink: true }
}

pub open spec fn all_off() -> DisplayFlags {
    DisplayFlags { display: false, cursor: false, blink: false }
}

/// Wake-up of the controller: 500 ms settle, RS, E and RW low, three times
/// the 8-bit reset nibble each with 10 ms, then the nibble that selects 4-bit mode.
#[verifier::opaque]
pub open spec fn wake_up_ops() -> Seq<BusOp> {
    seq![
        BusOp::DelayMs(500),
        set_pin(PinRole::RegisterSelect, false),
        set_pin(PinRole::Enable, false),
        set_pin(PinRole::ReadWrite, false),
    ] + nibble_ops(3) + seq![BusOp::DelayMs(10)] + nibble_ops(3) + seq![BusOp::DelayMs(10)]
        + nibble_ops(3) + seq![BusOp::DelayMs(10)] + nibble_ops(2)
}

/// An instruction followed by a 10 ms wait.
#[verifier::opaque]
pub open spec fn command_wait_ops(i: Instruction) -> Seq<BusOp> {
    command_ops(i.encode_spec()) + seq![BusOp::DelayMs(10)]
}

/// The power-on bring-up of the controller in 4-bit mode: wake-up, function
/// set, everything off, clear, entry mode, everything on, return home.
pub open spec fn init_ops() -> Seq<BusOp> {
    wake_up_ops() + command_wait_ops(function_set_instruction()) + command_wait_ops(
        all_off().instruction(),
    ) + command_wait_ops(Instruction::ClearDisplay) + command_wait_ops(entry_mode_instruction())
        + command_wait_ops(all_on().instruction()) + return_home_ops()
}

/// Return home, with its extra 2 ms.
#[verifier::opaque]
pub open spec fn return_home_ops() -> Seq<BusOp> {
    command_ops(Instruction::ReturnHome.encode_spec()) + seq![BusOp::DelayMs(2)]
}

/// Driver for a TC1601A-02 (HD44780 controller) on a 4-bit bus.
///
/// The operations do not touch pins themselves: they append the bus steps
/// they call for to a queue that [`LcdDriverTC1601A2::take_ops`] hands out.
pub struct LcdDriverTC1601A2 {
    display_control_mode: u8,
    function_set: u8,
    entry_mode: u8,
    ops: Vec<BusOp>,
}

impl View for LcdDriverTC1601A2 {
    type V = LcdState;

    closed spec fn view(&self) -> LcdState {
        LcdState {
            flags: flags_of(self.display_control_mode),
            function_set: self.function_set,
            entry_mode: self.entry_mode,
            ops: self.ops@,
        }
    }
}

/// A three-bit field is the OR of the option bits of its flags.
proof fn lemma_mode_options(mode: u8)
    requires
        mode < 8,
    ensures
        mode == display_options(flags_of(mode).display, flags_of(mode).cursor, flags_of(mode).blink),
{
    assert(mode < 8 ==> mode == ((if mode & 4 != 0 { 4u8 } else { 0u8 }) | (if mode & 2 != 0 {
        2u8
    } else {
        0u8
    }) | (if mode & 1 != 0 { 1u8 } else { 0u8 }))) by (bit_vector);
}

impl LcdDriverTC1601A2 {
    /// The shadow field stays within its three bits.
    pub closed spec fn wf(&self) -> bool {
        self.display_control_mode < 8
    }

    /// A driver with display, cursor and blink on in its shadow, the fixed
    /// function set and entry mode, and nothing queued. No bus step is taken.
    pub fn new() -> (r: Self)
        ensures
            r.wf(),
            r@.flags == all_on(),
            r@.function_set == FOUR_BIT_INTERFACE | TWO_ROW | FIVE_BY_EIGHT,
            r@.function_set == 0x08,
            r@.entry_mode == AUTO_INCREMENT_CURSOR | AUTO_DISPLAY_SHIFT_OFF,
            r@.entry_mode == 0x02,
            r@.ops == Seq::<BusOp>::empty(),
    {
        let display_control_mode = DISPLAY_ON | CURSOR_ON | BLINK_ON;
        assert(DISPLAY_ON | CURSOR_ON | BLINK_ON == 7u8) by (bit_vector);
        assert(7u8 & 4 != 0 && 7u8 & 2 != 0 && 7u8 & 1 != 0) by (bit_vector);
        let function_set = FOUR_BIT_INTERFACE | TWO_ROW | FIVE_BY_EIGHT;
        assert(FOUR_BIT_INTERFACE | TWO_ROW | FIVE_BY_EIGHT == 0x08u8) by (bit_vector);
        let entry_mode = AUTO_INCREMENT_CURSOR | AUTO_DISPLAY_SHIFT_OFF;
        assert(AUTO_INCREMENT_CURSOR | AUTO_DISPLAY_SHIFT_OFF == 0x02u8) by (bit_vector);
        LcdDriverTC1601A2 { display_control_mode, function_set, entry_mode, ops: Vec::new() }
    }

    fn push_op(&mut self, op: BusOp)
        ensures
            final(self).display_control_mode == old(self).display_control_mode,
            final(self)@ == old(self)@.followed_by(seq![op]),
    {
        self.ops.push(op);
        assert(self@ =~= old(self)@.followed_by(seq![op]));
    }

    /// One strobe of the enable pin, with its setup, pulse and settle delays.
    fn enable_pulse(&mut self)
        ensures
            final(self).display_control_mode == old(self).display_control_mode,
            final(self)@ == old(self)@.followed_by(pulse_ops()),
    {
        self.push_op(BusOp::SetPin { pin: PinRole::Enable, high: false });
        self.push_op(BusOp::DelayUs(1));
        self.push_op(BusOp::SetPin { pin: PinRole::Enable, high: true });
        self.push_op(BusOp::DelayUs(40));
        self.push_op(BusOp::SetPin { pin: PinRole::Enable, high: false });
        self.push_op(BusOp::DelayMs(40));
        assert(self@ =~= old(self)@.followed_by(pulse_ops()));
    }

    /// Drives the four data pins from the low four bits of `value`, bit 0 on
    /// the first pin, then strobes.
    fn send4bits(&mut self, value: u8)
        ensures
            final(self).display_control_mode == old(self).display_control_mode,
            final(self)@ == old(self)@.followed_by(nibble_ops(value)),
    {
        self.push_op(BusOp::SetPin { pin: PinRole::Data4, high: value & 0x1 != 0 });
        self.push_op(BusOp::SetPin { pin: PinRole::Data5, high: value & 0x2 != 0 });
        self.push_op(BusOp::SetPin { pin: PinRole::Data6, high: value & 0x4 != 0 });
        self.push_op(BusOp::SetPin { pin: PinRole::Data7, high: value & 0x8 != 0 });
        self.enable_pulse();
        assert(self@ =~= old(self)@.followed_by(nibble_ops(value)));
    }

    /// Sets RS and RW once, then sends the high nibble and the low nibble.
    fn send(&mut self, value: u8, rs: bool, rw: bool)
        ensures
            final(self).display_control_mode == old(self).display_control_mode,
            final(self)@ == old(self)@.followed_by(send_ops(value, rs, rw)),
    {
        self.push_op(BusOp::SetPin { pin: PinRole::RegisterSelect, high: rs });
        self.push_op(BusOp::SetPin { pin: PinRole::ReadWrite, high: rw });
        self.send4bits(value >> 4);
        self.send4bits(value & 0xf);
        assert(self@ =~= old(self)@.followed_by(send_ops(value, rs, rw)));
    }

    /// Sends one data byte (RS high).
    pub fn write(&mut self, data: u8)
        requires
            old(self).wf(),
        ensures
            final(self).wf(),
            final(self)@ == old(self)@.followed_by(data_ops(data)),
    {
        self.send(data, true, false);
    }

    /// Sends one instruction byte (RS low).
    pub fn command(&mut self, command: u8)
        requires
            old(self).wf(),
        ensures
            final(self).wf(),
            final(self)@ == old(self)@.followed_by(command_ops(command)),
    {
        self.send(command, false, false);
    }
    /// Runs the controller's power-on sequence for 4-bit mode and sets the
    /// shadow to display, cursor and blink on.
    pub fn initialize(&mut self)
        requires
            old(self).wf(),
        ensures
            final(self).wf(),
            final(self)@ == (LcdState { flags: all_on(), ..old(self)@.followed_by(init_ops()) }),
    {
        self.wake_up();

        /* Four-bit interface, two rows, five by eight font */
        self.command_and_wait(
            Instruction::FunctionSet { eight_bit: false, two_rows: true, five_by_ten: false },
        );

        /* Display, cursor and blink off */
        self.command_and_wait(
            Instruction::DisplayControl { display: false, cursor: false, blink: false },
        );

        self.command_and_wait(Instruction::ClearDisplay);

        /* Increment the cursor, no display shift */
        self.command_and_wait(Instruction::EntryMode { increment: true, shift: false });

        self.command_and_wait(
            Instruction::DisplayControl { display: true, cursor: true, blink: true },
        );
        self.display_control_mode = DISPLAY_ON | CURSOR_ON | BLINK_ON;
        assert(DISPLAY_ON | CURSOR_ON | BLINK_ON == 7u8) by (bit_vector);
        assert(7u8 & 4 != 0 && 7u8 & 2 != 0 && 7u8 & 1 != 0) by (bit_vector);

        self.return_home();
        assert(final(self)@.ops =~= old(self)@.ops + init_ops());
        assert(final(self)@ =~= (LcdState { flags: all_on(), ..old(self)@.followed_by(init_ops()) }));
    }

    /// Wakes the controller and switches it to 4-bit mode.
    fn wake_up(&mut self)
        requires
            old(self).wf(),
        ensures
            final(self).wf(),
            final(self)@ == old(self)@.followed_by(wake_up_ops()),
    {
        /* Give the controller time to come out of its internal reset */
        self.push_op(BusOp::DelayMs(500));
        self.push_op(BusOp::SetPin { pin: PinRole::RegisterSelect, high: false });
        self.push_op(BusOp::SetPin { pin: PinRole::Enable, high: false });
        self.push_op(BusOp::SetPin { pin: PinRole::ReadWrite, high: false });

        /* Three times the 8-bit reset nibble, then switch to 4-bit mode */
        self.send4bits(0x3);
        self.push_op(BusOp::DelayMs(10));
        self.send4bits(0x3);
        self.push_op(BusOp::DelayMs(10));
        self.send4bits(0x3);
        self.push_op(BusOp::DelayMs(10));
        self.send4bits(0x2);
        reveal(wake_up_ops);
        assert(final(self)@ =~= old(self)@.followed_by(wake_up_ops()));
    }

    /// Sends an instruction, then waits 10 ms.
    fn command_and_wait(&mut self, instruction: Instruction)
        requires
            old(self).wf(),
            instruction.wf(),
        ensures
            final(self).wf(),
            final(self)@ == old(self)@.followed_by(command_wait_ops(instruction)),
    {
        let command = instruction.encode();
        self.command(command);
        self.push_op(BusOp::DelayMs(10));
        reveal(command_wait_ops);
        assert(final(self)@ =~= old(self)@.followed_by(command_wait_ops(instruction)));
    }

    /// Clears the display (Clear Display instruction only).
    pub fn reset_display(&mut self)
        requires
            old(self).wf(),
        ensures
            final(self).wf(),
            final(self)@ == old(self)@.followed_by(command_ops(Instruction::ClearDisplay.encode_spec())),
    {
        self.command(CLEAR_DISPLAY);
    }

    /// Moves the cursor home and waits the extra time that this takes.
    pub fn return_home(&mut self)
        requires
            old(self).wf(),
        ensures
            final(self).wf(),
            final(self)@ == old(self)@.followed_by(return_home_ops()),
    {
        self.command(RETURN_HOME);
        /* Return home takes longer than other instructions */
        self.push_op(BusOp::DelayMs(2));
        reveal(return_home_ops);
        assert(final(self)@ =~= old(self)@.followed_by(return_home_ops()));
    }

    /// Emits the display-control instruction for `options` (a three-bit
    /// field) and stores it as the shadow.
    fn set_display_control(&mut self, options: u8)
        requires
            old(self).wf(),
            options < 8,
        ensures
            final(self).wf(),
            final(self)@ == old(self)@.with_flags(flags_of(options)),
    {
        proof {
            lemma_mode_options(options);
        }
        let command = DISPLAY_CONTROL | options;
        self.command(command);
        self.display_control_mode = options;
    }

    /// Turns the display on or off; cursor and blink stay as they are.
    pub fn toggle_display(&mut self, on: bool)
        requires
            old(self).wf(),
        ensures
            final(self).wf(),
            final(self)@ == old(self)@.toggled_display(on),
    {
        let mode = self.display_control_mode;
        let options = if on {
            DISPLAY_ON | (mode & 0x3)
        } else {
            DISPLAY_OFF | (mode & 0x3)
        };
        assert(mode < 8 ==> {
            let o = if on { 4u8 | (mode & 3) } else { 0u8 | (mode & 3) };
            o < 8 && (o & 4 != 0 <==> on) && (o & 2 == mode & 2) && (o & 1 == mode & 1)
        }) by (bit_vector);
        self.set_display_control(options);
    }

    /// Turns the cursor on or off; display and blink stay as they are.
    pub fn toggle_cursor(&mut self, on: bool)
        requires
            old(self).wf(),
        ensures
            final(self).wf(),
            final(self)@ == old(self)@.toggled_cursor(on),
    {
        let mode = self.display_control_mode;
        let options = if on {
            CURSOR_ON | (mode & 0x5)
        } else {
            CURSOR_OFF | (mode & 0x5)
        };
        assert(mode < 8 ==> {
            let o = if on { 2u8 | (mode & 5) } else { 0u8 | (mode & 5) };
            o < 8 && (o & 2 != 0 <==> on) && (o & 4 == mode & 4) && (o & 1 == mode & 1)
        }) by (bit_vector);
        self.set_display_control(options);
    }

    /// Turns blinking on or off; display and cursor stay as they are.
    pub fn toggle_blink(&mut self, on: bool)
        requires
            old(self).wf(),
        ensures
            final(self).wf(),
            final(self)@ == old(self)@.toggled_blink(on),
    {
        let mode = self.display_control_mode;
        let options = if on {
            BLINK_ON | (mode & 0x6)
        } else {
            BLINK_OFF | (mode & 0x6)
        };
        assert(mode < 8 ==> {
            let o = if on { 1u8 | (mode & 6) } else { 0u8 | (mode & 6) };
            o < 8 && (o & 1 != 0 <==> on) && (o & 4 == mode & 4) && (o & 2 == mode & 2)
        }) by (bit_vector);
        self.set_display_control(options);
    }
    /// Writes ASCII text, one data write per byte in order. Text with a
    /// non-ASCII character or longer than 80 bytes is refused with nothing sent.
    pub fn write_ascii(&mut self, string: &str) -> (r: Result<(), DriverError>)
        requires
            old(self).wf(),
        ensures
            final(self).wf(),
            r.is_err() <==> !string.is_ascii() || string.spec_bytes().len() > 80,
            r.is_err() ==> r == Err::<(), DriverError>(DriverError::GenericError) && final(self)@
                == old(self)@,
            r.is_ok() ==> final(self)@ == old(self)@.followed_by(
                data_stream_ops(string.spec_bytes()),
            ),
    {
        if !string.is_ascii() {
            return Err(DriverError::GenericError);
        }
        let bytes = string.as_bytes();
        /* The controller wraps around after 80 characters */
        if bytes.len() > 80 {
            return Err(DriverError::GenericError);
        }
        self.write_bytes(bytes);
        Ok(())
    }

    /// One data write per byte, in order.
    fn write_bytes(&mut self, bytes: &[u8])
        requires
            old(self).wf(),
        ensures
            final(self).wf(),
            final(self)@ == old(self)@.followed_by(data_stream_ops(bytes@)),
    {
        let mut i: usize = 0;
        while i < bytes.len()
            invariant
                self.wf(),
                i <= bytes@.len(),
                self@ == old(self)@.followed_by(data_stream_ops(bytes@.subrange(0, i as int))),
            decreases bytes@.len() - i,
        {
            self.write(bytes[i]);
            proof {
                let done = bytes@.subrange(0, i + 1);
                assert(done.drop_last() =~= bytes@.subrange(0, i as int));
                assert(self@ =~= old(self)@.followed_by(data_stream_ops(done)));
            }
            i = i + 1;
        }
        assert(bytes@.subrange(0, bytes@.len() as int) =~= bytes@);
    }

    /// Shifts the whole display one place to the left.
    pub fn shift_display_left(&mut self)
        requires
            old(self).wf(),
        ensures
            final(self).wf(),
            final(self)@ == old(self)@.followed_by(
                command_ops(
                    (Instruction::CursorOrDisplayShift { display: true, right: false }).encode_spec(),
                ),
            ),
    {
        let command = Instruction::CursorOrDisplayShift { display: true, right: false }.encode();
        self.command(command);
    }

    /// Shifts the whole display one place to the right.
    pub fn shift_display_right(&mut self)
        requires
            old(self).wf(),
        ensures
            final(self).wf(),
            final(self)@ == old(self)@.followed_by(
                command_ops(
                    (Instruction::CursorOrDisplayShift { display: true, right: true }).encode_spec(),
                ),
            ),
    {
        let command = Instruction::CursorOrDisplayShift { display: true, right: true }.encode();
        self.command(command);
    }

    /// Moves the cursor to a display-data RAM address. An address above 0x80
    /// is refused with nothing sent.
    pub fn set_cursor_pos(&mut self, address: u8) -> (r: Result<(), DriverError>)
        requires
            old(self).wf(),
        ensures
            final(self).wf(),
            r.is_err() <==> address > 0x80,
            r.is_err() ==> r == Err::<(), DriverError>(DriverError::GenericError) && final(self)@
                == old(self)@,
            r.is_ok() ==> final(self)@ == old(self)@.followed_by(command_ops(SET_DDRAM | address)),
    {
        if address > 0x80 {
            return Err(DriverError::GenericError);
        }
        let command = SET_DDRAM | address;
        self.command(command);
        Ok(())
    }

    /// Programs custom character `cg_index` of the character generator: one
    /// Set-CGRAM-Address instruction for address `cg_index * 8`, then the
    /// eight rows top to bottom as data writes, which the controller stores
    /// at `cg_index * 8` up to `cg_index * 8 + 7` as it increments its
    /// address. An index of 8 or more is refused with nothing sent.
    pub fn set_cg_character(&mut self, cg_index: u8, pattern: &[u8; 8]) -> (r: Result<
        (),
        DriverError,
    >)
        requires
            old(self).wf(),
        ensures
            final(self).wf(),
            r.is_err() <==> cg_index >= 8,
            r.is_err() ==> r == Err::<(), DriverError>(DriverError::GenericError) && final(self)@
                == old(self)@,
            r.is_ok() ==> final(self)@ == old(self)@.followed_by(
                command_ops(
                    (Instruction::SetCgramAddress { address: (cg_index * 8) as u8 }).encode_spec(),
                ) + data_stream_ops(pattern@),
            ),
    {
        if cg_index >= 8 {
            return Err(DriverError::GenericError);
        }
        let address = cg_index * 8;
        let command = Instruction::SetCgramAddress { address }.encode();
        self.command(command);
        self.write_bytes(pattern.as_slice());
        assert(final(self)@ =~= old(self)@.followed_by(
            command_ops(
                (Instruction::SetCgramAddress { address: (cg_index * 8) as u8 }).encode_spec(),
            ) + data_stream_ops(pattern@),
        ));
        Ok(())
    }

    /// Hands out the queued bus steps in order and empties the queue.
    pub fn take_ops(&mut self) -> (r: Vec<BusOp>)
        requires
            old(self).wf(),
        ensures
            final(self).wf(),
            r@ == old(self)@.ops,
            final(self)@ == (LcdState { ops: Seq::empty(), ..old(self)@ }),
    {
        let mut r: Vec<BusOp> = Vec::new();
        std::mem::swap(&mut r, &mut self.ops);
        assert(final(self)@ =~= (LcdState { ops: Seq::empty(), ..old(self)@ }));
        r
    }

    /// The shadow of the display-control field: bit 2 display, bit 1
    /// cursor, bit 0 blink.
    pub fn display_control_mode(&self) -> (r: u8)
        requires
            self.wf(),
        ensures
            r == display_options(self@.flags.display, self@.flags.cursor, self@.flags.blink),
    {
        proof {
            lemma_mode_options(self.display_control_mode);
        }
        self.display_control_mode
    }

    /// The option bits of the fixed function set (4-bit bus, two rows, 5x8 font).
    pub fn function_set(&self) -> (r: u8)
        ensures
            r == self@.function_set,
    {
        self.function_set
    }

    /// The option bits of the fixed entry mode (increment, no display shift).
    pub fn entry_mode(&self) -> (r: u8)
        ensures
            r == self@.entry_mode,
    {
        self.entry_mode
    }

    /// The shadowed display, cursor and blink flags.
    pub fn display_flags(&self) -> (r: DisplayFlags)
        ensures
            r == self@.flags,
    {
        let mode = self.display_control_mode;
        DisplayFlags { display: mode & 4 != 0, cursor: mode & 2 != 0, blink: mode & 1 != 0 }
    }
}

/// Whatever the flags were, toggling display, cursor and blink once each,
/// in any order, leaves exactly the requested flags: no toggle disturbs the
/// flags of another.
pub proof fn lemma_toggles_set_exact_flags(s: LcdState, d: bool, c: bool, b: bool)
    ensures
        ({
            let want = DisplayFlags { display: d, cursor: c, blink: b };
            &&& s.toggled_display(d).toggled_cursor(c).toggled_blink(b).flags == want
            &&& s.toggled_display(d).toggled_blink(b).toggled_cursor(c).flags == want
            &&& s.toggled_cursor(c).toggled_display(d).toggled_blink(b).flags == want
            &&& s.toggled_cursor(c).toggled_blink(b).toggled_display(d).flags == want
            &&& s.toggled_blink(b).toggled_display(d).toggled_cursor(c).flags == want
            &&& s.toggled_blink(b).toggled_cursor(c).toggled_display(d).flags == want
        }),
{
}

/// Turning blink on a second time changes nothing in the shadow and sends
/// the same display-control instruction again.
pub proof fn lemma_toggle_blink_on_idempotent(s: LcdState)
    ensures
        ({
            let once = s.toggled_blink(true);
            let twice = once.toggled_blink(true);
            let sent = command_ops(s.flags.with_blink(true).instruction().encode_spec());
            &&& twice.flags == once.flags
            &&& once.ops == s.ops + sent
            &&& twice.ops == once.ops + sent
        }),
{
}

} // verus!
