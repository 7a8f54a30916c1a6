use hd44780_lcd::bus::{BusOp, PinRole};
use hd44780_lcd::codec::Instruction;
use hd44780_lcd::driver::{DisplayFlags, DriverError, LcdDriverTC1601A2};

fn pin(pin: PinRole, high: bool) -> BusOp {
    BusOp::SetPin { pin, high }
}

fn nibble(n: u8) -> Vec<BusOp> {
    vec![
        pin(PinRole::Data4, n & 1 != 0),
        pin(PinRole::Data5, n & 2 != 0),
        pin(PinRole::Data6, n & 4 != 0),
        pin(PinRole::Data7, n & 8 != 0),
        pin(PinRole::Enable, false),
        BusOp::DelayUs(1),
        pin(PinRole::Enable, true),
        BusOp::DelayUs(40),
        pin(PinRole::Enable, false),
        BusOp::DelayMs(40),
    ]
}

fn send(value: u8, rs: bool) -> Vec<BusOp> {
    let mut v = vec![pin(PinRole::RegisterSelect, rs), pin(PinRole::ReadWrite, false)];
    v.extend(nibble(value >> 4));
    v.extend(nibble(value & 0xf));
    v
}

fn command(value: u8) -> Vec<BusOp> {
    send(value, false)
}

fn data(value: u8) -> Vec<BusOp> {
    send(value, true)
}

fn initialized() -> LcdDriverTC1601A2 {
    let mut lcd = LcdDriverTC1601A2::new();
    lcd.initialize();
    lcd.take_ops();
    lcd
}

fn expected_init() -> Vec<BusOp> {
    let mut v = vec![
        BusOp::DelayMs(500),
        pin(PinRole::RegisterSelect, false),
        pin(PinRole::Enable, false),
        pin(PinRole::ReadWrite, false),
    ];
    for _ in 0..3 {
        v.extend(nibble(0x3));
        v.push(BusOp::DelayMs(10));
    }
    v.extend(nibble(0x2));
    for byte in [0x28u8, 0x08, 0x01, 0x06, 0x0f] {
        v.extend(command(byte));
        v.push(BusOp::DelayMs(10));
    }
    v.extend(command(0x02));
    v.push(BusOp::DelayMs(2));
    v
}

#[test]
fn new_queues_nothing_and_shadows_all_on() {
    let mut lcd = LcdDriverTC1601A2::new();
    assert_eq!(lcd.display_control_mode(), 0x7);
    assert_eq!(
        lcd.display_flags(),
        DisplayFlags { display: true, cursor: true, blink: true }
    );
    assert_eq!(lcd.function_set(), 0x08);
    assert_eq!(lcd.entry_mode(), 0x02);
    assert!(lcd.take_ops().is_empty());
}

#[test]
fn initialize_then_write_hi() {
    let mut lcd = LcdDriverTC1601A2::new();
    lcd.initialize();
    assert_eq!(lcd.write_ascii("Hi"), Ok(()));
    let mut expected = expected_init();
    expected.extend(data(0x48));
    expected.extend(data(0x69));
    assert_eq!(lcd.take_ops(), expected);
    assert_eq!(lcd.display_control_mode(), 0x7);
}

#[test]
fn take_ops_empties_the_queue() {
    let mut lcd = LcdDriverTC1601A2::new();
    lcd.reset_display();
    assert_eq!(lcd.take_ops(), command(0x01));
    assert!(lcd.take_ops().is_empty());
}

#[test]
fn toggles_in_every_order_give_requested_flags() {
    let starts: [(bool, bool, bool); 3] = [(true, true, true), (false, false, false), (true, false, true)];
    for &(sd, sc, sb) in starts.iter() {
        for order in 0..6u8 {
            for want in 0..8u8 {
                let (d, c, b) = (want & 4 != 0, want & 2 != 0, want & 1 != 0);
                let mut lcd = initialized();
                lcd.toggle_display(sd);
                lcd.toggle_cursor(sc);
                lcd.toggle_blink(sb);
                let steps: [u8; 3] = match order {
                    0 => [0, 1, 2],
                    1 => [0, 2, 1],
                    2 => [1, 0, 2],
                    3 => [1, 2, 0],
                    4 => [2, 0, 1],
                    _ => [2, 1, 0],
                };
                for s in steps {
                    match s {
                        0 => lcd.toggle_display(d),
                        1 => lcd.toggle_cursor(c),
                        _ => lcd.toggle_blink(b),
                    }
                }
                assert_eq!(lcd.display_flags(), DisplayFlags { display: d, cursor: c, blink: b });
                assert_eq!(lcd.display_control_mode(), want);
            }
        }
    }
}

#[test]
fn toggle_emits_display_control_with_other_bits_kept() {
    let mut lcd = initialized();
    lcd.toggle_display(false);
    assert_eq!(lcd.take_ops(), command(0x0b));
    lcd.toggle_cursor(false);
    assert_eq!(lcd.take_ops(), command(0x09));
    lcd.toggle_blink(false);
    assert_eq!(lcd.take_ops(), command(0x08));
    lcd.toggle_cursor(true);
    assert_eq!(lcd.take_ops(), command(0x0a));
    assert_eq!(lcd.display_control_mode(), 0x2);
}

#[test]
fn toggle_blink_on_twice_is_idempotent() {
    let mut lcd = initialized();
    lcd.toggle_blink(false);
    lcd.take_ops();
    lcd.toggle_blink(true);
    let first = lcd.take_ops();
    let mode = lcd.display_control_mode();
    lcd.toggle_blink(true);
    let second = lcd.take_ops();
    assert_eq!(first, second);
    assert_eq!(first, command(0x0f));
    assert_eq!(lcd.display_control_mode(), mode);
}

#[test]
fn write_ascii_rejects_81_bytes() {
    let mut lcd = initialized();
    let text = "a".repeat(81);
    assert_eq!(lcd.write_ascii(&text), Err(DriverError::GenericError));
    assert!(lcd.take_ops().is_empty());
}

#[test]
fn write_ascii_rejects_non_ascii() {
    let mut lcd = initialized();
    assert_eq!(lcd.write_ascii("caf\u{e9}"), Err(DriverError::GenericError));
    assert!(lcd.take_ops().is_empty());
}

#[test]
fn write_ascii_accepts_80_bytes() {
    let mut lcd = initialized();
    let text = "z".repeat(80);
    assert_eq!(lcd.write_ascii(&text), Ok(()));
    let mut expected = Vec::new();
    for _ in 0..80 {
        expected.extend(data(b'z'));
    }
    assert_eq!(lcd.take_ops(), expected);
}

#[test]
fn write_ascii_empty_sends_nothing() {
    let mut lcd = initialized();
    assert_eq!(lcd.write_ascii(""), Ok(()));
    assert!(lcd.take_ops().is_empty());
}

#[test]
fn set_cg_character_rejects_index_8() {
    let mut lcd = initialized();
    assert_eq!(lcd.set_cg_character(8, &[0x1f; 8]), Err(DriverError::GenericError));
    assert!(lcd.take_ops().is_empty());
}

#[test]
fn set_cg_character_sends_address_then_rows() {
    let pattern: [u8; 8] = [0x00, 0x0a, 0x1f, 0x1f, 0x0e, 0x04, 0x00, 0x11];
    for index in 0..8u8 {
        let mut lcd = initialized();
        assert_eq!(lcd.set_cg_character(index, &pattern), Ok(()));
        let mut expected = command(0x40 | (index * 8));
        for row in pattern {
            expected.extend(data(row));
        }
        assert_eq!(lcd.take_ops(), expected);
    }
}

#[test]
fn set_cursor_pos_bounds() {
    let mut lcd = initialized();
    assert_eq!(lcd.set_cursor_pos(0x81), Err(DriverError::GenericError));
    assert!(lcd.take_ops().is_empty());
    assert_eq!(lcd.set_cursor_pos(0x80), Ok(()));
    assert_eq!(lcd.take_ops(), command(0x80));
    assert_eq!(lcd.set_cursor_pos(0x00), Ok(()));
    assert_eq!(lcd.take_ops(), command(0x80));
    assert_eq!(lcd.set_cursor_pos(0x45), Ok(()));
    assert_eq!(lcd.take_ops(), command(0xc5));
}

#[test]
fn shifts_home_and_clear() {
    let mut lcd = initialized();
    lcd.shift_display_left();
    assert_eq!(lcd.take_ops(), command(0x18));
    lcd.shift_display_right();
    assert_eq!(lcd.take_ops(), command(0x1c));
    lcd.reset_display();
    assert_eq!(lcd.take_ops(), command(0x01));
    lcd.return_home();
    let mut expected = command(0x02);
    expected.push(BusOp::DelayMs(2));
    assert_eq!(lcd.take_ops(), expected);
}

#[test]
fn raw_write_and_command() {
    let mut lcd = initialized();
    lcd.write(0xa5);
    assert_eq!(lcd.take_ops(), data(0xa5));
    lcd.command(0x5a);
    assert_eq!(lcd.take_ops(), command(0x5a));
}

#[test]
fn encode_table() {
    assert_eq!(Instruction::ClearDisplay.encode(), 0x01);
    assert_eq!(Instruction::ReturnHome.encode(), 0x02);
    assert_eq!(Instruction::EntryMode { increment: true, shift: false }.encode(), 0x06);
    assert_eq!(Instruction::EntryMode { increment: false, shift: true }.encode(), 0x05);
    assert_eq!(
        Instruction::DisplayControl { display: true, cursor: false, blink: true }.encode(),
        0x0d
    );
    assert_eq!(Instruction::CursorOrDisplayShift { display: false, right: true }.encode(), 0x14);
    assert_eq!(
        Instruction::FunctionSet { eight_bit: false, two_rows: true, five_by_ten: false }.encode(),
        0x28
    );
    assert_eq!(
        Instruction::FunctionSet { eight_bit: true, two_rows: false, five_by_ten: true }.encode(),
        0x34
    );
    assert_eq!(Instruction::SetCgramAddress { address: 0x3f }.encode(), 0x7f);
    assert_eq!(Instruction::SetDdramAddress { address: 0x40 }.encode(), 0xc0);
}

#[test]
fn decode_recovers_every_option_set() {
    let mut all = vec![Instruction::ClearDisplay, Instruction::ReturnHome];
    for bits in 0..8u8 {
        let (x, y, z) = (bits & 4 != 0, bits & 2 != 0, bits & 1 != 0);
        all.push(Instruction::EntryMode { increment: x, shift: y });
        all.push(Instruction::DisplayControl { display: x, cursor: y, blink: z });
        all.push(Instruction::CursorOrDisplayShift { display: x, right: y });
        all.push(Instruction::FunctionSet { eight_bit: x, two_rows: y, five_by_ten: z });
    }
    for address in 0..0x40u8 {
        all.push(Instruction::SetCgramAddress { address });
    }
    for address in 0..0x80u8 {
        all.push(Instruction::SetDdramAddress { address });
    }
    for i in all {
        assert_eq!(Instruction::decode(i.encode()), Some(i));
    }
    assert_eq!(Instruction::decode(0x00), None);
    assert_eq!(Instruction::decode(0x0d), Some(Instruction::DisplayControl { display: true, cursor: false, blink: true }));
}
