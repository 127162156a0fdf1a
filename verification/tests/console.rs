use bootchain::keyboard::{
    action_for, completed_event, handle, keyboard_handler, Key, KeyAction, KeyDecoder,
};
use bootchain::printing::{print, Printer, VgaTextChar};
use bootchain::shell::{command_cells, parse, read_command, run_command, trim, Command};
use bootchain::vga::VgaTextBuffer;

fn letter(byte: u8) -> VgaTextChar {
    VgaTextChar { letter: byte, colour: 0x0F }
}

const BLANK: VgaTextChar = VgaTextChar { letter: 0, colour: 0 };

#[test]
fn printer_writes_letters_in_white() {
    let mut printer = Printer::new();
    assert_eq!(printer.idx(), 0);
    assert_eq!(printer.cell(0), BLANK);
    printer.write_byte(b'h');
    printer.write_byte(b'i');
    assert_eq!(printer.idx(), 2);
    assert_eq!(printer.cell(0), letter(b'h'));
    assert_eq!(printer.cell(1), letter(b'i'));
    assert_eq!(printer.cell(2), BLANK);
}

#[test]
fn printer_moves_on_line_feed_and_carriage_return() {
    let mut printer = Printer::new();
    printer.write_str(b"abc");
    printer.write_byte(b'\r');
    assert_eq!(printer.idx(), 0);
    printer.write_byte(b'\n');
    assert_eq!(printer.idx(), 80);
    printer.write_byte(b'\n');
    assert_eq!(printer.idx(), 160);
    printer.write_str(b"xy\n");
    assert_eq!(printer.idx(), 240);
    printer.write_str(b"z\r");
    assert_eq!(printer.idx(), 240);
    assert_eq!(printer.cell(0), letter(b'a'));
    assert_eq!(printer.cell(160), letter(b'x'));
    assert_eq!(printer.cell(161), letter(b'y'));
    assert_eq!(printer.cell(240), letter(b'z'));
}

#[test]
fn printer_moves_the_screen_up_when_it_is_full() {
    let mut printer = Printer::new();
    for row in 0u8..25 {
        printer.write_byte(b'A' + row);
        if row < 24 {
            printer.write_byte(b'\n');
        }
    }
    assert_eq!(printer.idx(), 24 * 80 + 1);
    assert_eq!(printer.cell(0), letter(b'A'));
    assert_eq!(printer.cell(24 * 80), letter(b'Y'));
    printer.write_byte(b'\n');
    assert_eq!(printer.idx(), 24 * 80);
    for row in 0..24 {
        assert_eq!(printer.cell(row * 80), letter(b'B' + row as u8));
        assert_eq!(printer.cell(row * 80 + 1), BLANK);
    }
    for column in 0..80 {
        assert_eq!(printer.cell(24 * 80 + column), BLANK);
    }
    let mut full = Printer::new();
    full.write_str(&[b'#'; 1999]);
    assert_eq!(full.idx(), 1999);
    full.write_byte(b'!');
    assert_eq!(full.idx(), 1920);
    assert_eq!(full.cell(1919), letter(b'!'));
    assert_eq!(full.cell(1918), letter(b'#'));
    assert_eq!(full.cell(1920), BLANK);
}

#[test]
fn printer_clears_and_bumps() {
    let mut printer = Printer::new();
    printer.write_str(b"first\nsecond");
    printer.bump_screen();
    assert_eq!(printer.idx(), 1920);
    assert_eq!(printer.cell(0), letter(b's'));
    assert_eq!(printer.cell(5), letter(b'd'));
    assert_eq!(printer.cell(80), BLANK);
    printer.clear();
    assert_eq!(printer, Printer::new());
}

#[test]
fn bios_gets_a_carriage_return_after_each_line_feed() {
    assert_eq!(print(b""), b"".to_vec());
    assert_eq!(print(b"ok"), b"ok".to_vec());
    assert_eq!(print(b"a\nb\n"), b"a\n\rb\n\r".to_vec());
    assert_eq!(print(b"\n\n\r"), b"\n\r\n\r\r".to_vec());
}

#[test]
fn text_buffer_writes_letter_and_style() {
    let mut screen = VgaTextBuffer::new(0x1E);
    screen.write(b"ab");
    assert_eq!(screen.idx(), 4);
    assert_eq!(
        [screen.byte(0), screen.byte(1), screen.byte(2), screen.byte(3), screen.byte(4)],
        [b'a', 0x1E, b'b', 0x1E, 0]
    );
    screen.write_byte(b'\n');
    assert_eq!(screen.idx(), 160);
    screen.write_byte(b'\n');
    assert_eq!(screen.idx(), 320);
    screen.move_to(3998);
    assert_eq!(screen.idx(), 3998);
    screen.move_to(4000);
    assert_eq!(screen.idx(), 3998);
    screen.move_to(usize::MAX);
    assert_eq!(screen.idx(), 3998);
    screen.write_byte(b'!');
    assert_eq!(screen.idx(), 0);
    assert_eq!(screen.byte(0), b'Z');
    for index in 1..4000 {
        assert_eq!(screen.byte(index), 0);
    }
    screen.move_to(3840);
    screen.write_byte(b'\n');
    assert_eq!(screen.idx(), 0);
    assert_eq!(screen.byte(0), b'Z');
}

#[test]
fn letter_at_the_last_byte_wipes_the_screen() {
    let mut screen = VgaTextBuffer::new(0x1E);
    screen.write(b"abc");
    screen.move_to(3999);
    assert_eq!(screen.idx(), 3999);
    screen.write_byte(b'!');
    assert_eq!(screen.idx(), 0);
    assert_eq!(screen.byte(0), b'Z');
    for index in 1..16000 {
        assert_eq!(screen.byte(index), 0);
    }
    screen.move_to(3997);
    screen.write(b"x");
    assert_eq!(screen.idx(), 3999);
    assert_eq!([screen.byte(3997), screen.byte(3998)], [b'x', 0x1E]);
    screen.write(b"y");
    assert_eq!(screen.idx(), 0);
    assert_eq!([screen.byte(0), screen.byte(3997), screen.byte(3999)], [b'Z', 0, 0]);
    assert_eq!(screen.byte(4000), 0);
    screen.move_to(5);
    screen.write(b"q");
    assert_eq!(screen.idx(), 7);
    assert_eq!([screen.byte(5), screen.byte(6)], [b'q', 0x1E]);
}

#[test]
fn commands_are_told_apart() {
    assert_eq!(parse(b"help"), Command::Help);
    assert_eq!(parse(b"echo hello world"), Command::Echo { from: 5 });
    assert_eq!(parse(b"echo  "), Command::Echo { from: 5 });
    assert_eq!(parse(b"echo"), Command::EchoNothing);
    assert_eq!(parse(b"echoes"), Command::Unknown);
    assert_eq!(parse(b"ping"), Command::Ping);
    assert_eq!(parse(b"pong"), Command::Pong);
    assert_eq!(parse(b"add 1 2"), Command::Add { from: 4 });
    assert_eq!(parse(b"add 12"), Command::Add { from: 4 });
    assert_eq!(parse(b"added!"), Command::Add { from: 4 });
    assert_eq!(parse(b"add 1"), Command::Unknown);
    assert_eq!(parse(b"add"), Command::AddNothing);
    assert_eq!(parse(b""), Command::Unknown);
    assert_eq!(parse(b"Help"), Command::Unknown);
    assert_eq!(parse(b"helpx"), Command::Unknown);
    assert_eq!(parse(b"hel"), Command::Unknown);
}

#[test]
fn white_space_is_trimmed_at_both_ends() {
    assert_eq!(trim(b""), (0, 0));
    assert_eq!(trim(b"   "), (3, 3));
    assert_eq!(trim(b"ping"), (0, 4));
    assert_eq!(trim(b"  ping \t\r\n"), (2, 6));
    assert_eq!(trim(b"\x0B\x0Ca b\x0C"), (2, 5));
    assert_eq!(trim(b"\x08x\x0E"), (0, 3));
}

#[test]
fn command_is_read_from_the_cursor_row() {
    assert_eq!(command_cells(0), (0, 0));
    assert_eq!(command_cells(8), (0, 4));
    assert_eq!(command_cells(160 * 3 + 10), (240, 5));
    assert_eq!(command_cells(160 * 24 + 158), (1920, 79));
    let mut screen = VgaTextBuffer::new(0x0F);
    screen.write(b"noise\n");
    screen.write(b"  echo hi ");
    let end = screen.idx();
    assert_eq!(end, 160 + 20);
    assert_eq!(read_command(&screen, end), b"  echo hi ".to_vec());
    let (command, line, from, to) = run_command(&screen, end);
    assert_eq!(command, Command::Echo { from: 5 });
    assert_eq!(&line[from..to], b"echo hi");
    assert_eq!(&line[from + 5..to], b"hi");
    screen.write(b"\nping");
    assert_eq!(run_command(&screen, screen.idx()).0, Command::Ping);
    screen.write(b"\n");
    assert_eq!(run_command(&screen, screen.idx()).0, Command::Unknown);
}

#[test]
fn keys_become_actions() {
    assert_eq!(handle(Key::Unicode('a'), 12), KeyAction::Print('a'));
    assert_eq!(handle(Key::Unicode('\n'), 12), KeyAction::RunCommand { command_end: 12 });
    assert_eq!(handle(Key::RawKey(pc_keyboard::KeyCode::F1), 12), KeyAction::Ignore);
}

#[test]
fn scancodes_become_actions() {
    let mut keyboard = KeyDecoder::new();
    assert_eq!(keyboard_handler(&mut keyboard, 0x1E, 6), KeyAction::Print('a'));
    assert_eq!(keyboard_handler(&mut keyboard, 0x9E, 6), KeyAction::Ignore);
    assert_eq!(keyboard_handler(&mut keyboard, 0x2A, 6), KeyAction::Ignore);
    assert_eq!(keyboard_handler(&mut keyboard, 0x1E, 6), KeyAction::Print('A'));
    assert_eq!(keyboard_handler(&mut keyboard, 0xAA, 6), KeyAction::Ignore);
    assert_eq!(keyboard_handler(&mut keyboard, 0x30, 6), KeyAction::Print('b'));
    assert_eq!(keyboard_handler(&mut keyboard, 0x1C, 8), KeyAction::RunCommand { command_end: 8 });
    assert_eq!(keyboard_handler(&mut keyboard, 0xE0, 8), KeyAction::Ignore);
    assert_eq!(keyboard_handler(&mut keyboard, 0x48, 8), KeyAction::Ignore);
    assert_eq!(keyboard_handler(&mut keyboard, 0x3B, 8), KeyAction::Ignore);
}

#[test]
fn decoder_answers_become_actions() {
    let event = pc_keyboard::KeyEvent::new(pc_keyboard::KeyCode::A, pc_keyboard::KeyState::Down);
    assert_eq!(completed_event(Ok(Some(event.clone()))), Some(event));
    assert_eq!(completed_event(Ok(None)), None);
    assert_eq!(completed_event(Err(pc_keyboard::Error::UnknownKeyCode)), None);
    assert_eq!(action_for(None, 4), KeyAction::Ignore);
    assert_eq!(action_for(Some(Key::Unicode('x')), 4), KeyAction::Print('x'));
    assert_eq!(action_for(Some(Key::Unicode('\n')), 4), KeyAction::RunCommand { command_end: 4 });
    assert_eq!(action_for(Some(Key::RawKey(pc_keyboard::KeyCode::Escape)), 4), KeyAction::Ignore);
}
