use hivemind::arch::cpu::{cache_size, enable_nxe_bit, enable_write_protect_bit};
use hivemind::drivers::keyboard::{scan_to_key, KeyCode, KeyState, Keyboard};
use hivemind::drivers::rtc::RTC;
use hivemind::drivers::vga::{
    clear_screen, print, Color, ColorCode, ScreenCharacter, ScreenWriter,
};
use hivemind::interrupts::pic::PortWrite;
use hivemind::QemuExitCode;

#[test]
fn single_byte_scan_codes() {
    assert_eq!(scan_to_key(0x01), Some((KeyCode::Escape, KeyState::Down)));
    assert_eq!(scan_to_key(0x81), Some((KeyCode::Escape, KeyState::Up)));
    assert_eq!(scan_to_key(0x1E), Some((KeyCode::A, KeyState::Down)));
    assert_eq!(scan_to_key(0x9E), Some((KeyCode::A, KeyState::Up)));
    assert_eq!(scan_to_key(0x39), Some((KeyCode::Space, KeyState::Down)));
    assert_eq!(scan_to_key(0x58), Some((KeyCode::F12, KeyState::Down)));
    assert_eq!(scan_to_key(0xD8), Some((KeyCode::F12, KeyState::Up)));
}

#[test]
fn scan_codes_without_a_key() {
    assert_eq!(scan_to_key(0x00), None);
    assert_eq!(scan_to_key(0x54), None);
    assert_eq!(scan_to_key(0x59), None);
    assert_eq!(scan_to_key(0x80), None);
    assert_eq!(scan_to_key(0xD4), None);
    assert_eq!(scan_to_key(0xE0), None);
    assert_eq!(scan_to_key(0xE1), None);
    assert_eq!(scan_to_key(0xE000), None);
    assert_eq!(scan_to_key(0xE01E), None);
    assert_eq!(scan_to_key(0x1E00), None);
    assert_eq!(scan_to_key(u32::MAX), None);
}

#[test]
fn extended_scan_codes() {
    assert_eq!(scan_to_key(0xE010), Some((KeyCode::PreviousTrack, KeyState::Down)));
    assert_eq!(scan_to_key(0xE090), Some((KeyCode::PreviousTrack, KeyState::Up)));
    assert_eq!(scan_to_key(0xE01C), Some((KeyCode::KeypadEnter, KeyState::Down)));
    assert_eq!(scan_to_key(0xE048), Some((KeyCode::CursorUp, KeyState::Down)));
    assert_eq!(scan_to_key(0xE0C8), Some((KeyCode::CursorUp, KeyState::Up)));
    assert_eq!(scan_to_key(0xE06D), Some((KeyCode::MediaSelect, KeyState::Down)));
    assert_eq!(scan_to_key(0xE0ED), Some((KeyCode::MediaSelect, KeyState::Up)));
}

#[test]
fn long_scan_codes() {
    assert_eq!(scan_to_key(0xE02AE037), Some((KeyCode::PrintScreen, KeyState::Down)));
    assert_eq!(scan_to_key(0xE0B7E0AA), Some((KeyCode::PrintScreen, KeyState::Up)));
    assert_eq!(scan_to_key(0x45E19DC5), Some((KeyCode::PauseBreak, KeyState::Down)));
}

#[test]
fn every_key_but_the_longest_goes_up_by_its_code_plus_0x80() {
    let mut keys = 0;
    for code in (0..0x80u32).chain(0xE000..0xE080) {
        if let Some((key, state)) = scan_to_key(code) {
            assert_eq!(state, KeyState::Down);
            assert_eq!(scan_to_key(code + 0x80), Some((key, KeyState::Up)));
            keys += 1;
        } else {
            assert_eq!(scan_to_key(code + 0x80), None);
        }
    }
    assert_eq!(keys, 123);
}

#[test]
fn key_indices() {
    assert_eq!(KeyCode::Null.index(), 0);
    assert_eq!(KeyCode::Escape.index(), 1);
    assert_eq!(KeyCode::A.index(), 30);
    assert_eq!(KeyCode::PauseBreak.index(), 125);
}

#[test]
fn new_keyboard() {
    let keyboard = Keyboard::new();
    assert_eq!(keyboard.control_flags, 0);
    assert_eq!(keyboard.current_byte, 0);
    assert!(keyboard.key_map.iter().all(|entry| *entry == (KeyCode::Null, KeyState::Up)));
}

#[test]
fn keyboard_follows_the_keys() {
    let mut keyboard = Keyboard::new();
    assert!(!keyboard.read_byte(0x1E));
    assert_eq!(keyboard.key_map[KeyCode::A.index()], (KeyCode::A, KeyState::Down));
    assert_eq!(keyboard.current_byte, 0);
    assert!(!keyboard.read_byte(0x1E));
    assert_eq!(keyboard.key_map[KeyCode::A.index()], (KeyCode::A, KeyState::Down));
    assert!(!keyboard.read_byte(0x9E));
    assert_eq!(keyboard.key_map[KeyCode::A.index()], (KeyCode::A, KeyState::Up));
    assert_eq!(keyboard.key_map[KeyCode::S.index()], (KeyCode::Null, KeyState::Up));
}

#[test]
fn keyboard_puts_long_codes_together() {
    let mut keyboard = Keyboard::new();
    assert!(!keyboard.read_byte(0xE0));
    assert_eq!(keyboard.current_byte, 0xE000);
    assert!(!keyboard.read_byte(0x48));
    assert_eq!(keyboard.current_byte, 0);
    assert_eq!(keyboard.key_map[KeyCode::CursorUp.index()], (KeyCode::CursorUp, KeyState::Down));
    for byte in [0xE0u8, 0x2A, 0xE0, 0x37] {
        keyboard.read_byte(byte);
    }
    assert_eq!(
        keyboard.key_map[KeyCode::PrintScreen.index()],
        (KeyCode::PrintScreen, KeyState::Down)
    );
    assert_eq!(keyboard.current_byte, 0);
}

#[test]
fn keyboard_takes_the_pause_key() {
    let mut keyboard = Keyboard::new();
    for byte in [0xE1u8, 0x1D, 0x45, 0xE1, 0x9D] {
        keyboard.read_byte(byte);
        assert_ne!(keyboard.current_byte, 0);
    }
    assert_eq!(keyboard.current_byte, 0x45E1_9D00);
    keyboard.read_byte(0xC5);
    assert_eq!(keyboard.current_byte, 0);
    assert_eq!(
        keyboard.key_map[KeyCode::PauseBreak.index()],
        (KeyCode::PauseBreak, KeyState::Down)
    );
}

#[test]
fn keyboard_keeps_bytes_that_end_no_code() {
    let mut keyboard = Keyboard::new();
    keyboard.read_byte(0x54);
    assert_eq!(keyboard.current_byte, 0x5400);
    keyboard.read_byte(0x1E);
    assert_eq!(keyboard.current_byte, 0x541E00);
    assert_eq!(keyboard.key_map[KeyCode::A.index()], (KeyCode::Null, KeyState::Up));
}

#[test]
fn escape_clears_the_screen_once() {
    let mut keyboard = Keyboard::new();
    assert!(keyboard.read_byte(0x01));
    assert!(!keyboard.read_byte(0x01));
    assert!(!keyboard.read_byte(0x81));
    assert!(keyboard.read_byte(0x01));
}

#[test]
fn color_codes() {
    assert_eq!(Color::Black.code(), 0);
    assert_eq!(Color::LightBlue.code(), 9);
    assert_eq!(Color::White.code(), 15);
    assert_eq!(ColorCode::new(Color::LightBlue, Color::Black), ColorCode(0x09));
    assert_eq!(ColorCode::new(Color::Yellow, Color::Blue), ColorCode(0x1e));
    assert_eq!(ColorCode::new(Color::Black, Color::White), ColorCode(0xf0));
}

fn row(writer: &ScreenWriter, row: usize) -> String {
    (0..80).map(|col| writer.character(row, col).ascii_character as char).collect()
}

#[test]
fn screen_starts_blank() {
    let color = ColorCode::new(Color::LightBlue, Color::Black);
    let writer = ScreenWriter::new(color);
    assert_eq!(writer.cursor(), (0, 24));
    for r in 0..25 {
        for c in 0..80 {
            assert_eq!(
                writer.character(r, c),
                ScreenCharacter { ascii_character: b' ', color_code: color }
            );
        }
    }
}

#[test]
fn bytes_go_into_the_last_row() {
    let color = ColorCode::new(Color::Green, Color::Black);
    let mut writer = ScreenWriter::new(color);
    writer.write_byte(b'H');
    writer.write_char('i');
    assert_eq!(writer.cursor(), (2, 24));
    assert_eq!(writer.character(24, 0), ScreenCharacter { ascii_character: b'H',
        color_code: color });
    assert_eq!(writer.character(24, 1).ascii_character, b'i');
    assert_eq!(writer.character(24, 2).ascii_character, b' ');
    assert_eq!(row(&writer, 23).trim(), "");
}

#[test]
fn line_feed_moves_the_rows_up() {
    let mut writer = ScreenWriter::new(ColorCode::new(Color::White, Color::Black));
    print(&mut writer, "one\ntwo\nthree");
    assert_eq!(row(&writer, 22).trim_end(), "one");
    assert_eq!(row(&writer, 23).trim_end(), "two");
    assert_eq!(row(&writer, 24).trim_end(), "three");
    assert_eq!(writer.cursor(), (5, 24));
    writer.new_line();
    assert_eq!(row(&writer, 21).trim_end(), "one");
    assert_eq!(row(&writer, 23).trim_end(), "three");
    assert_eq!(row(&writer, 24).trim_end(), "");
    assert_eq!(writer.cursor(), (0, 24));
}

#[test]
fn full_row_wraps() {
    let mut writer = ScreenWriter::new(ColorCode::new(Color::White, Color::Black));
    let line: String = (0..80).map(|i| (b'a' + (i % 26) as u8) as char).collect();
    writer.write_str(&line);
    assert_eq!(writer.cursor(), (80, 24));
    assert_eq!(row(&writer, 24), line);
    writer.write_byte(b'!');
    assert_eq!(writer.cursor(), (1, 24));
    assert_eq!(row(&writer, 23), line);
    assert_eq!(row(&writer, 24).trim_end(), "!");
}

#[test]
fn rows_leave_at_the_top() {
    let mut writer = ScreenWriter::new(ColorCode::new(Color::White, Color::Black));
    for i in 0..30 {
        writer.write_str(&format!("line {}\n", i));
    }
    assert_eq!(row(&writer, 0).trim_end(), "line 6");
    assert_eq!(row(&writer, 23).trim_end(), "line 29");
    assert_eq!(row(&writer, 24).trim_end(), "");
}

#[test]
fn clear_row_blanks_one_row() {
    let mut writer = ScreenWriter::new(ColorCode::new(Color::White, Color::Black));
    print(&mut writer, "one\ntwo");
    writer.clear_row(23);
    assert_eq!(row(&writer, 23).trim_end(), "");
    assert_eq!(row(&writer, 24).trim_end(), "two");
}

#[test]
fn clear_screen_blanks_everything() {
    let mut writer = ScreenWriter::new(ColorCode::new(Color::White, Color::Black));
    for i in 0..30 {
        writer.write_str(&format!("line {}\n", i));
    }
    writer.write_str("rest");
    clear_screen(&mut writer);
    for r in 0..25 {
        assert_eq!(row(&writer, r).trim_end(), "");
    }
    assert_eq!(writer.cursor(), (0, 24));
}

#[test]
fn clock_writes() {
    let mut rtc = RTC::new();
    assert_eq!(rtc.val, 0);
    assert_eq!(rtc.select(0x8B), PortWrite { port: 0x70, value: 0x8B });
    assert_eq!(
        rtc.init(0x02),
        vec![PortWrite { port: 0x70, value: 0x8B }, PortWrite { port: 0x71, value: 0x42 }]
    );
    assert_eq!(
        rtc.init(0xff),
        vec![PortWrite { port: 0x70, value: 0x8B }, PortWrite { port: 0x71, value: 0xff }]
    );
    assert_eq!(
        rtc.read_byte(0xc0),
        vec![PortWrite { port: 0x20, value: 0x20 }, PortWrite { port: 0xA0, value: 0x20 }]
    );
    assert_eq!(rtc.val, 0xc0);
}

#[test]
fn processor_registers() {
    assert_eq!(enable_nxe_bit(0), 0x800);
    assert_eq!(enable_nxe_bit(0x501), 0xd01);
    assert_eq!(enable_nxe_bit(0x800), 0x800);
    assert_eq!(enable_write_protect_bit(0x8000_0011), 0x8001_0011);
}

#[test]
fn cache_sizes() {
    assert_eq!(cache_size(8, 1, 64, 64), 32768);
    assert_eq!(cache_size(16, 1, 64, 8192), 8 * 1024 * 1024);
    assert_eq!(cache_size(0, 1, 64, 64), 0);
    assert_eq!(cache_size(8, 1, 64, 0), 0);
}

#[test]
fn exit_codes() {
    assert_eq!(QemuExitCode::Success.code(), 0x10);
    assert_eq!(QemuExitCode::Failed.code(), 0x11);
}
