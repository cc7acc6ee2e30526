use rsos::vga_buffer::{Color, ColorCode, Writer, BUFFER_HEIGHT, BUFFER_WIDTH};
use rsos::volatile::Volatile;

fn test_writer() -> Writer {
    Writer::new(ColorCode::new(Color::Yellow, Color::Black))
}

#[test]
fn test_read() {
    assert_eq!(Volatile::new(42u32).read(), 42u32);
}

#[test]
fn test_write() {
    let mut volatile = Volatile::new(42u32);
    volatile.write(50);
    assert_eq!(volatile.read(), 50);
}

#[test]
fn test_update() {
    let mut volatile = Volatile::new(42u32);
    volatile.update(|v| v + 1);
    assert_eq!(volatile.read(), 43);
}

#[test]
fn test_color_code_packs_nibbles() {
    assert_eq!(ColorCode::new(Color::Yellow, Color::Black).0, 0x0e);
    assert_eq!(ColorCode::new(Color::White, Color::Blue).0, 0x1f);
    assert_eq!(ColorCode::new(Color::Black, Color::White).0, 0xf0);
}

#[test]
fn test_write_byte_lands_on_bottom_row() {
    let mut writer = test_writer();
    writer.write_byte(b'X');
    let cell = writer.read(BUFFER_HEIGHT - 1, 0);
    assert_eq!(cell.char, b'X');
    assert_eq!(cell.color_code, ColorCode::new(Color::Yellow, Color::Black));
    assert_eq!(writer.col_pos, 1);
}

#[test]
fn test_newline_scrolls() {
    let mut writer = test_writer();
    writer.write_byte(b'X');
    writer.write_byte(b'\n');
    assert_eq!(writer.read(BUFFER_HEIGHT - 2, 0).char, b'X');
    assert_eq!(writer.read(BUFFER_HEIGHT - 1, 0).char, b' ');
    assert_eq!(writer.col_pos, 0);
}

#[test]
fn test_full_row_wraps() {
    let mut writer = test_writer();
    for _ in 0..(BUFFER_WIDTH + 1) {
        writer.write_byte(b'a');
    }
    for col in 0..BUFFER_WIDTH {
        assert_eq!(writer.read(BUFFER_HEIGHT - 2, col).char, b'a');
    }
    assert_eq!(writer.read(BUFFER_HEIGHT - 1, 0).char, b'a');
    assert_eq!(writer.col_pos, 1);
}

#[test]
fn test_println_simple() {
    let mut writer = test_writer();
    writer.write_string("test output\n");
    let line: Vec<u8> = (0..BUFFER_WIDTH).map(|c| writer.read(BUFFER_HEIGHT - 2, c).char).collect();
    assert_eq!(&line[..11], b"test output");
    assert_eq!(line[11], b' ');
}

#[test]
fn test_println_many() {
    let mut writer = test_writer();
    for _ in 0..200 {
        writer.write_string("test output\n");
    }
    let line: Vec<u8> = (0..11).map(|c| writer.read(BUFFER_HEIGHT - 2, c).char).collect();
    assert_eq!(&line[..], b"test output");
}

#[test]
fn test_println_output() {
    let mut writer = test_writer();
    let s = "Some test string that fits on a single line";
    writer.write_string(s);
    writer.write_byte(b'\n');
    for (i, c) in s.chars().enumerate() {
        let screen_char = writer.read(BUFFER_HEIGHT - 2, i);
        assert_eq!(char::from(screen_char.char), c);
    }
}

#[test]
fn test_unprintable_byte_becomes_marker() {
    let mut writer = test_writer();
    writer.write_string("\u{0001}é");
    assert_eq!(writer.read(BUFFER_HEIGHT - 1, 0).char, 0xfe);
    assert_eq!(writer.read(BUFFER_HEIGHT - 1, 1).char, 0xfe);
    assert_eq!(writer.read(BUFFER_HEIGHT - 1, 2).char, 0xfe);
    assert_eq!(writer.col_pos, 3);
}
