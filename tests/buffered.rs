use pwr_hd44780::{BufferedLcd, DirectLcd, Error, Font, I2cBus, Lcd, Point, Properties, Signal, Timing};

fn buffered(width: u8, height: u8) -> BufferedLcd<I2cBus> {
    let properties = Properties { dimensions: Point { x: width, y: height }, font: Font::Font5x8 };
    let mut lcd = BufferedLcd::new(DirectLcd::new(I2cBus::new(Timing::standard()), properties));
    lcd.take_signals();
    lcd
}

/// The bytes, with their data flag, that a stream of whole-byte I2C writes carries.
fn written(lcd: &mut BufferedLcd<I2cBus>) -> Vec<(u8, bool)> {
    let sends: Vec<u8> = lcd
        .take_signals()
        .iter()
        .filter_map(|s| match s {
            Signal::Send { byte } => Some(*byte),
            _ => None,
        })
        .collect();
    sends.chunks(4).map(|c| ((c[1] & 0xf0) | (c[3] >> 4), c[1] & 0x01 != 0)).collect()
}

/// Screen rows as text, read from a render stream.
fn rendered_rows(stream: &[(u8, bool)], width: usize) -> Vec<(u8, String)> {
    stream
        .chunks(width + 1)
        .map(|row| {
            assert!(!row[0].1);
            assert!(row[1..].iter().all(|b| b.1));
            (row[0].0, row[1..].iter().map(|b| b.0 as char).collect())
        })
        .collect()
}

#[test]
fn text_calls_make_no_bus_writes() {
    let mut lcd = buffered(16, 2);
    lcd.print("abc").unwrap();
    lcd.goto(Point { x: 1, y: 1 }).unwrap();
    lcd.print_char(b'x').unwrap();
    lcd.println("yz").unwrap();
    lcd.clear().unwrap();
    lcd.home().unwrap();
    assert!(lcd.take_signals().is_empty());
}

#[test]
fn render_of_hello_on_second_line() {
    let mut lcd = buffered(20, 4);
    lcd.goto(Point { x: 0, y: 1 }).unwrap();
    lcd.print("Hello").unwrap();
    lcd.render().unwrap();
    let stream = written(&mut lcd);
    assert_eq!(stream.len(), 4 * 21);
    let row = &stream[21..42];
    assert_eq!(row[0], (0xc0, false));
    let hello: Vec<(u8, bool)> = "Hello".bytes().map(|b| (b, true)).collect();
    assert_eq!(&row[1..6], &hello[..]);
    assert!(row[6..].iter().all(|b| *b == (b' ', true)));
    let rows = rendered_rows(&stream, 20);
    assert_eq!(rows[0], (0x80, " ".repeat(20)));
    assert_eq!(rows[1], (0xc0, format!("Hello{}", " ".repeat(15))));
    assert_eq!(rows[2], (0x94, " ".repeat(20)));
    assert_eq!(rows[3], (0xd4, " ".repeat(20)));
}

#[test]
fn printed_char_lands_in_its_cell() {
    for (x, y) in [(0u8, 0u8), (15, 0), (7, 1), (15, 1)] {
        let mut lcd = buffered(16, 2);
        lcd.goto(Point { x, y }).unwrap();
        lcd.print_char(b'#').unwrap();
        lcd.render().unwrap();
        let stream = written(&mut lcd);
        let at = y as usize * 17 + 1 + x as usize;
        assert_eq!(stream[at], (b'#', true));
        assert_eq!(stream.iter().filter(|b| **b == (b'#', true)).count(), 1);
    }
}

#[test]
fn buffered_goto_out_of_bounds_keeps_cursor() {
    let mut lcd = buffered(16, 2);
    lcd.goto(Point { x: 4, y: 1 }).unwrap();
    assert_eq!(
        lcd.goto(Point { x: 16, y: 0 }),
        Err(Error::CursorOutOfBounds {
            cursor: Point { x: 16, y: 0 },
            screen_dimensions: Point { x: 16, y: 2 },
        })
    );
    assert!(matches!(lcd.goto(Point { x: 0, y: 2 }), Err(Error::CursorOutOfBounds { .. })));
    lcd.print_char(b'k').unwrap();
    lcd.render().unwrap();
    let rows = rendered_rows(&written(&mut lcd), 16);
    assert_eq!(rows[1].1, "    k           ");
}

#[test]
fn print_wraps_to_next_line_and_back_to_top() {
    let mut lcd = buffered(4, 2);
    lcd.print("abcdef").unwrap();
    lcd.render().unwrap();
    let rows = rendered_rows(&written(&mut lcd), 4);
    assert_eq!(rows[0].1, "abcd");
    assert_eq!(rows[1].1, "ef  ");
    lcd.print("ghiJ").unwrap();
    lcd.render().unwrap();
    let rows = rendered_rows(&written(&mut lcd), 4);
    assert_eq!(rows[0].1, "iJcd");
    assert_eq!(rows[1].1, "efgh");
}

#[test]
fn full_screen_of_chars_returns_cursor_to_start() {
    let mut lcd = buffered(5, 3);
    lcd.goto(Point { x: 2, y: 1 }).unwrap();
    for k in 0..15u8 {
        lcd.print_char(b'a' + k).unwrap();
    }
    lcd.print_char(b'Z').unwrap();
    lcd.render().unwrap();
    let rows = rendered_rows(&written(&mut lcd), 5);
    // 'a' was written at (2, 1); after 15 characters 'Z' overwrites it
    assert_eq!(rows[0].1, "ijklm");
    assert_eq!(rows[1].1, "noZbc");
    assert_eq!(rows[2].1, "defgh");
}

#[test]
fn println_moves_to_next_line_start() {
    let mut lcd = buffered(8, 2);
    lcd.println("ab").unwrap();
    lcd.print("cd").unwrap();
    lcd.println("").unwrap();
    lcd.print("e").unwrap();
    lcd.render().unwrap();
    let rows = rendered_rows(&written(&mut lcd), 8);
    assert_eq!(rows[0].1, "eb      ");
    assert_eq!(rows[1].1, "cd      ");
}

#[test]
fn clear_blanks_buffer_and_homes() {
    let mut lcd = buffered(4, 2);
    lcd.print("wxyz12").unwrap();
    lcd.clear().unwrap();
    lcd.print_char(b'q').unwrap();
    lcd.render().unwrap();
    let rows = rendered_rows(&written(&mut lcd), 4);
    assert_eq!(rows[0].1, "q   ");
    assert_eq!(rows[1].1, "    ");
}

#[test]
fn buffered_passes_settings_through_at_once() {
    let mut lcd = buffered(16, 2);
    lcd.enable_text(false).unwrap();
    assert_eq!(written(&mut lcd), vec![(0x08, false)]);
    lcd.enable_cursor_line_blinking(true).unwrap();
    assert_eq!(written(&mut lcd), vec![(0x0a, false)]);
    lcd.create_char(0, [0x1f; 8]).unwrap();
    let stream = written(&mut lcd);
    assert_eq!(stream[0], (0x40, false));
    assert_eq!(stream.len(), 9);
    assert_eq!(lcd.dimensions(), Point { x: 16, y: 2 });
}
