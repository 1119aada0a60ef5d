use pwr_hd44780::{
    BufferedLcd, Bus, BusSize, Command, DirectLcd, Error, Font, GpioBus, I2cBus, Lcd, Line, Pins,
    Point, Properties, Signal, Timing,
};

fn props(width: u8, height: u8) -> Properties {
    Properties { dimensions: Point { x: width, y: height }, font: Font::Font5x8 }
}

/// Sends of the expander, in order.
fn sends(signals: &[Signal]) -> Vec<u8> {
    signals
        .iter()
        .filter_map(|s| match s {
            Signal::Send { byte } => Some(*byte),
            _ => None,
        })
        .collect()
}

/// Bytes carried by a stream of I2C sends made of full byte writes:
/// (value, as_data) for each group of four expander writes.
fn decode_bytes(sends: &[u8]) -> Vec<(u8, bool)> {
    assert_eq!(sends.len() % 4, 0);
    sends
        .chunks(4)
        .map(|c| {
            assert_eq!(c[0], c[1] | 0x04);
            assert_eq!(c[2], c[3] | 0x04);
            ((c[1] & 0xf0) | (c[3] >> 4), c[1] & 0x01 != 0)
        })
        .collect()
}

fn i2c_lcd(width: u8, height: u8) -> DirectLcd<I2cBus> {
    let mut lcd = DirectLcd::new(I2cBus::new(Timing::standard()), props(width, height));
    lcd.take_signals();
    lcd
}

#[test]
fn encodes_every_command() {
    assert_eq!(Command::Clear.encode(), 0x01);
    assert_eq!(Command::Home.encode(), 0x02);
    let entry = Command::SetEntryMode { enable_shift: false, increment_counter: true };
    assert_eq!(entry.encode(), 0x06);
    let flags =
        Command::SetDisplayFlags { cursor_blinking: true, cursor_visible: false, text_visible: true };
    assert_eq!(flags.encode(), 0x0d);
    let functions = Command::SetFunctions { font_5x10: false, height: 4, eight_bit_bus: false };
    assert_eq!(functions.encode(), 0x28);
    let functions = Command::SetFunctions { font_5x10: true, height: 1, eight_bit_bus: true };
    assert_eq!(functions.encode(), 0x34);
    assert!(Command::Clear.needs_long_settle());
    assert!(!entry.needs_long_settle());
}

#[test]
fn address_commands_round_trip() {
    for address in 0u8..0x80 {
        let byte = Command::SetDDRamAddress { address }.encode();
        assert_eq!(byte, 0x80 | address);
        assert_eq!(byte & 0x7f, address);
    }
    for index in 0u8..8 {
        let byte = Command::SetCGRamAddress { index }.encode();
        assert_eq!(byte, 0x40 | (index << 3));
        assert_eq!((byte >> 3) & 0x07, index);
    }
}

#[test]
fn init_sends_handshake_nibbles_first() {
    let mut lcd = DirectLcd::new(I2cBus::new(Timing::standard()), props(16, 2));
    let signals = lcd.take_signals();
    let sent = sends(&signals);
    assert_eq!(&sent[..8], &[0x34, 0x30, 0x34, 0x30, 0x34, 0x30, 0x24, 0x20]);
    let waits: Vec<u32> = signals
        .iter()
        .filter_map(|s| match s {
            Signal::Wait { ns } => Some(*ns),
            _ => None,
        })
        .collect();
    assert_eq!(&waits[..3], &[450, 37_000, 100_000]);
    // function set (two lines), entry mode, display flags; backlight bit set
    let rest = decode_bytes(&sent[8..]);
    assert_eq!(rest, vec![(0x28, false), (0x06, false), (0x0c, false)]);
    assert!(sent[8..].iter().all(|b| b & 0x08 != 0));
}

#[test]
fn gpio_init_pulses_each_nibble() {
    let mut lcd = DirectLcd::new(GpioBus::new(false, Timing::standard()), props(16, 2));
    let signals = lcd.take_signals();
    // handshake: four nibbles of eleven steps, each followed by the init wait
    let mut nibbles = Vec::new();
    for k in 0..4 {
        let step = &signals[k * 12..k * 12 + 12];
        assert_eq!(step[0], Signal::Pin { line: Line::Enable, high: false });
        assert_eq!(step[1], Signal::Pin { line: Line::Rs, high: false });
        let mut nibble = 0u8;
        for (bit, s) in step[2..6].iter().enumerate() {
            if let Signal::Pin { high: true, .. } = s {
                nibble |= 1 << bit;
            }
        }
        nibbles.push(nibble);
        assert_eq!(step[6], Signal::Wait { ns: 1_000 });
        assert_eq!(step[7], Signal::Pin { line: Line::Enable, high: true });
        assert_eq!(step[8], Signal::Wait { ns: 450 });
        assert_eq!(step[9], Signal::Pin { line: Line::Enable, high: false });
        assert_eq!(step[10], Signal::Wait { ns: 37_000 });
        assert_eq!(step[11], Signal::Wait { ns: 100_000 });
    }
    assert_eq!(nibbles, vec![0x3, 0x3, 0x3, 0x2]);
    // then three command bytes of two nibbles each
    assert_eq!(signals.len(), 48 + 3 * 22);
}

#[test]
fn gpio_byte_sends_high_nibble_first() {
    let mut bus = GpioBus::new(true, Timing::standard());
    bus.write_byte(0xa5, true);
    let signals = bus.take_signals();
    assert_eq!(signals.len(), 22);
    let lines = |s: &[Signal]| -> Vec<bool> {
        s[2..6]
            .iter()
            .map(|x| match x {
                Signal::Pin { high, .. } => *high,
                _ => panic!("expected a pin"),
            })
            .collect()
    };
    assert_eq!(signals[1], Signal::Pin { line: Line::Rs, high: true });
    // 0xa: D4..D7 = 0,1,0,1; 0x5: 1,0,1,0
    assert_eq!(lines(&signals[..11]), vec![false, true, false, true]);
    assert_eq!(lines(&signals[11..]), vec![true, false, true, false]);
    assert!(bus.take_signals().is_empty());
}

#[test]
fn gpio_backlight_only_when_wired() {
    let mut wired = GpioBus::new(true, Timing::standard());
    wired.set_backlight(false);
    assert_eq!(wired.take_signals(), vec![Signal::Pin { line: Line::Backlight, high: false }]);
    let mut bare = GpioBus::new(false, Timing::standard());
    bare.set_backlight(true);
    assert!(bare.take_signals().is_empty());
    assert_eq!(bare.size(), BusSize::FourBit);
}

#[test]
fn timing_cannot_drop_below_minimums() {
    let t = Timing { setup_ns: 0, pulse_ns: 10, settle_ns: 50_000 }.normalized();
    assert_eq!(t, Timing { setup_ns: 1_000, pulse_ns: 450, settle_ns: 50_000 });
    let mut bus = I2cBus::new(Timing { setup_ns: 0, pulse_ns: 0, settle_ns: 0 });
    bus.write_nibble(0x3);
    assert_eq!(
        bus.take_signals(),
        vec![
            Signal::Send { byte: 0x34 },
            Signal::Wait { ns: 450 },
            Signal::Send { byte: 0x30 },
            Signal::Wait { ns: 37_000 },
        ]
    );
}

#[test]
fn i2c_byte_packs_nibbles_with_control_bits() {
    let mut bus = I2cBus::new(Timing::standard());
    bus.write_byte(0x48, true);
    assert_eq!(sends(&bus.take_signals()), vec![0x4d, 0x49, 0x8d, 0x89]);
    bus.write_byte(0x01, false);
    assert_eq!(sends(&bus.take_signals()), vec![0x0c, 0x08, 0x1c, 0x18]);
}

#[test]
fn i2c_backlight_writes_dummy_command() {
    let mut lcd = i2c_lcd(16, 2);
    lcd.enable_backlight(false).unwrap();
    assert_eq!(sends(&lcd.take_signals()), vec![0x04, 0x00, 0x04, 0x00]);
    lcd.enable_backlight(true).unwrap();
    let signals = lcd.take_signals();
    assert_eq!(
        signals,
        vec![
            Signal::Send { byte: 0x0c },
            Signal::Wait { ns: 450 },
            Signal::Send { byte: 0x08 },
            Signal::Wait { ns: 37_000 },
            Signal::Send { byte: 0x0c },
            Signal::Wait { ns: 450 },
            Signal::Send { byte: 0x08 },
            Signal::Wait { ns: 37_000 },
        ]
    );
    // later writes carry the backlight bit again
    lcd.print_char(b'A').unwrap();
    assert_eq!(sends(&lcd.take_signals()), vec![0x4d, 0x49, 0x1d, 0x19]);
}

#[test]
fn direct_clear_and_home_wait_long() {
    let mut lcd = i2c_lcd(16, 2);
    lcd.clear().unwrap();
    let signals = lcd.take_signals();
    assert_eq!(decode_bytes(&sends(&signals)), vec![(0x01, false)]);
    assert_eq!(signals.last(), Some(&Signal::Wait { ns: 1_000_000 }));
    lcd.home().unwrap();
    let signals = lcd.take_signals();
    assert_eq!(decode_bytes(&sends(&signals)), vec![(0x02, false)]);
    assert_eq!(signals.last(), Some(&Signal::Wait { ns: 1_000_000 }));
}

#[test]
fn direct_goto_uses_row_addresses() {
    let mut lcd = i2c_lcd(20, 4);
    for (y, base) in [(0u8, 0x00u8), (1, 0x40), (2, 0x14), (3, 0x54)] {
        lcd.goto(Point { x: 3, y }).unwrap();
        assert_eq!(decode_bytes(&sends(&lcd.take_signals())), vec![(0x80 | (base + 3), false)]);
    }
}

#[test]
fn direct_goto_out_of_bounds_fails_without_writes() {
    let mut lcd = i2c_lcd(20, 4);
    let dims = Point { x: 20, y: 4 };
    for p in [Point { x: 20, y: 0 }, Point { x: 0, y: 4 }, Point { x: 255, y: 255 }] {
        assert_eq!(
            lcd.goto(p),
            Err(Error::CursorOutOfBounds { cursor: p, screen_dimensions: dims })
        );
        assert!(lcd.take_signals().is_empty());
    }
}

#[test]
fn direct_print_sends_data_bytes() {
    let mut lcd = i2c_lcd(16, 2);
    lcd.print("Hi!").unwrap();
    assert_eq!(
        decode_bytes(&sends(&lcd.take_signals())),
        vec![(b'H', true), (b'i', true), (b'!', true)]
    );
    // a character outside ASCII is sent as the low byte of its code point
    lcd.print("\u{e9}\u{3a9}").unwrap();
    assert_eq!(decode_bytes(&sends(&lcd.take_signals())), vec![(0xe9, true), (0xa9, true)]);
}

#[test]
fn direct_flags_are_pushed_whole() {
    let mut lcd = i2c_lcd(16, 2);
    lcd.enable_cursor_box_blinking(true).unwrap();
    lcd.enable_cursor_line_blinking(true).unwrap();
    lcd.enable_text(false).unwrap();
    lcd.enable_cursor_box_blinking(false).unwrap();
    assert_eq!(
        decode_bytes(&sends(&lcd.take_signals())),
        vec![(0x0d, false), (0x0f, false), (0x0b, false), (0x0a, false)]
    );
}

#[test]
fn create_char_streams_pattern() {
    let mut lcd = i2c_lcd(16, 2);
    let bitmap = [1, 2, 3, 4, 5, 6, 7, 8];
    lcd.create_char(3, bitmap).unwrap();
    let mut expected = vec![(0x58, false)];
    expected.extend(bitmap.iter().map(|b| (*b, true)));
    assert_eq!(decode_bytes(&sends(&lcd.take_signals())), expected);
}

#[test]
fn create_char_rejects_index_eight() {
    let mut lcd = i2c_lcd(16, 2);
    assert_eq!(lcd.create_char(8, [0xff; 8]), Err(Error::CharOutOfBounds { index: 8 }));
    assert!(lcd.take_signals().is_empty());
    let mut buffered = BufferedLcd::new(i2c_lcd(16, 2));
    assert_eq!(buffered.create_char(200, [0; 8]), Err(Error::CharOutOfBounds { index: 200 }));
    assert!(buffered.take_signals().is_empty());
}

#[test]
fn point_validate_checks_dimensions() {
    let lcd = i2c_lcd(16, 2);
    assert_eq!(Point { x: 15, y: 1 }.validate(&lcd), Ok(()));
    assert_eq!(
        Point { x: 16, y: 1 }.validate(&lcd),
        Err(Error::CursorOutOfBounds {
            cursor: Point { x: 16, y: 1 },
            screen_dimensions: Point { x: 16, y: 2 },
        })
    );
    assert_eq!(lcd.dimensions(), Point { x: 16, y: 2 });
}

#[test]
fn properties_support() {
    assert!(props(20, 4).is_supported());
    assert!(props(40, 2).is_supported());
    assert!(!props(41, 2).is_supported());
    assert!(!props(16, 5).is_supported());
    assert!(!props(0, 1).is_supported());
    let tall_font = Properties { dimensions: Point { x: 16, y: 2 }, font: Font::Font5x10 };
    assert!(!tall_font.is_supported());
    let one_line = Properties { dimensions: Point { x: 16, y: 1 }, font: Font::Font5x10 };
    assert!(one_line.is_supported());
}

#[test]
fn pins_map_lines() {
    let pins = Pins { data: [26, 6, 5, 16], rs: 23, en: 24, backlight: None };
    assert_eq!(pins.pin_for(Line::D4), Some(26));
    assert_eq!(pins.pin_for(Line::D7), Some(16));
    assert_eq!(pins.pin_for(Line::Rs), Some(23));
    assert_eq!(pins.pin_for(Line::Enable), Some(24));
    assert_eq!(pins.pin_for(Line::Backlight), None);
}
