//! Tests for the configuration, the lock cell, number parsing, the keyboard
//! modifier state and the glyph table.

use neotron_os::attr::Attr;
use neotron_os::charmap::{ModifierKey, UKEnglish};
use neotron_os::config::{Config, DataBits, Handshaking, Parity, StopBits};
use neotron_os::glyph::map_char_to_glyph;
use neotron_os::numparse::{hex_digit, parse_u64, parse_u8, parse_usize, ParseError};
use neotron_os::refcell::CsRefCell;
use neotron_os::source::ReadCache;
use neotron_os::Ctx;

#[test]
fn config_defaults_and_setters() {
    let mut config = Config::default();
    assert_eq!(config.get_vga_console(), Some(0));
    assert!(config.get_serial_console().is_none());
    config.set_serial_console_on(115200);
    let (port, serial) = config.get_serial_console().unwrap();
    assert_eq!(port, 0);
    assert_eq!(serial.data_rate_bps, 115200);
    assert_eq!(serial.data_bits, DataBits::Eight);
    assert_eq!(serial.stop_bits, StopBits::One);
    assert_eq!(serial.parity, Parity::NoParity);
    assert_eq!(serial.handshaking, Handshaking::NoHandshake);
    config.set_serial_console_off();
    assert!(config.get_serial_console().is_none());
    config.set_vga_console(None);
    assert_eq!(config.get_vga_console(), None);
    config.set_vga_console(Some(1));
    assert_eq!(config.get_vga_console(), Some(1));
}

#[test]
fn refcell_try_lock_fails_when_held() {
    let mut cell = CsRefCell::new(7u32);
    let guard = cell.lock();
    assert_eq!(guard.value, 7);
    // The lock is taken: trying again fails rather than deadlocking.
    assert!(cell.try_lock().is_err());
    cell.unlock(guard);
    let mut guard = cell.try_lock().unwrap();
    guard.value = 8;
    cell.unlock(guard);
    let guard = cell.lock();
    assert_eq!(guard.value, 8);
}

#[test]
fn parse_decimal_and_hex() {
    assert_eq!(parse_usize("123"), Ok(123));
    assert_eq!(parse_usize("0x123"), Ok(0x123));
    assert_eq!(parse_usize("+9"), Ok(9));
    assert_eq!(parse_usize(""), Err(ParseError::Empty));
    assert_eq!(parse_usize("+"), Err(ParseError::InvalidDigit));
    assert_eq!(parse_usize("12a"), Err(ParseError::InvalidDigit));
    assert_eq!(parse_usize("0xfg"), Err(ParseError::InvalidDigit));
    assert_eq!(parse_usize("0x"), Err(ParseError::Empty));
    assert_eq!(parse_u8("255"), Ok(255));
    assert_eq!(parse_u8("256"), Err(ParseError::Overflow));
    assert_eq!(parse_u8("0xFF"), Ok(255));
    assert_eq!(parse_u8("0xff"), Ok(255));
    assert_eq!(parse_u64("18446744073709551615"), Ok(u64::MAX));
    assert_eq!(parse_u64("18446744073709551616"), Err(ParseError::Overflow));
    assert_eq!(parse_u64("0xDEADBEEF"), Ok(0xDEAD_BEEF));
}

#[test]
fn hex_digits() {
    for (input, expected) in [
        (b'0', Some(0)),
        (b'9', Some(9)),
        (b'a', Some(10)),
        (b'f', Some(15)),
        (b'A', Some(10)),
        (b'F', Some(15)),
        (b'g', None),
        (b' ', None),
    ] {
        assert_eq!(hex_digit(input), expected);
    }
}

#[test]
fn shift_and_caps_rules() {
    let mut keyboard = UKEnglish::new();
    assert!(!keyboard.shift_pressed());
    assert!(!keyboard.want_capitals());
    keyboard.modifier_pressed(ModifierKey::ShiftLeft);
    assert!(keyboard.shift_pressed());
    assert!(keyboard.want_capitals());
    keyboard.modifier_pressed(ModifierKey::CapsLock);
    // Caps lock and shift cancel out.
    assert!(!keyboard.want_capitals());
    keyboard.modifier_released(ModifierKey::ShiftLeft);
    assert!(!keyboard.shift_pressed());
    assert!(keyboard.want_capitals());
    // Releasing caps lock does not clear it; pressing it again does.
    keyboard.modifier_released(ModifierKey::CapsLock);
    assert!(keyboard.want_capitals());
    keyboard.modifier_pressed(ModifierKey::CapsLock);
    assert!(!keyboard.want_capitals());
}

#[test]
fn glyph_table_values() {
    assert_eq!(map_char_to_glyph('A'), b'A');
    assert_eq!(map_char_to_glyph(' '), 0x20);
    assert_eq!(map_char_to_glyph('~'), 0x7E);
    assert_eq!(map_char_to_glyph('\u{00A3}'), 156);
    assert_eq!(map_char_to_glyph('\u{00FF}'), 152);
    assert_eq!(map_char_to_glyph('\u{2502}'), 179);
    assert_eq!(map_char_to_glyph('\u{263A}'), 1);
    assert_eq!(map_char_to_glyph('\u{4E8C}'), b'?');
}

#[test]
fn attr_packing() {
    let attr = Attr::new(7, 0, false);
    assert_eq!(attr.as_byte(), 0x07);
    let attr = Attr::new(6, 1, false);
    assert_eq!(attr.as_byte(), 0x16);
    let attr = Attr::new(15, 0, false);
    assert_eq!(attr.as_byte(), 0x0F);
    let attr = Attr::new(0, 7, true);
    assert_eq!(attr.as_byte(), 0xF0);
    let swapped = Attr::new(7, 1, false).swapped();
    assert_eq!(swapped.as_byte(), 0x71);
    assert_eq!(Attr::new(0, 0, false).brightened().fg, 8);
    assert_eq!(Attr::new(14, 0, false).brightened().fg, 14);
}

#[test]
fn context_construction() {
    let ctx = Ctx::new(Config::default(), 0x2000, 128);
    assert_eq!(ctx.tpa.base, 0x2000);
    assert_eq!(ctx.tpa.size_bytes(), 128);
    assert_eq!(ctx.config.get_vga_console(), Some(0));
}

#[test]
fn read_cache_window() {
    let mut cache = ReadCache::new();
    assert!(!cache.hit(0, 4));
    let block: Vec<u8> = (0..128).map(|i| i as u8).collect();
    cache.install(1000, &block);
    assert!(cache.hit(1000, 128));
    assert!(cache.hit(1100, 28));
    assert!(!cache.hit(1100, 29));
    assert!(!cache.hit(999, 4));
    assert!(!cache.hit(1128, 1));
    let bytes = cache.copy_out(1004, 4);
    assert_eq!(bytes, vec![4, 5, 6, 7]);
    // A new block replaces the window entirely.
    let other = vec![9u8; 128];
    cache.install(64, &other);
    assert!(!cache.hit(1000, 4));
    assert_eq!(cache.copy_out(64, 2), vec![9, 9]);
}
