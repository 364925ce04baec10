//! Behavioural tests for the console: byte streams in, buffer dumps out.

use neotron_os::vga::VgaConsole;

const WIDTH: usize = 12;
const HEIGHT: usize = 7;

/// Convert a text buffer into a string we can compare against.
///
/// Each glyph and attribute is printed like "xx yy", separated by "|" for
/// each column, and "\n" for each row.
fn print_buffer(buffer: &[u8]) -> String {
    let mut output = String::new();
    let mut pos = 0;
    for _r in 0..HEIGHT {
        for _c in 0..WIDTH {
            output.push_str(&format!("{:02x} {:02x}|", buffer[pos], buffer[pos + 1]));
            pos += 2;
        }
        output.push('\n');
    }
    output
}

fn new_console() -> VgaConsole {
    VgaConsole::new(WIDTH, HEIGHT)
}

#[test]
fn basic_print() {
    let mut console = new_console();
    console.write_bstr(b"Hello\n");
    assert_eq!(
        print_buffer(&console.buffer()),
        "\
        48 07|65 07|6c 07|6c 07|6f 07|00 00|00 00|00 00|00 00|00 00|00 00|00 00|\n\
        00 00|00 00|00 00|00 00|00 00|00 00|00 00|00 00|00 00|00 00|00 00|00 00|\n\
        00 00|00 00|00 00|00 00|00 00|00 00|00 00|00 00|00 00|00 00|00 00|00 00|\n\
        00 00|00 00|00 00|00 00|00 00|00 00|00 00|00 00|00 00|00 00|00 00|00 00|\n\
        00 00|00 00|00 00|00 00|00 00|00 00|00 00|00 00|00 00|00 00|00 00|00 00|\n\
        00 00|00 00|00 00|00 00|00 00|00 00|00 00|00 00|00 00|00 00|00 00|00 00|\n\
        00 00|00 00|00 00|00 00|00 00|00 00|00 00|00 00|00 00|00 00|00 00|00 00|\n"
    );
    assert_eq!(console.inner.row, 1);
    assert_eq!(console.inner.col, 0);
}

#[test]
fn cr_overprint() {
    let mut console = new_console();
    console.write_bstr(b"0\r1\n");
    // Second row
    assert_eq!(console.inner.row, 1);
    assert_eq!(console.inner.col, 0);
    // The '1' has replaced the 0
    assert_eq!(
        print_buffer(&console.buffer()),
        "\
        31 07|00 00|00 00|00 00|00 00|00 00|00 00|00 00|00 00|00 00|00 00|00 00|\n\
        00 00|00 00|00 00|00 00|00 00|00 00|00 00|00 00|00 00|00 00|00 00|00 00|\n\
        00 00|00 00|00 00|00 00|00 00|00 00|00 00|00 00|00 00|00 00|00 00|00 00|\n\
        00 00|00 00|00 00|00 00|00 00|00 00|00 00|00 00|00 00|00 00|00 00|00 00|\n\
        00 00|00 00|00 00|00 00|00 00|00 00|00 00|00 00|00 00|00 00|00 00|00 00|\n\
        00 00|00 00|00 00|00 00|00 00|00 00|00 00|00 00|00 00|00 00|00 00|00 00|\n\
        00 00|00 00|00 00|00 00|00 00|00 00|00 00|00 00|00 00|00 00|00 00|00 00|\n"
    );
    // We are on the second row
    assert_eq!(console.inner.row, 1);
    assert_eq!(console.inner.col, 0);
}

#[test]
fn scroll() {
    let mut console = new_console();
    console.write_bstr(b"0\n");
    console.write_bstr(b"1\n");
    for _ in 0..HEIGHT - 1 {
        console.write_bstr(b"\n");
    }
    // We are now off the bottom of the screen
    assert_eq!(console.inner.row, HEIGHT);
    assert_eq!(console.inner.col, 0);
    // And the '1' is on the top row
    assert_eq!(
        print_buffer(&console.buffer()),
        "\
        31 07|00 00|00 00|00 00|00 00|00 00|00 00|00 00|00 00|00 00|00 00|00 00|\n\
        00 00|00 00|00 00|00 00|00 00|00 00|00 00|00 00|00 00|00 00|00 00|00 00|\n\
        00 00|00 00|00 00|00 00|00 00|00 00|00 00|00 00|00 00|00 00|00 00|00 00|\n\
        00 00|00 00|00 00|00 00|00 00|00 00|00 00|00 00|00 00|00 00|00 00|00 00|\n\
        00 00|00 00|00 00|00 00|00 00|00 00|00 00|00 00|00 00|00 00|00 00|00 00|\n\
        00 00|00 00|00 00|00 00|00 00|00 00|00 00|00 00|00 00|00 00|00 00|00 00|\n\
        20 07|20 07|20 07|20 07|20 07|20 07|20 07|20 07|20 07|20 07|20 07|20 07|\n"
    );
}

#[test]
fn home1() {
    let mut console = new_console();
    // Print 0 and replace it with a 1
    console.write_bstr(b"0\n\x1b[0;0H1\n");
    // We are on the second row
    assert_eq!(console.inner.row, 1);
    assert_eq!(console.inner.col, 0);
    // And the '1' has replaced the '0'
    assert_eq!(
        print_buffer(&console.buffer()),
        "\
        31 07|00 00|00 00|00 00|00 00|00 00|00 00|00 00|00 00|00 00|00 00|00 00|\n\
        00 00|00 00|00 00|00 00|00 00|00 00|00 00|00 00|00 00|00 00|00 00|00 00|\n\
        00 00|00 00|00 00|00 00|00 00|00 00|00 00|00 00|00 00|00 00|00 00|00 00|\n\
        00 00|00 00|00 00|00 00|00 00|00 00|00 00|00 00|00 00|00 00|00 00|00 00|\n\
        00 00|00 00|00 00|00 00|00 00|00 00|00 00|00 00|00 00|00 00|00 00|00 00|\n\
        00 00|00 00|00 00|00 00|00 00|00 00|00 00|00 00|00 00|00 00|00 00|00 00|\n\
        00 00|00 00|00 00|00 00|00 00|00 00|00 00|00 00|00 00|00 00|00 00|00 00|\n"
    );
}

#[test]
fn home2() {
    let mut console = new_console();
    // Print 0 and replace it with a 1
    console.write_bstr(b"0\n\x1b[1;1H1\n");
    // And the '1' has replaced the '0'
    assert_eq!(
        print_buffer(&console.buffer()),
        "\
        31 07|00 00|00 00|00 00|00 00|00 00|00 00|00 00|00 00|00 00|00 00|00 00|\n\
        00 00|00 00|00 00|00 00|00 00|00 00|00 00|00 00|00 00|00 00|00 00|00 00|\n\
        00 00|00 00|00 00|00 00|00 00|00 00|00 00|00 00|00 00|00 00|00 00|00 00|\n\
        00 00|00 00|00 00|00 00|00 00|00 00|00 00|00 00|00 00|00 00|00 00|00 00|\n\
        00 00|00 00|00 00|00 00|00 00|00 00|00 00|00 00|00 00|00 00|00 00|00 00|\n\
        00 00|00 00|00 00|00 00|00 00|00 00|00 00|00 00|00 00|00 00|00 00|00 00|\n\
        00 00|00 00|00 00|00 00|00 00|00 00|00 00|00 00|00 00|00 00|00 00|00 00|\n"
    );
}

#[test]
fn home3() {
    let mut console = new_console();
    // Print 0 and replace it with a 1
    console.write_bstr(b"0\n\x1b[H1\n");
    // The '1' has replaced the '0'
    assert_eq!(
        print_buffer(&console.buffer()),
        "\
        31 07|00 00|00 00|00 00|00 00|00 00|00 00|00 00|00 00|00 00|00 00|00 00|\n\
        00 00|00 00|00 00|00 00|00 00|00 00|00 00|00 00|00 00|00 00|00 00|00 00|\n\
        00 00|00 00|00 00|00 00|00 00|00 00|00 00|00 00|00 00|00 00|00 00|00 00|\n\
        00 00|00 00|00 00|00 00|00 00|00 00|00 00|00 00|00 00|00 00|00 00|00 00|\n\
        00 00|00 00|00 00|00 00|00 00|00 00|00 00|00 00|00 00|00 00|00 00|00 00|\n\
        00 00|00 00|00 00|00 00|00 00|00 00|00 00|00 00|00 00|00 00|00 00|00 00|\n\
        00 00|00 00|00 00|00 00|00 00|00 00|00 00|00 00|00 00|00 00|00 00|00 00|\n"
    );
    // We are on the second row
    assert_eq!(console.inner.row, 1);
    assert_eq!(console.inner.col, 0);
}

#[test]
fn movecursor() {
    let mut console = new_console();
    // Print 0 and replace it with a 1
    console.write_bstr(b"\x1b[2;2H1");
    assert_eq!(
        print_buffer(&console.buffer()),
        "\
        00 00|00 00|00 00|00 00|00 00|00 00|00 00|00 00|00 00|00 00|00 00|00 00|\n\
        00 00|31 07|00 00|00 00|00 00|00 00|00 00|00 00|00 00|00 00|00 00|00 00|\n\
        00 00|00 00|00 00|00 00|00 00|00 00|00 00|00 00|00 00|00 00|00 00|00 00|\n\
        00 00|00 00|00 00|00 00|00 00|00 00|00 00|00 00|00 00|00 00|00 00|00 00|\n\
        00 00|00 00|00 00|00 00|00 00|00 00|00 00|00 00|00 00|00 00|00 00|00 00|\n\
        00 00|00 00|00 00|00 00|00 00|00 00|00 00|00 00|00 00|00 00|00 00|00 00|\n\
        00 00|00 00|00 00|00 00|00 00|00 00|00 00|00 00|00 00|00 00|00 00|00 00|\n"
    );
    // We are on the second row
    assert_eq!(console.inner.row, 1);
    assert_eq!(console.inner.col, 2);
}

#[test]
fn sgr_reset() {
    let mut console = new_console();
    console.write_bstr(b"\x1b[0m1");
    assert_eq!(
        print_buffer(&console.buffer()),
        "\
        31 07|00 00|00 00|00 00|00 00|00 00|00 00|00 00|00 00|00 00|00 00|00 00|\n\
        00 00|00 00|00 00|00 00|00 00|00 00|00 00|00 00|00 00|00 00|00 00|00 00|\n\
        00 00|00 00|00 00|00 00|00 00|00 00|00 00|00 00|00 00|00 00|00 00|00 00|\n\
        00 00|00 00|00 00|00 00|00 00|00 00|00 00|00 00|00 00|00 00|00 00|00 00|\n\
        00 00|00 00|00 00|00 00|00 00|00 00|00 00|00 00|00 00|00 00|00 00|00 00|\n\
        00 00|00 00|00 00|00 00|00 00|00 00|00 00|00 00|00 00|00 00|00 00|00 00|\n\
        00 00|00 00|00 00|00 00|00 00|00 00|00 00|00 00|00 00|00 00|00 00|00 00|\n"
    );
    assert_eq!(console.inner.row, 0);
    assert_eq!(console.inner.col, 1);
}

#[test]
fn sgr_backgrounds() {
    let mut console = new_console();
    let colour_map = [
        "40", // Light Gray on Black
        "41", // Light Gray on Red
        "42", // Light Gray on Green
        "43", // Light Gray on Yellow
        "44", // Light Gray on Blue
        "45", // Light Gray on Magenta
        "46", // Light Gray on Cyan
        "47", // Light Gray on White
    ];

    for ansi in colour_map.iter() {
        console.write_bstr(b"\x1b[");
        console.write_bstr(ansi.as_bytes());
        console.write_bstr(b"m1");
    }

    assert_eq!(
        print_buffer(&console.buffer()),
        "\
        31 07|31 47|31 27|31 67|31 17|31 57|31 37|31 77|00 00|00 00|00 00|00 00|\n\
        00 00|00 00|00 00|00 00|00 00|00 00|00 00|00 00|00 00|00 00|00 00|00 00|\n\
        00 00|00 00|00 00|00 00|00 00|00 00|00 00|00 00|00 00|00 00|00 00|00 00|\n\
        00 00|00 00|00 00|00 00|00 00|00 00|00 00|00 00|00 00|00 00|00 00|00 00|\n\
        00 00|00 00|00 00|00 00|00 00|00 00|00 00|00 00|00 00|00 00|00 00|00 00|\n\
        00 00|00 00|00 00|00 00|00 00|00 00|00 00|00 00|00 00|00 00|00 00|00 00|\n\
        00 00|00 00|00 00|00 00|00 00|00 00|00 00|00 00|00 00|00 00|00 00|00 00|\n"
    );
}

#[test]
fn sgr_foregrounds() {
    let mut console = new_console();
    let colour_map = [
        "30", // Black on Black
        "31", // Red on Black
        "32", // Green on Black
        "33", // Yellow on Black
        "34", // Blue on Black
        "35", // Magenta on Black
        "36", // Cyan on Black
        "37", // White on Black
    ];

    for ansi in colour_map.iter() {
        console.write_bstr(b"\x1b[");
        console.write_bstr(ansi.as_bytes());
        console.write_bstr(b"m1");
    }

    assert_eq!(
        print_buffer(&console.buffer()),
        "\
        31 00|31 04|31 02|31 06|31 01|31 05|31 03|31 07|00 00|00 00|00 00|00 00|\n\
        00 00|00 00|00 00|00 00|00 00|00 00|00 00|00 00|00 00|00 00|00 00|00 00|\n\
        00 00|00 00|00 00|00 00|00 00|00 00|00 00|00 00|00 00|00 00|00 00|00 00|\n\
        00 00|00 00|00 00|00 00|00 00|00 00|00 00|00 00|00 00|00 00|00 00|00 00|\n\
        00 00|00 00|00 00|00 00|00 00|00 00|00 00|00 00|00 00|00 00|00 00|00 00|\n\
        00 00|00 00|00 00|00 00|00 00|00 00|00 00|00 00|00 00|00 00|00 00|00 00|\n\
        00 00|00 00|00 00|00 00|00 00|00 00|00 00|00 00|00 00|00 00|00 00|00 00|\n"
    );
}

#[test]
fn sgr_bold() {
    let mut console = new_console();
    let colour_map = [
        "30", // Bright Black on Black
        "31", // Bright Red on Black
        "32", // Bright Green on Black
        "33", // Bright Yellow on Black
        "34", // Bright Blue on Black
        "35", // Bright Magenta on Black
        "36", // Bright Cyan on Black
        "37", // Bright White on Black
    ];

    console.write_bstr(b"\x1b[1m");

    for ansi in colour_map.iter() {
        console.write_bstr(b"\x1b[");
        console.write_bstr(ansi.as_bytes());
        console.write_bstr(b"m1");
    }

    assert_eq!(
        print_buffer(&console.buffer()),
        "\
        31 08|31 0c|31 0a|31 0e|31 09|31 0d|31 0b|31 0f|00 00|00 00|00 00|00 00|\n\
        00 00|00 00|00 00|00 00|00 00|00 00|00 00|00 00|00 00|00 00|00 00|00 00|\n\
        00 00|00 00|00 00|00 00|00 00|00 00|00 00|00 00|00 00|00 00|00 00|00 00|\n\
        00 00|00 00|00 00|00 00|00 00|00 00|00 00|00 00|00 00|00 00|00 00|00 00|\n\
        00 00|00 00|00 00|00 00|00 00|00 00|00 00|00 00|00 00|00 00|00 00|00 00|\n\
        00 00|00 00|00 00|00 00|00 00|00 00|00 00|00 00|00 00|00 00|00 00|00 00|\n\
        00 00|00 00|00 00|00 00|00 00|00 00|00 00|00 00|00 00|00 00|00 00|00 00|\n"
    );
}

#[test]
fn sgr_all_three() {
    let mut console = new_console();
    let colour_map = [
        "1;40;37", // Bright White on Black
        "0",       // Default
        "33;44",   // Brown on Blue
    ];

    for ansi in colour_map.iter() {
        console.write_bstr(b"\x1b[");
        console.write_bstr(ansi.as_bytes());
        console.write_bstr(b"m1");
    }

    assert_eq!(
        print_buffer(&console.buffer()),
        "\
        31 0f|31 07|31 16|00 00|00 00|00 00|00 00|00 00|00 00|00 00|00 00|00 00|\n\
        00 00|00 00|00 00|00 00|00 00|00 00|00 00|00 00|00 00|00 00|00 00|00 00|\n\
        00 00|00 00|00 00|00 00|00 00|00 00|00 00|00 00|00 00|00 00|00 00|00 00|\n\
        00 00|00 00|00 00|00 00|00 00|00 00|00 00|00 00|00 00|00 00|00 00|00 00|\n\
        00 00|00 00|00 00|00 00|00 00|00 00|00 00|00 00|00 00|00 00|00 00|00 00|\n\
        00 00|00 00|00 00|00 00|00 00|00 00|00 00|00 00|00 00|00 00|00 00|00 00|\n\
        00 00|00 00|00 00|00 00|00 00|00 00|00 00|00 00|00 00|00 00|00 00|00 00|\n"
    );
}

#[test]
fn cursor_up() {
    let mut console = new_console();
    // Go home, print 0\n then go up a line and replace the 0 with a 1
    console.write_bstr(b"\x1b[H0\n\x1b[A1");
    assert_eq!(
        print_buffer(&console.buffer()),
        "\
        31 07|00 00|00 00|00 00|00 00|00 00|00 00|00 00|00 00|00 00|00 00|00 00|\n\
        00 00|00 00|00 00|00 00|00 00|00 00|00 00|00 00|00 00|00 00|00 00|00 00|\n\
        00 00|00 00|00 00|00 00|00 00|00 00|00 00|00 00|00 00|00 00|00 00|00 00|\n\
        00 00|00 00|00 00|00 00|00 00|00 00|00 00|00 00|00 00|00 00|00 00|00 00|\n\
        00 00|00 00|00 00|00 00|00 00|00 00|00 00|00 00|00 00|00 00|00 00|00 00|\n\
        00 00|00 00|00 00|00 00|00 00|00 00|00 00|00 00|00 00|00 00|00 00|00 00|\n\
        00 00|00 00|00 00|00 00|00 00|00 00|00 00|00 00|00 00|00 00|00 00|00 00|\n"
    );
    assert_eq!(console.inner.row, 0);
    assert_eq!(console.inner.col, 1);
    // Go home, print 0\n then go up a line and replace the 0 with a 2
    console.write_bstr(b"\x1b[H0\n\x1b[0A2");
    assert_eq!(
        print_buffer(&console.buffer()),
        "\
        32 07|00 00|00 00|00 00|00 00|00 00|00 00|00 00|00 00|00 00|00 00|00 00|\n\
        00 00|00 00|00 00|00 00|00 00|00 00|00 00|00 00|00 00|00 00|00 00|00 00|\n\
        00 00|00 00|00 00|00 00|00 00|00 00|00 00|00 00|00 00|00 00|00 00|00 00|\n\
        00 00|00 00|00 00|00 00|00 00|00 00|00 00|00 00|00 00|00 00|00 00|00 00|\n\
        00 00|00 00|00 00|00 00|00 00|00 00|00 00|00 00|00 00|00 00|00 00|00 00|\n\
        00 00|00 00|00 00|00 00|00 00|00 00|00 00|00 00|00 00|00 00|00 00|00 00|\n\
        00 00|00 00|00 00|00 00|00 00|00 00|00 00|00 00|00 00|00 00|00 00|00 00|\n"
    );
    assert_eq!(console.inner.row, 0);
    assert_eq!(console.inner.col, 1);
    // Go home, print 0\n then go up a line and replace the 0 with a 3
    console.write_bstr(b"\x1b[H0\n\x1b[1A3");
    assert_eq!(
        print_buffer(&console.buffer()),
        "\
        33 07|00 00|00 00|00 00|00 00|00 00|00 00|00 00|00 00|00 00|00 00|00 00|\n\
        00 00|00 00|00 00|00 00|00 00|00 00|00 00|00 00|00 00|00 00|00 00|00 00|\n\
        00 00|00 00|00 00|00 00|00 00|00 00|00 00|00 00|00 00|00 00|00 00|00 00|\n\
        00 00|00 00|00 00|00 00|00 00|00 00|00 00|00 00|00 00|00 00|00 00|00 00|\n\
        00 00|00 00|00 00|00 00|00 00|00 00|00 00|00 00|00 00|00 00|00 00|00 00|\n\
        00 00|00 00|00 00|00 00|00 00|00 00|00 00|00 00|00 00|00 00|00 00|00 00|\n\
        00 00|00 00|00 00|00 00|00 00|00 00|00 00|00 00|00 00|00 00|00 00|00 00|\n"
    );
    assert_eq!(console.inner.row, 0);
    assert_eq!(console.inner.col, 1);
    // Go home then print 40\n50\n60\n7 then go up two lines and replace the 0 of 50 with a 8
    console.write_bstr(b"\x1b[H40\n50\n60\n7\x1b[2A8");
    assert_eq!(
        print_buffer(&console.buffer()),
        "\
        34 07|30 07|00 00|00 00|00 00|00 00|00 00|00 00|00 00|00 00|00 00|00 00|\n\
        35 07|38 07|00 00|00 00|00 00|00 00|00 00|00 00|00 00|00 00|00 00|00 00|\n\
        36 07|30 07|00 00|00 00|00 00|00 00|00 00|00 00|00 00|00 00|00 00|00 00|\n\
        37 07|00 00|00 00|00 00|00 00|00 00|00 00|00 00|00 00|00 00|00 00|00 00|\n\
        00 00|00 00|00 00|00 00|00 00|00 00|00 00|00 00|00 00|00 00|00 00|00 00|\n\
        00 00|00 00|00 00|00 00|00 00|00 00|00 00|00 00|00 00|00 00|00 00|00 00|\n\
        00 00|00 00|00 00|00 00|00 00|00 00|00 00|00 00|00 00|00 00|00 00|00 00|\n"
    );
    assert_eq!(console.inner.row, 1);
    assert_eq!(console.inner.col, 2);
}

#[test]
fn cursor_down() {
    let mut console = new_console();
    // Go home, go down 1 line, and print 0
    console.write_bstr(b"\x1b[H\x1b[B0");
    assert_eq!(
        print_buffer(&console.buffer()),
        "\
        00 00|00 00|00 00|00 00|00 00|00 00|00 00|00 00|00 00|00 00|00 00|00 00|\n\
        30 07|00 00|00 00|00 00|00 00|00 00|00 00|00 00|00 00|00 00|00 00|00 00|\n\
        00 00|00 00|00 00|00 00|00 00|00 00|00 00|00 00|00 00|00 00|00 00|00 00|\n\
        00 00|00 00|00 00|00 00|00 00|00 00|00 00|00 00|00 00|00 00|00 00|00 00|\n\
        00 00|00 00|00 00|00 00|00 00|00 00|00 00|00 00|00 00|00 00|00 00|00 00|\n\
        00 00|00 00|00 00|00 00|00 00|00 00|00 00|00 00|00 00|00 00|00 00|00 00|\n\
        00 00|00 00|00 00|00 00|00 00|00 00|00 00|00 00|00 00|00 00|00 00|00 00|\n"
    );
    assert_eq!(console.inner.row, 1);
    assert_eq!(console.inner.col, 1);
    // go down 1 line, and print 1
    console.write_bstr(b"\x1b[0B1");
    assert_eq!(
        print_buffer(&console.buffer()),
        "\
        00 00|00 00|00 00|00 00|00 00|00 00|00 00|00 00|00 00|00 00|00 00|00 00|\n\
        30 07|00 00|00 00|00 00|00 00|00 00|00 00|00 00|00 00|00 00|00 00|00 00|\n\
        00 00|31 07|00 00|00 00|00 00|00 00|00 00|00 00|00 00|00 00|00 00|00 00|\n\
        00 00|00 00|00 00|00 00|00 00|00 00|00 00|00 00|00 00|00 00|00 00|00 00|\n\
        00 00|00 00|00 00|00 00|00 00|00 00|00 00|00 00|00 00|00 00|00 00|00 00|\n\
        00 00|00 00|00 00|00 00|00 00|00 00|00 00|00 00|00 00|00 00|00 00|00 00|\n\
        00 00|00 00|00 00|00 00|00 00|00 00|00 00|00 00|00 00|00 00|00 00|00 00|\n"
    );
    assert_eq!(console.inner.row, 2);
    assert_eq!(console.inner.col, 2);
    // go down 1 line, and print 2
    console.write_bstr(b"\x1b[1B2");
    assert_eq!(
        print_buffer(&console.buffer()),
        "\
        00 00|00 00|00 00|00 00|00 00|00 00|00 00|00 00|00 00|00 00|00 00|00 00|\n\
        30 07|00 00|00 00|00 00|00 00|00 00|00 00|00 00|00 00|00 00|00 00|00 00|\n\
        00 00|31 07|00 00|00 00|00 00|00 00|00 00|00 00|00 00|00 00|00 00|00 00|\n\
        00 00|00 00|32 07|00 00|00 00|00 00|00 00|00 00|00 00|00 00|00 00|00 00|\n\
        00 00|00 00|00 00|00 00|00 00|00 00|00 00|00 00|00 00|00 00|00 00|00 00|\n\
        00 00|00 00|00 00|00 00|00 00|00 00|00 00|00 00|00 00|00 00|00 00|00 00|\n\
        00 00|00 00|00 00|00 00|00 00|00 00|00 00|00 00|00 00|00 00|00 00|00 00|\n"
    );
    assert_eq!(console.inner.row, 3);
    assert_eq!(console.inner.col, 3);
    // go down 2 lines, and print 3
    console.write_bstr(b"\x1b[2B3");
    assert_eq!(
        print_buffer(&console.buffer()),
        "\
        00 00|00 00|00 00|00 00|00 00|00 00|00 00|00 00|00 00|00 00|00 00|00 00|\n\
        30 07|00 00|00 00|00 00|00 00|00 00|00 00|00 00|00 00|00 00|00 00|00 00|\n\
        00 00|31 07|00 00|00 00|00 00|00 00|00 00|00 00|00 00|00 00|00 00|00 00|\n\
        00 00|00 00|32 07|00 00|00 00|00 00|00 00|00 00|00 00|00 00|00 00|00 00|\n\
        00 00|00 00|00 00|00 00|00 00|00 00|00 00|00 00|00 00|00 00|00 00|00 00|\n\
        00 00|00 00|00 00|33 07|00 00|00 00|00 00|00 00|00 00|00 00|00 00|00 00|\n\
        00 00|00 00|00 00|00 00|00 00|00 00|00 00|00 00|00 00|00 00|00 00|00 00|\n"
    );
    assert_eq!(console.inner.row, 5);
    assert_eq!(console.inner.col, 4);
}

#[test]
fn cursor_forward() {
    let mut console = new_console();
    // Print .0.1.2..3
    console.write_bstr(b"\x1b[C0");
    console.write_bstr(b"\x1b[0C1");
    console.write_bstr(b"\x1b[1C2");
    console.write_bstr(b"\x1b[2C3");
    assert_eq!(
        print_buffer(&console.buffer()),
        "\
        00 00|30 07|00 00|31 07|00 00|32 07|00 00|00 00|33 07|00 00|00 00|00 00|\n\
        00 00|00 00|00 00|00 00|00 00|00 00|00 00|00 00|00 00|00 00|00 00|00 00|\n\
        00 00|00 00|00 00|00 00|00 00|00 00|00 00|00 00|00 00|00 00|00 00|00 00|\n\
        00 00|00 00|00 00|00 00|00 00|00 00|00 00|00 00|00 00|00 00|00 00|00 00|\n\
        00 00|00 00|00 00|00 00|00 00|00 00|00 00|00 00|00 00|00 00|00 00|00 00|\n\
        00 00|00 00|00 00|00 00|00 00|00 00|00 00|00 00|00 00|00 00|00 00|00 00|\n\
        00 00|00 00|00 00|00 00|00 00|00 00|00 00|00 00|00 00|00 00|00 00|00 00|\n"
    );
}

#[test]
fn cursor_backwards() {
    let mut console = new_console();
    // Print 123 then replace the 3 with a 4
    console.write_bstr(b"123\x1b[D4");
    assert_eq!(
        print_buffer(&console.buffer()),
        "\
        31 07|32 07|34 07|00 00|00 00|00 00|00 00|00 00|00 00|00 00|00 00|00 00|\n\
        00 00|00 00|00 00|00 00|00 00|00 00|00 00|00 00|00 00|00 00|00 00|00 00|\n\
        00 00|00 00|00 00|00 00|00 00|00 00|00 00|00 00|00 00|00 00|00 00|00 00|\n\
        00 00|00 00|00 00|00 00|00 00|00 00|00 00|00 00|00 00|00 00|00 00|00 00|\n\
        00 00|00 00|00 00|00 00|00 00|00 00|00 00|00 00|00 00|00 00|00 00|00 00|\n\
        00 00|00 00|00 00|00 00|00 00|00 00|00 00|00 00|00 00|00 00|00 00|00 00|\n\
        00 00|00 00|00 00|00 00|00 00|00 00|00 00|00 00|00 00|00 00|00 00|00 00|\n"
    );
    // Replace the 4 with a 5
    console.write_bstr(b"\x1b[0D5");
    assert_eq!(
        print_buffer(&console.buffer()),
        "\
        31 07|32 07|35 07|00 00|00 00|00 00|00 00|00 00|00 00|00 00|00 00|00 00|\n\
        00 00|00 00|00 00|00 00|00 00|00 00|00 00|00 00|00 00|00 00|00 00|00 00|\n\
        00 00|00 00|00 00|00 00|00 00|00 00|00 00|00 00|00 00|00 00|00 00|00 00|\n\
        00 00|00 00|00 00|00 00|00 00|00 00|00 00|00 00|00 00|00 00|00 00|00 00|\n\
        00 00|00 00|00 00|00 00|00 00|00 00|00 00|00 00|00 00|00 00|00 00|00 00|\n\
        00 00|00 00|00 00|00 00|00 00|00 00|00 00|00 00|00 00|00 00|00 00|00 00|\n\
        00 00|00 00|00 00|00 00|00 00|00 00|00 00|00 00|00 00|00 00|00 00|00 00|\n"
    );
    // Replace the 5 with a 6
    console.write_bstr(b"\x1b[1D6");
    assert_eq!(
        print_buffer(&console.buffer()),
        "\
        31 07|32 07|36 07|00 00|00 00|00 00|00 00|00 00|00 00|00 00|00 00|00 00|\n\
        00 00|00 00|00 00|00 00|00 00|00 00|00 00|00 00|00 00|00 00|00 00|00 00|\n\
        00 00|00 00|00 00|00 00|00 00|00 00|00 00|00 00|00 00|00 00|00 00|00 00|\n\
        00 00|00 00|00 00|00 00|00 00|00 00|00 00|00 00|00 00|00 00|00 00|00 00|\n\
        00 00|00 00|00 00|00 00|00 00|00 00|00 00|00 00|00 00|00 00|00 00|00 00|\n\
        00 00|00 00|00 00|00 00|00 00|00 00|00 00|00 00|00 00|00 00|00 00|00 00|\n\
        00 00|00 00|00 00|00 00|00 00|00 00|00 00|00 00|00 00|00 00|00 00|00 00|\n"
    );
    // Replace the 2 with a 7
    console.write_bstr(b"\x1b[2D7");
    assert_eq!(
        print_buffer(&console.buffer()),
        "\
        31 07|37 07|36 07|00 00|00 00|00 00|00 00|00 00|00 00|00 00|00 00|00 00|\n\
        00 00|00 00|00 00|00 00|00 00|00 00|00 00|00 00|00 00|00 00|00 00|00 00|\n\
        00 00|00 00|00 00|00 00|00 00|00 00|00 00|00 00|00 00|00 00|00 00|00 00|\n\
        00 00|00 00|00 00|00 00|00 00|00 00|00 00|00 00|00 00|00 00|00 00|00 00|\n\
        00 00|00 00|00 00|00 00|00 00|00 00|00 00|00 00|00 00|00 00|00 00|00 00|\n\
        00 00|00 00|00 00|00 00|00 00|00 00|00 00|00 00|00 00|00 00|00 00|00 00|\n\
        00 00|00 00|00 00|00 00|00 00|00 00|00 00|00 00|00 00|00 00|00 00|00 00|\n"
    );
}

#[test]
fn cursor_next_line() {
    let mut console = new_console();
    // Go home, print xxx, go down 1 line, and print 0
    console.write_bstr(b"\x1b[Hxxx\x1b[E0");
    // We should have returned to col 0 for the '0' so are in col 1
    assert_eq!(
        print_buffer(&console.buffer()),
        "\
        78 07|78 07|78 07|00 00|00 00|00 00|00 00|00 00|00 00|00 00|00 00|00 00|\n\
        30 07|00 00|00 00|00 00|00 00|00 00|00 00|00 00|00 00|00 00|00 00|00 00|\n\
        00 00|00 00|00 00|00 00|00 00|00 00|00 00|00 00|00 00|00 00|00 00|00 00|\n\
        00 00|00 00|00 00|00 00|00 00|00 00|00 00|00 00|00 00|00 00|00 00|00 00|\n\
        00 00|00 00|00 00|00 00|00 00|00 00|00 00|00 00|00 00|00 00|00 00|00 00|\n\
        00 00|00 00|00 00|00 00|00 00|00 00|00 00|00 00|00 00|00 00|00 00|00 00|\n\
        00 00|00 00|00 00|00 00|00 00|00 00|00 00|00 00|00 00|00 00|00 00|00 00|\n"
    );
    assert_eq!(console.inner.row, 1);
    assert_eq!(console.inner.col, 1);
    // go down 1 line, and print 1
    console.write_bstr(b"xxx\x1b[0E1");
    assert_eq!(
        print_buffer(&console.buffer()),
        "\
        78 07|78 07|78 07|00 00|00 00|00 00|00 00|00 00|00 00|00 00|00 00|00 00|\n\
        30 07|78 07|78 07|78 07|00 00|00 00|00 00|00 00|00 00|00 00|00 00|00 00|\n\
        31 07|00 00|00 00|00 00|00 00|00 00|00 00|00 00|00 00|00 00|00 00|00 00|\n\
        00 00|00 00|00 00|00 00|00 00|00 00|00 00|00 00|00 00|00 00|00 00|00 00|\n\
        00 00|00 00|00 00|00 00|00 00|00 00|00 00|00 00|00 00|00 00|00 00|00 00|\n\
        00 00|00 00|00 00|00 00|00 00|00 00|00 00|00 00|00 00|00 00|00 00|00 00|\n\
        00 00|00 00|00 00|00 00|00 00|00 00|00 00|00 00|00 00|00 00|00 00|00 00|\n"
    );
    assert_eq!(console.inner.row, 2);
    assert_eq!(console.inner.col, 1);
    // go down 1 line, and print 2
    console.write_bstr(b"xxx\x1b[1E2");
    assert_eq!(
        print_buffer(&console.buffer()),
        "\
        78 07|78 07|78 07|00 00|00 00|00 00|00 00|00 00|00 00|00 00|00 00|00 00|\n\
        30 07|78 07|78 07|78 07|00 00|00 00|00 00|00 00|00 00|00 00|00 00|00 00|\n\
        31 07|78 07|78 07|78 07|00 00|00 00|00 00|00 00|00 00|00 00|00 00|00 00|\n\
        32 07|00 00|00 00|00 00|00 00|00 00|00 00|00 00|00 00|00 00|00 00|00 00|\n\
        00 00|00 00|00 00|00 00|00 00|00 00|00 00|00 00|00 00|00 00|00 00|00 00|\n\
        00 00|00 00|00 00|00 00|00 00|00 00|00 00|00 00|00 00|00 00|00 00|00 00|\n\
        00 00|00 00|00 00|00 00|00 00|00 00|00 00|00 00|00 00|00 00|00 00|00 00|\n"
    );
    assert_eq!(console.inner.row, 3);
    assert_eq!(console.inner.col, 1);
    // go down 2 lines, and print 3
    console.write_bstr(b"xxx\x1b[2E3");
    assert_eq!(
        print_buffer(&console.buffer()),
        "\
        78 07|78 07|78 07|00 00|00 00|00 00|00 00|00 00|00 00|00 00|00 00|00 00|\n\
        30 07|78 07|78 07|78 07|00 00|00 00|00 00|00 00|00 00|00 00|00 00|00 00|\n\
        31 07|78 07|78 07|78 07|00 00|00 00|00 00|00 00|00 00|00 00|00 00|00 00|\n\
        32 07|78 07|78 07|78 07|00 00|00 00|00 00|00 00|00 00|00 00|00 00|00 00|\n\
        00 00|00 00|00 00|00 00|00 00|00 00|00 00|00 00|00 00|00 00|00 00|00 00|\n\
        33 07|00 00|00 00|00 00|00 00|00 00|00 00|00 00|00 00|00 00|00 00|00 00|\n\
        00 00|00 00|00 00|00 00|00 00|00 00|00 00|00 00|00 00|00 00|00 00|00 00|\n"
    );
    assert_eq!(console.inner.row, 5);
    assert_eq!(console.inner.col, 1);
}

#[test]
fn cursor_previous_line() {
    let mut console = new_console();
    // Print xx, xx, 11, 22, 33, 456 on the first five lines
    // Then go back and replace 4 with 7, 3 with 8, 2 with 9 and the first x with 0
    console.write_bstr(b"xx\nxx\n11\n22\n33\n456\x1b[F7\x1b[0F8\x1b[1F9\x1b[2F0");
    // We should be back up on the top row
    assert_eq!(
        print_buffer(&console.buffer()),
        "\
        30 07|78 07|00 00|00 00|00 00|00 00|00 00|00 00|00 00|00 00|00 00|00 00|\n\
        78 07|78 07|00 00|00 00|00 00|00 00|00 00|00 00|00 00|00 00|00 00|00 00|\n\
        39 07|31 07|00 00|00 00|00 00|00 00|00 00|00 00|00 00|00 00|00 00|00 00|\n\
        38 07|32 07|00 00|00 00|00 00|00 00|00 00|00 00|00 00|00 00|00 00|00 00|\n\
        37 07|33 07|00 00|00 00|00 00|00 00|00 00|00 00|00 00|00 00|00 00|00 00|\n\
        34 07|35 07|36 07|00 00|00 00|00 00|00 00|00 00|00 00|00 00|00 00|00 00|\n\
        00 00|00 00|00 00|00 00|00 00|00 00|00 00|00 00|00 00|00 00|00 00|00 00|\n"
    );
    assert_eq!(console.inner.row, 0);
    assert_eq!(console.inner.col, 1);
}

#[test]
fn cursor_horizontal_absolute() {
    let mut console = new_console();
    // Print 12345 the replace the 3 with a 9
    console.write_bstr(b"12345\x1b[3G9");
    assert_eq!(
        print_buffer(&console.buffer()),
        "\
        31 07|32 07|39 07|34 07|35 07|00 00|00 00|00 00|00 00|00 00|00 00|00 00|\n\
        00 00|00 00|00 00|00 00|00 00|00 00|00 00|00 00|00 00|00 00|00 00|00 00|\n\
        00 00|00 00|00 00|00 00|00 00|00 00|00 00|00 00|00 00|00 00|00 00|00 00|\n\
        00 00|00 00|00 00|00 00|00 00|00 00|00 00|00 00|00 00|00 00|00 00|00 00|\n\
        00 00|00 00|00 00|00 00|00 00|00 00|00 00|00 00|00 00|00 00|00 00|00 00|\n\
        00 00|00 00|00 00|00 00|00 00|00 00|00 00|00 00|00 00|00 00|00 00|00 00|\n\
        00 00|00 00|00 00|00 00|00 00|00 00|00 00|00 00|00 00|00 00|00 00|00 00|\n"
    );
    assert_eq!(console.inner.row, 0);
    assert_eq!(console.inner.col, 3);
}

#[test]
fn cursor_position() {
    let mut console = new_console();
    // In row;col form.
    console.write_bstr(b"xxx\x1b[H0\x1b[;3H1\x1b[2;H2\x1b[3;4H3");
    // the 4 should be in the right-hand column, and the 5 should wrap
    // around and start on the next row.
    console.write_bstr(format!("\x1b[4;{}H45", WIDTH).as_bytes());
    assert_eq!(
        print_buffer(&console.buffer()),
        "\
        30 07|78 07|31 07|00 00|00 00|00 00|00 00|00 00|00 00|00 00|00 00|00 00|\n\
        32 07|00 00|00 00|00 00|00 00|00 00|00 00|00 00|00 00|00 00|00 00|00 00|\n\
        00 00|00 00|00 00|33 07|00 00|00 00|00 00|00 00|00 00|00 00|00 00|00 00|\n\
        00 00|00 00|00 00|00 00|00 00|00 00|00 00|00 00|00 00|00 00|00 00|34 07|\n\
        35 07|00 00|00 00|00 00|00 00|00 00|00 00|00 00|00 00|00 00|00 00|00 00|\n\
        00 00|00 00|00 00|00 00|00 00|00 00|00 00|00 00|00 00|00 00|00 00|00 00|\n\
        00 00|00 00|00 00|00 00|00 00|00 00|00 00|00 00|00 00|00 00|00 00|00 00|\n"
    );
    assert_eq!(console.inner.row, 4);
    assert_eq!(console.inner.col, 1);
}

#[test]
fn erase_in_display_cursor_to_end() {
    let mut console = new_console();
    console.write_bstr(b"xxx\nxxx\n\x1b[2;2H");
    assert_eq!(console.inner.row, 1);
    assert_eq!(console.inner.col, 1);
    console.write_bstr(b"\x1b[0J");
    assert_eq!(
        print_buffer(&console.buffer()),
        "\
        78 07|78 07|78 07|00 00|00 00|00 00|00 00|00 00|00 00|00 00|00 00|00 00|\n\
        78 07|20 07|20 07|20 07|20 07|20 07|20 07|20 07|20 07|20 07|20 07|20 07|\n\
        20 07|20 07|20 07|20 07|20 07|20 07|20 07|20 07|20 07|20 07|20 07|20 07|\n\
        20 07|20 07|20 07|20 07|20 07|20 07|20 07|20 07|20 07|20 07|20 07|20 07|\n\
        20 07|20 07|20 07|20 07|20 07|20 07|20 07|20 07|20 07|20 07|20 07|20 07|\n\
        20 07|20 07|20 07|20 07|20 07|20 07|20 07|20 07|20 07|20 07|20 07|20 07|\n\
        20 07|20 07|20 07|20 07|20 07|20 07|20 07|20 07|20 07|20 07|20 07|20 07|\n"
    );
    assert_eq!(console.inner.row, 1);
    assert_eq!(console.inner.col, 1);
}

#[test]
fn erase_in_display_start_to_cursor() {
    let mut console = new_console();
    console.write_bstr(b"xxx\nxxx\n\x1b[2;2H");
    assert_eq!(console.inner.row, 1);
    assert_eq!(console.inner.col, 1);
    console.write_bstr(b"\x1b[1J");
    assert_eq!(
        print_buffer(&console.buffer()),
        "\
        20 07|20 07|20 07|20 07|20 07|20 07|20 07|20 07|20 07|20 07|20 07|20 07|\n\
        20 07|20 07|78 07|00 00|00 00|00 00|00 00|00 00|00 00|00 00|00 00|00 00|\n\
        00 00|00 00|00 00|00 00|00 00|00 00|00 00|00 00|00 00|00 00|00 00|00 00|\n\
        00 00|00 00|00 00|00 00|00 00|00 00|00 00|00 00|00 00|00 00|00 00|00 00|\n\
        00 00|00 00|00 00|00 00|00 00|00 00|00 00|00 00|00 00|00 00|00 00|00 00|\n\
        00 00|00 00|00 00|00 00|00 00|00 00|00 00|00 00|00 00|00 00|00 00|00 00|\n\
        00 00|00 00|00 00|00 00|00 00|00 00|00 00|00 00|00 00|00 00|00 00|00 00|\n"
    );
    assert_eq!(console.inner.row, 1);
    assert_eq!(console.inner.col, 1);
}

#[test]
fn erase_in_display_entire_screen() {
    let mut console = new_console();
    console.write_bstr(b"xxx\nxxx\n\x1b[2;2H");
    assert_eq!(console.inner.row, 1);
    assert_eq!(console.inner.col, 1);
    console.write_bstr(b"\x1b[2J");
    assert_eq!(
        print_buffer(&console.buffer()),
        "\
        20 07|20 07|20 07|20 07|20 07|20 07|20 07|20 07|20 07|20 07|20 07|20 07|\n\
        20 07|20 07|20 07|20 07|20 07|20 07|20 07|20 07|20 07|20 07|20 07|20 07|\n\
        20 07|20 07|20 07|20 07|20 07|20 07|20 07|20 07|20 07|20 07|20 07|20 07|\n\
        20 07|20 07|20 07|20 07|20 07|20 07|20 07|20 07|20 07|20 07|20 07|20 07|\n\
        20 07|20 07|20 07|20 07|20 07|20 07|20 07|20 07|20 07|20 07|20 07|20 07|\n\
        20 07|20 07|20 07|20 07|20 07|20 07|20 07|20 07|20 07|20 07|20 07|20 07|\n\
        20 07|20 07|20 07|20 07|20 07|20 07|20 07|20 07|20 07|20 07|20 07|20 07|\n"
    );
    assert_eq!(console.inner.row, 1);
    assert_eq!(console.inner.col, 1);
}

#[test]
fn erase_in_line_cursor_to_end() {
    let mut console = new_console();
    console.write_bstr(b"xxx\nxxx\n\x1b[2;2H");
    assert_eq!(console.inner.row, 1);
    assert_eq!(console.inner.col, 1);
    console.write_bstr(b"\x1b[0K");
    assert_eq!(
        print_buffer(&console.buffer()),
        "\
        78 07|78 07|78 07|00 00|00 00|00 00|00 00|00 00|00 00|00 00|00 00|00 00|\n\
        78 07|20 07|20 07|20 07|20 07|20 07|20 07|20 07|20 07|20 07|20 07|20 07|\n\
        00 00|00 00|00 00|00 00|00 00|00 00|00 00|00 00|00 00|00 00|00 00|00 00|\n\
        00 00|00 00|00 00|00 00|00 00|00 00|00 00|00 00|00 00|00 00|00 00|00 00|\n\
        00 00|00 00|00 00|00 00|00 00|00 00|00 00|00 00|00 00|00 00|00 00|00 00|\n\
        00 00|00 00|00 00|00 00|00 00|00 00|00 00|00 00|00 00|00 00|00 00|00 00|\n\
        00 00|00 00|00 00|00 00|00 00|00 00|00 00|00 00|00 00|00 00|00 00|00 00|\n"
    );
    assert_eq!(console.inner.row, 1);
    assert_eq!(console.inner.col, 1);
}

#[test]
fn erase_in_line_start_to_cursor() {
    let mut console = new_console();
    console.write_bstr(b"xxx\nxxx\n\x1b[2;2H");
    assert_eq!(console.inner.row, 1);
    assert_eq!(console.inner.col, 1);
    console.write_bstr(b"\x1b[1K");
    assert_eq!(
        print_buffer(&console.buffer()),
        "\
        78 07|78 07|78 07|00 00|00 00|00 00|00 00|00 00|00 00|00 00|00 00|00 00|\n\
        20 07|20 07|78 07|00 00|00 00|00 00|00 00|00 00|00 00|00 00|00 00|00 00|\n\
        00 00|00 00|00 00|00 00|00 00|00 00|00 00|00 00|00 00|00 00|00 00|00 00|\n\
        00 00|00 00|00 00|00 00|00 00|00 00|00 00|00 00|00 00|00 00|00 00|00 00|\n\
        00 00|00 00|00 00|00 00|00 00|00 00|00 00|00 00|00 00|00 00|00 00|00 00|\n\
        00 00|00 00|00 00|00 00|00 00|00 00|00 00|00 00|00 00|00 00|00 00|00 00|\n\
        00 00|00 00|00 00|00 00|00 00|00 00|00 00|00 00|00 00|00 00|00 00|00 00|\n"
    );
    assert_eq!(console.inner.row, 1);
    assert_eq!(console.inner.col, 1);
}

#[test]
fn erase_in_line_entire_line() {
    let mut console = new_console();
    console.write_bstr(b"xxx\nxxx\n\x1b[2;2H");
    assert_eq!(console.inner.row, 1);
    assert_eq!(console.inner.col, 1);
    console.write_bstr(b"\x1b[2K");
    assert_eq!(
        print_buffer(&console.buffer()),
        "\
        78 07|78 07|78 07|00 00|00 00|00 00|00 00|00 00|00 00|00 00|00 00|00 00|\n\
        20 07|20 07|20 07|20 07|20 07|20 07|20 07|20 07|20 07|20 07|20 07|20 07|\n\
        00 00|00 00|00 00|00 00|00 00|00 00|00 00|00 00|00 00|00 00|00 00|00 00|\n\
        00 00|00 00|00 00|00 00|00 00|00 00|00 00|00 00|00 00|00 00|00 00|00 00|\n\
        00 00|00 00|00 00|00 00|00 00|00 00|00 00|00 00|00 00|00 00|00 00|00 00|\n\
        00 00|00 00|00 00|00 00|00 00|00 00|00 00|00 00|00 00|00 00|00 00|00 00|\n\
        00 00|00 00|00 00|00 00|00 00|00 00|00 00|00 00|00 00|00 00|00 00|00 00|\n"
    );
    assert_eq!(console.inner.row, 1);
    assert_eq!(console.inner.col, 1);
}

#[test]
fn overwrite_scenario() {
    // Writing one digit per line for one more line than the screen has rows
    // scrolls exactly once: the first digit is gone, the second sits on the
    // top row, and the cursor rests logically one row past the bottom.
    let mut console = new_console();
    console.write_bstr(b"0\n1\n\n\n\n\n\n\n");
    let buffer = console.buffer();
    assert_eq!(buffer[0], b'1');
    for cell in 1..WIDTH * HEIGHT {
        assert_ne!(buffer[2 * cell], b'0');
        assert_ne!(buffer[2 * cell], b'1');
    }
    assert_eq!(console.inner.row, HEIGHT);
    assert_eq!(console.inner.col, 0);
}

#[test]
fn scroll_shifts_lines_up_once() {
    // Writing height+1 lines of distinct characters leaves lines two onward
    // shifted up one row and the first line's character nowhere on screen.
    let mut console = new_console();
    let chars = [b'a', b'b', b'c', b'd', b'e', b'f', b'g', b'h'];
    assert_eq!(chars.len(), HEIGHT + 1);
    for ch in chars.iter() {
        console.write_bstr(&[*ch, b'\n']);
    }
    let buffer = console.buffer();
    for row in 0..HEIGHT {
        assert_eq!(buffer[2 * (row * WIDTH)], chars[row + 1]);
    }
    for cell in 0..WIDTH * HEIGHT {
        assert_ne!(buffer[2 * cell], b'a');
    }
}

#[test]
fn lazy_column_wrap() {
    // Writing exactly one full row leaves the cursor logically one past the
    // last column, with nothing scrolled; the next character wraps first.
    let mut console = new_console();
    console.write_bstr(b"abcdefghijkl");
    assert_eq!(console.inner.row, 0);
    assert_eq!(console.inner.col, WIDTH);
    console.write_bstr(b"m");
    assert_eq!(console.inner.row, 1);
    assert_eq!(console.inner.col, 1);
    let buffer = console.buffer();
    assert_eq!(buffer[2 * WIDTH], b'm');
    assert_eq!(buffer[0], b'a');
    assert_eq!(buffer[2 * (WIDTH - 1)], b'l');
}

#[test]
fn reverse_video_round_trip() {
    // Reverse video swaps the colours written, but resetting it restores the
    // original colours exactly for the next character.
    let mut console = new_console();
    console.write_bstr(b"a\x1b[7mb\x1b[mc");
    let buffer = console.buffer();
    assert_eq!(buffer[0], b'a');
    assert_eq!(buffer[1], 0x07);
    assert_eq!(buffer[2], b'b');
    assert_eq!(buffer[3], 0x70); // black on light gray: swapped
    assert_eq!(buffer[4], b'c');
    assert_eq!(buffer[5], 0x07); // the original attribute again
}

#[test]
fn clear_blanks_everything() {
    let mut console = new_console();
    console.write_bstr(b"hello\nworld");
    console.clear();
    let buffer = console.buffer();
    for cell in 0..WIDTH * HEIGHT {
        assert_eq!(buffer[2 * cell], 0x20);
        assert_eq!(buffer[2 * cell + 1], 0x07);
    }
    assert_eq!(console.inner.row, 0);
    assert_eq!(console.inner.col, 0);
    // Clearing again changes nothing.
    console.clear();
    let again = console.buffer();
    assert_eq!(buffer, again);
}

#[test]
fn change_mode_resets_geometry() {
    let mut console = new_console();
    console.write_bstr(b"hello");
    console.change_mode(8, 4);
    assert_eq!(console.inner.width, 8);
    assert_eq!(console.inner.height, 4);
    assert_eq!(console.inner.row, 0);
    assert_eq!(console.inner.col, 0);
    let buffer = console.buffer();
    assert_eq!(buffer.len(), 8 * 4 * 2);
    for cell in 0..8 * 4 {
        assert_eq!(buffer[2 * cell], 0x20);
        assert_eq!(buffer[2 * cell + 1], 0x07);
    }
}

#[test]
fn cursor_overlay_is_reversible() {
    let mut console = new_console();
    // Turn the DEC private cursor mode on: the overlay draws an underscore at
    // the cursor after each batch, remembering what it covered.
    console.write_bstr(b"ab\x1b[?25h");
    let buffer = console.buffer();
    assert_eq!(buffer[2 * 2], b'_');
    // The next batch first restores the covered cell, so the glyphs printed
    // land exactly where they would have without the overlay.
    console.write_bstr(b"c");
    let buffer = console.buffer();
    assert_eq!(buffer[2 * 2], b'c');
    assert_eq!(buffer[2 * 3], b'_');
    // Turning the cursor back off and writing nothing more leaves no
    // underscore behind.
    console.write_bstr(b"\x1b[?25l");
    console.write_bstr(b"");
    let buffer = console.buffer();
    assert_ne!(buffer[2 * 4], b'_');
}

#[test]
fn utf8_text_maps_to_code_page() {
    let mut console = new_console();
    // A pound sign arrives as two UTF-8 bytes and lands as one glyph.
    console.write_bstr(b"\xc2\xa3 5");
    let buffer = console.buffer();
    assert_eq!(buffer[0], 156);
    assert_eq!(buffer[2], b' ');
    assert_eq!(buffer[4], b'5');
    // An unmapped scalar value becomes a question mark.
    let mut console = new_console();
    console.write_bstr("\u{4E8C}".as_bytes());
    let buffer = console.buffer();
    assert_eq!(buffer[0], b'?');
}
