//! The persistently stored system configuration: whether to drive the VGA
//! console and whether (and how fast) to drive the serial console. The
//! surrounding application serializes this to and from the firmware's
//! configuration store; here live the settings themselves and the rules for
//! reading them.

use vstd::prelude::*;

verus! {

/// How many data bits the serial console uses.
#[derive(Clone, Copy, PartialEq, Eq, Structural, Debug)]
pub enum DataBits {
    Seven,
    Eight,
}

/// How many stop bits the serial console uses.
#[derive(Clone, Copy, PartialEq, Eq, Structural, Debug)]
pub enum StopBits {
    One,
    Two,
}

/// The parity setting of the serial console.
#[derive(Clone, Copy, PartialEq, Eq, Structural, Debug)]
pub enum Parity {
    Odd,
    Even,
    NoParity,
}

/// The handshaking setting of the serial console.
#[derive(Clone, Copy, PartialEq, Eq, Structural, Debug)]
pub enum Handshaking {
    NoHandshake,
    RtsCts,
}

/// A full serial-port configuration.
#[derive(Clone, Copy, PartialEq, Eq, Structural, Debug)]
pub struct SerialConfig {
    pub data_rate_bps: u32,
    pub data_bits: DataBits,
    pub stop_bits: StopBits,
    pub parity: Parity,
    pub handshaking: Handshaking,
}

/// The configuration the system saves and restores.
#[derive(Clone, Copy, PartialEq, Eq, Structural, Debug)]
pub struct Config {
    /// The video mode number for the VGA console, or none to leave it off.
    pub vga_console: Option<u8>,
    /// Whether the serial console is on.
    pub serial_console: bool,
    /// The data rate of the serial console, in bits per second.
    pub serial_baud: u32,
}

impl Config {
    /// Which video mode this system's VGA console should use, if any.
    pub fn get_vga_console(&self) -> (r: Option<u8>)
        ensures
            r == self.vga_console,
    {
        self.vga_console
    }

    /// Set whether (and in which video mode) to use the VGA console.
    pub fn set_vga_console(&mut self, new_value: Option<u8>)
        ensures
            *final(self) == (Config { vga_console: new_value, ..*old(self) }),
    {
        self.vga_console = new_value;
    }

    /// The serial console to configure, if any: the port number and its full
    /// settings, always eight data bits, one stop bit, no parity and no
    /// handshaking at the stored rate.
    pub fn get_serial_console(&self) -> (r: Option<(u8, SerialConfig)>)
        ensures
            self.serial_console ==> r == Some(
                (
                    0u8,
                    SerialConfig {
                        data_rate_bps: self.serial_baud,
                        data_bits: DataBits::Eight,
                        stop_bits: StopBits::One,
                        parity: Parity::NoParity,
                        handshaking: Handshaking::NoHandshake,
                    },
                ),
            ),
            !self.serial_console ==> r is None,
    {
        if self.serial_console {
            Some(
                (
                    0,
                    SerialConfig {
                        data_rate_bps: self.serial_baud,
                        data_bits: DataBits::Eight,
                        stop_bits: StopBits::One,
                        parity: Parity::NoParity,
                        handshaking: Handshaking::NoHandshake,
                    },
                ),
            )
        } else {
            None
        }
    }

    /// Turn the serial console off.
    pub fn set_serial_console_off(&mut self)
        ensures
            *final(self) == (Config { serial_console: false, serial_baud: 0, ..*old(self) }),
    {
        self.serial_console = false;
        self.serial_baud = 0;
    }

    /// Turn the serial console on at the given rate.
    pub fn set_serial_console_on(&mut self, serial_baud: u32)
        ensures
            *final(self) == (Config { serial_console: true, serial_baud, ..*old(self) }),
    {
        self.serial_console = true;
        self.serial_baud = serial_baud;
    }
}

impl Default for Config {
    /// The configuration used when none was stored: VGA console in the
    /// default mode, serial console off, with the customary rate remembered.
    fn default() -> (r: Config)
        ensures
            r == (Config { vga_console: Some(0u8), serial_console: false, serial_baud: 115200u32 }),
    {
        Config { vga_console: Some(0), serial_console: false, serial_baud: 115200 }
    }
}

} // verus!
