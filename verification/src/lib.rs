//! Core of a small text-mode operating system: a VGA-style text console that
//! interprets a byte stream of UTF-8 text and ANSI escape sequences into a
//! character-cell buffer, and the program area that stages, loads and runs one
//! foreign program at a time.

use vstd::prelude::*;

pub mod ansi;
pub mod attr;
pub mod charmap;
pub mod config;
pub mod console;
pub mod glyph;
pub mod hostapi;
pub mod laws;
pub mod loader;
pub mod numparse;
pub mod program;
pub mod refcell;
pub mod source;
pub mod vga;

verus! {

/// The context the command dispatcher threads through the system: the stored
/// configuration, the Transient Program Area, and the open-handle table of
/// whatever program is running.
pub struct Ctx {
    pub config: config::Config,
    pub tpa: program::TransientProgramArea,
    pub handles: program::HandleTable,
}

impl Ctx {
    /// A fresh context: the given configuration, a program area over the
    /// given memory region, and every handle closed.
    pub fn new(config: config::Config, start: u32, length_in_bytes: usize) -> (r: Ctx)
        requires
            start % 4 == 0,
            start + length_in_bytes <= u32::MAX,
        ensures
            r.config == config,
            r.tpa.wf(),
            r.tpa.base == start,
            r.tpa.last_entry == 0,
            r.handles.wf(),
            forall|i: int|
                0 <= i < program::HANDLE_COUNT ==> r.handles@[i] == program::OpenHandle::Closed,
    {
        Ctx {
            config,
            tpa: program::TransientProgramArea::new(start, length_in_bytes),
            handles: program::HandleTable::new(),
        }
    }
}

} // verus!
