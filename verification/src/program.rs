//! Program staging and execution: the Transient Program Area, the open-handle
//! table, and the one-shot transfer of control to a loaded program.
//!
//! The Transient Program Area is one fixed contiguous memory region. A program
//! image is staged into its bottom; a working buffer can be carved off its top
//! with `steal_top` and given back with `restore_top`. Only one program is
//! resident at a time.

use vstd::prelude::*;

verus! {

/// How many open handles a program may hold at once.
pub const HANDLE_COUNT: usize = 8;

/// An error from the filesystem collaborator, reduced to what the program
/// loading and execution logic distinguishes.
#[derive(Clone, Copy, PartialEq, Eq, Structural, Debug)]
pub enum FsError {
    /// The named file does not exist.
    NotFound,
    /// Any other input/output failure.
    DeviceError,
}

/// A failure while parsing a program image.
#[derive(Clone, Copy, PartialEq, Eq, Structural, Debug)]
pub enum ElfError {
    /// The image does not begin with the executable-format magic.
    NotAnElf,
    /// The image is the wrong class, byte order, type or machine.
    WrongElf,
    /// A header or segment lies beyond the end of the image.
    Truncated,
}

/// Ways in which loading or running a program can fail.
#[derive(Clone, Copy, PartialEq, Eq, Structural, Debug)]
pub enum Error {
    /// The program image is too large for the program area.
    ProgramTooLarge,
    /// The filesystem collaborator failed.
    Filesystem(FsError),
    /// The program image is malformed.
    Elf(ElfError),
    /// Tried to run when nothing was loaded.
    NothingLoaded,
    /// A segment or entry point lies outside the program area.
    BadAddress,
}

/// The different kinds of state each open handle can be in.
#[derive(Clone, Copy, PartialEq, Eq, Structural, Debug)]
pub enum OpenHandle {
    /// Standard input.
    StdIn,
    /// Standard output.
    Stdout,
    /// Standard error.
    StdErr,
    /// An open file in the filesystem, named by the key under which the
    /// filesystem collaborator knows it.
    File(u32),
    /// A closed handle; the default state.
    Closed,
    /// The audio device.
    Audio,
}

/// The open handle table, indexed by the small integers a program uses as
/// file descriptors.
pub struct HandleTable {
    pub slots: Vec<OpenHandle>,
}

impl View for HandleTable {
    type V = Seq<OpenHandle>;

    open spec fn view(&self) -> Seq<OpenHandle> {
        self.slots@
    }
}

impl HandleTable {
    /// The table always has exactly its fixed capacity of slots.
    pub open spec fn wf(self) -> bool {
        self@.len() == HANDLE_COUNT
    }

    /// A fresh table with every handle closed.
    pub fn new() -> (r: HandleTable)
        ensures
            r.wf(),
            forall|i: int| 0 <= i < HANDLE_COUNT ==> r@[i] == OpenHandle::Closed,
    {
        let mut slots: Vec<OpenHandle> = Vec::new();
        let mut i: usize = 0;
        while i < HANDLE_COUNT
            invariant
                i <= HANDLE_COUNT,
                slots@.len() == i,
                forall|k: int| 0 <= k < i ==> slots@[k] == OpenHandle::Closed,
            decreases HANDLE_COUNT - i,
        {
            slots.push(OpenHandle::Closed);
            i = i + 1;
        }
        HandleTable { slots }
    }

    /// The handle at `idx`.
    pub fn get(&self, idx: usize) -> (r: OpenHandle)
        requires
            self.wf(),
            idx < HANDLE_COUNT,
        ensures
            r == self@[idx as int],
    {
        self.slots[idx]
    }

    /// Replace the handle at `idx`.
    pub fn set(&mut self, idx: usize, h: OpenHandle)
        requires
            old(self).wf(),
            idx < HANDLE_COUNT,
        ensures
            final(self)@ == old(self)@.update(idx as int, h),
            final(self).wf(),
    {
        self.slots.set(idx, h);
    }

    /// Store an open handle in the first closed slot, or give it back if the
    /// table is full.
    pub fn allocate(&mut self, h: OpenHandle) -> (r: Result<usize, OpenHandle>)
        requires
            old(self).wf(),
        ensures
            final(self).wf(),
            match r {
                Ok(idx) => {
                    &&& 0 <= idx < HANDLE_COUNT
                    &&& old(self)@[idx as int] == OpenHandle::Closed
                    &&& forall|j: int| 0 <= j < idx ==> old(self)@[j] != OpenHandle::Closed
                    &&& final(self)@ == old(self)@.update(idx as int, h)
                },
                Err(given_back) => {
                    &&& given_back == h
                    &&& final(self)@ == old(self)@
                    &&& forall|j: int|
                        0 <= j < HANDLE_COUNT ==> old(self)@[j] != OpenHandle::Closed
                },
            },
    {
        let mut idx: usize = 0;
        while idx < HANDLE_COUNT
            invariant
                old(self).wf(),
                self@ == old(self)@,
                idx <= HANDLE_COUNT,
                forall|j: int| 0 <= j < idx ==> old(self)@[j] != OpenHandle::Closed,
            decreases HANDLE_COUNT - idx,
        {
            if matches!(self.slots[idx], OpenHandle::Closed) {
                self.slots.set(idx, h);
                return Ok(idx);
            }
            idx = idx + 1;
        }
        Err(h)
    }

    /// Force the three standard streams into slots 0 to 2, as at the start of
    /// every program execution.
    pub fn init_stdio(&mut self)
        requires
            old(self).wf(),
        ensures
            final(self).wf(),
            final(self)@ == old(self)@.update(0, OpenHandle::StdIn).update(
                1,
                OpenHandle::Stdout,
            ).update(2, OpenHandle::StdErr),
    {
        self.slots.set(0, OpenHandle::StdIn);
        self.slots.set(1, OpenHandle::Stdout);
        self.slots.set(2, OpenHandle::StdErr);
    }

    /// Force every handle back to closed, as when a program returns.
    pub fn close_all(&mut self)
        requires
            old(self).wf(),
        ensures
            final(self).wf(),
            forall|i: int| 0 <= i < HANDLE_COUNT ==> final(self)@[i] == OpenHandle::Closed,
    {
        let mut i: usize = 0;
        while i < HANDLE_COUNT
            invariant
                old(self).wf(),
                self.wf(),
                i <= HANDLE_COUNT,
                forall|k: int| 0 <= k < i ==> self@[k] == OpenHandle::Closed,
            decreases HANDLE_COUNT - i,
        {
            self.slots.set(i, OpenHandle::Closed);
            i = i + 1;
        }
    }
}

/// What performs the actual transfer of control into a loaded program: one
/// jump to the entry point with the host callback table, the argument count
/// and a fixed-size argument array, returning the program's exit code. The
/// machine-level jump cannot be expressed here; the surrounding application
/// supplies it.
pub trait ProgramRunner {
    /// Run the program whose entry point is at address `entry` with `argc`
    /// live arguments out of the four in `argv`, and return its exit code.
    fn run(&mut self, entry: u32, argc: usize, argv: &Vec<&str>) -> i32;
}

/// Represents the Transient Program Area.
pub struct TransientProgramArea {
    /// The address of the first byte of the region.
    pub base: u32,
    /// The whole region's bytes, visible or stolen.
    pub data: Vec<u8>,
    /// The bytes below this offset are the arena; the bytes at and above it
    /// have been carved off by `steal_top`.
    pub visible_len: usize,
    /// The entry point of the staged program, or zero when nothing is loaded.
    pub last_entry: u32,
}

impl TransientProgramArea {
    /// The region is measured in whole 32-bit words and fits the address
    /// space.
    pub open spec fn wf(self) -> bool {
        &&& self.visible_len <= self.data@.len()
        &&& self.data@.len() % 4 == 0
        &&& self.visible_len % 4 == 0
        &&& self.base % 4 == 0
        &&& self.base + self.data@.len() <= u32::MAX
    }

    /// Construct a new program area over `length_in_bytes` bytes of memory at
    /// address `start`, rounded down to whole words, with nothing loaded.
    pub fn new(start: u32, length_in_bytes: usize) -> (r: TransientProgramArea)
        requires
            start % 4 == 0,
            start + length_in_bytes <= u32::MAX,
        ensures
            r.wf(),
            r.base == start,
            r.data@.len() == (length_in_bytes / 4) * 4,
            forall|i: int| 0 <= i < r.data@.len() ==> r.data@[i] == 0u8,
            r.visible_len == r.data@.len(),
            r.last_entry == 0,
    {
        let n = (length_in_bytes / 4) * 4;
        let mut data: Vec<u8> = Vec::new();
        let mut i: usize = 0;
        while i < n
            invariant
                i <= n,
                data@.len() == i,
                forall|k: int| 0 <= k < i ==> data@[k] == 0u8,
            decreases n - i,
        {
            data.push(0);
            i = i + 1;
        }
        TransientProgramArea { base: start, data, visible_len: n, last_entry: 0 }
    }

    /// Construct a new program area whose effective bottom is raised to a
    /// privileged system start address, protecting the memory below it. The
    /// address must lie within the advertised region and on a word boundary:
    /// anything else is a memory-map mismatch that cannot be continued past.
    pub fn new_with_system_start(start: u32, length_in_bytes: usize, system_start: u32) -> (r:
        TransientProgramArea)
        requires
            start % 4 == 0,
            system_start % 4 == 0,
            start + length_in_bytes <= u32::MAX,
            start <= system_start,
            system_start < start + (length_in_bytes / 4) * 4,
        ensures
            r.wf(),
            r.base == system_start,
            r.base + r.data@.len() == start + (length_in_bytes / 4) * 4,
            forall|i: int| 0 <= i < r.data@.len() ==> r.data@[i] == 0u8,
            r.visible_len == r.data@.len(),
            r.last_entry == 0,
    {
        let total = (length_in_bytes / 4) * 4;
        let keep = total - ((system_start - start) as usize);
        let mut data: Vec<u8> = Vec::new();
        let mut i: usize = 0;
        while i < keep
            invariant
                i <= keep,
                data@.len() == i,
                forall|k: int| 0 <= k < i ==> data@[k] == 0u8,
            decreases keep - i,
        {
            data.push(0);
            i = i + 1;
        }
        TransientProgramArea { base: system_start, data, visible_len: keep, last_entry: 0 }
    }

    /// The number of bytes the arena currently offers.
    pub fn size_bytes(&self) -> (r: usize)
        ensures
            r == self.visible_len,
    {
        self.visible_len
    }

    /// The number of whole words the arena currently offers.
    pub fn size_words(&self) -> (r: usize)
        requires
            self.wf(),
        ensures
            r == self.visible_len / 4,
    {
        self.visible_len / 4
    }

    /// One byte of the region, visible or stolen.
    pub fn read_byte(&self, offset: usize) -> (r: u8)
        requires
            offset < self.data@.len(),
        ensures
            r == self.data@[offset as int],
    {
        self.data[offset]
    }

    /// Copy a ready program image into the bottom of the arena. Fails with
    /// `ProgramTooLarge`, changing nothing, exactly when the image does not
    /// fit the arena's current size.
    pub fn copy_program(&mut self, program: &[u8]) -> (r: Result<(), Error>)
        requires
            old(self).wf(),
        ensures
            final(self).wf(),
            program@.len() > old(self).visible_len ==> r == Err::<(), Error>(
                Error::ProgramTooLarge,
            ) && *final(self) == *old(self),
            program@.len() <= old(self).visible_len ==> {
                &&& r == Ok::<(), Error>(())
                &&& final(self).data@.len() == old(self).data@.len()
                &&& forall|i: int|
                    0 <= i < program@.len() ==> final(self).data@[i] == program@[i]
                &&& forall|i: int|
                    program@.len() <= i < old(self).data@.len() ==> final(self).data@[i] == old(self).data@[i]
                &&& final(self).base == old(self).base
                &&& final(self).visible_len == old(self).visible_len
                &&& final(self).last_entry == old(self).last_entry
            },
    {
        if program.len() > self.visible_len {
            return Err(Error::ProgramTooLarge);
        }
        let mut i: usize = 0;
        while i < program.len()
            invariant
                old(self).wf(),
                self.base == old(self).base,
                self.visible_len == old(self).visible_len,
                self.last_entry == old(self).last_entry,
                program@.len() <= old(self).visible_len,
                i <= program@.len(),
                self.data@.len() == old(self).data@.len(),
                forall|k: int| 0 <= k < i ==> self.data@[k] == program@[k],
                forall|k: int|
                    i <= k < old(self).data@.len() ==> self.data@[k] == old(self).data@[k],
            decreases program@.len() - i,
        {
            let b = program[i];
            self.data.set(i, b);
            i = i + 1;
        }
        Ok(())
    }

    /// Move `size` bytes (rounded up to whole words) from the bottom of the
    /// arena to its top, and shrink the arena so that the moved bytes sit
    /// outside it, safe from the next program load. Returns the address of
    /// the moved bytes. At most one steal may be outstanding at a time.
    pub fn steal_top(&mut self, size: usize) -> (r: u32)
        requires
            old(self).wf(),
            size + 3 < usize::MAX,
            (size + 3) / 4 < old(self).visible_len / 4,
        ensures
            final(self).wf(),
            final(self).visible_len == old(self).visible_len - ((size + 3) / 4) * 4,
            r == final(self).base + final(self).visible_len,
            final(self).base == old(self).base,
            final(self).last_entry == old(self).last_entry,
            final(self).data@.len() == old(self).data@.len(),
            forall|i: int|
                0 <= i < ((size + 3) / 4) * 4 ==> final(self).data@[final(self).visible_len + i] == old(self).data@[i],
            forall|i: int|
                0 <= i < final(self).visible_len ==> final(self).data@[i] == old(self).data@[i],
            forall|i: int|
                old(self).visible_len <= i < old(self).data@.len() ==> final(self).data@[i] == old(self).data@[i],
    {
        let stolen_bytes = ((size + 3) / 4) * 4;
        let new_top = self.visible_len - stolen_bytes;
        // Copy through a scratch buffer: source and destination may overlap,
        // and the stolen bytes must arrive as a pure move.
        let mut scratch: Vec<u8> = Vec::new();
        let mut i: usize = 0;
        while i < stolen_bytes
            invariant
                i <= stolen_bytes,
                stolen_bytes <= self.data@.len(),
                scratch@.len() == i,
                *self == *old(self),
                forall|k: int| 0 <= k < i ==> scratch@[k] == self.data@[k],
            decreases stolen_bytes - i,
        {
            let b = self.data[i];
            scratch.push(b);
            i = i + 1;
        }
        let mut j: usize = 0;
        while j < stolen_bytes
            invariant
                j <= stolen_bytes,
                new_top + stolen_bytes <= self.data@.len(),
                new_top == old(self).visible_len - stolen_bytes,
                scratch@.len() == stolen_bytes,
                forall|k: int| 0 <= k < stolen_bytes ==> scratch@[k] == old(self).data@[k],
                self.base == old(self).base,
                self.visible_len == old(self).visible_len,
                self.last_entry == old(self).last_entry,
                self.data@.len() == old(self).data@.len(),
                forall|k: int| 0 <= k < j ==> self.data@[new_top + k] == scratch@[k],
                forall|k: int|
                    0 <= k < self.data@.len() && !(new_top <= k < new_top + j)
                        ==> self.data@[k] == old(self).data@[k],
            decreases stolen_bytes - j,
        {
            let b = scratch[j];
            self.data.set(new_top + j, b);
            j = j + 1;
        }
        self.visible_len = new_top;
        proof {
            assert forall|i: int| 0 <= i < ((size + 3) / 4) * 4 implies self.data@[
                self.visible_len + i
            ] == old(self).data@[i] by {
                assert(self.data@[new_top + i] == scratch@[i]);
            }
        }
        self.base + new_top as u32
    }

    /// Grow the arena's top back by `size` bytes (rounded up to whole words):
    /// the inverse of `steal_top`, to be called with the same size.
    pub fn restore_top(&mut self, size: usize)
        requires
            old(self).wf(),
            size + 3 < usize::MAX,
            old(self).visible_len + ((size + 3) / 4) * 4 <= old(self).data@.len(),
        ensures
            final(self).wf(),
            final(self).visible_len == old(self).visible_len + ((size + 3) / 4) * 4,
            final(self).base == old(self).base,
            final(self).last_entry == old(self).last_entry,
            final(self).data == old(self).data,
    {
        let restored_bytes = ((size + 3) / 4) * 4;
        self.visible_len = self.visible_len + restored_bytes;
    }

    /// Pad the argument list out to the fixed argument array a program
    /// receives: the first four arguments, then empty strings.
    pub fn pack_args<'a>(args: &[&'a str]) -> (r: Vec<&'a str>)
        ensures
            r@.len() == 4,
            forall|i: int|
                0 <= i < 4 ==> (#[trigger] r@[i])@ == if i < args@.len() {
                    args@[i]@
                } else {
                    Seq::<char>::empty()
                },
    {
        let empty: &str = "";
        proof {
            reveal_strlit("");
        }
        let mut r: Vec<&str> = Vec::new();
        r.push(if args.len() > 0 {
            args[0]
        } else {
            empty
        });
        r.push(if args.len() > 1 {
            args[1]
        } else {
            empty
        });
        r.push(if args.len() > 2 {
            args[2]
        } else {
            empty
        });
        r.push(if args.len() > 3 {
            args[3]
        } else {
            empty
        });
        r
    }

    /// Execute the staged program.
    ///
    /// Fails with `NothingLoaded`, changing nothing, exactly when no program
    /// is staged. Otherwise the three standard streams are opened, control is
    /// transferred once through `runner`, and on return every handle is
    /// forced back to closed and the staged entry point is cleared, so
    /// nothing a program opened or left behind survives into the next run.
    /// The program's exit code is returned as a success, whatever its value.
    pub fn execute<R: ProgramRunner>(
        &mut self,
        args: &[&str],
        handles: &mut HandleTable,
        runner: &mut R,
    ) -> (r: Result<i32, Error>)
        requires
            old(self).wf(),
            old(handles).wf(),
        ensures
            final(self).wf(),
            final(handles).wf(),
            old(self).last_entry == 0 ==> {
                &&& r == Err::<i32, Error>(Error::NothingLoaded)
                &&& *final(self) == *old(self)
                &&& final(handles)@ == old(handles)@
            },
            old(self).last_entry != 0 ==> {
                &&& r is Ok
                &&& final(self).last_entry == 0
                &&& final(self).base == old(self).base
                &&& final(self).data == old(self).data
                &&& final(self).visible_len == old(self).visible_len
                &&& forall|i: int|
                    0 <= i < HANDLE_COUNT ==> final(handles)@[i] == OpenHandle::Closed
            },
    {
        if self.last_entry == 0 {
            return Err(Error::NothingLoaded);
        }
        handles.init_stdio();
        let argv = Self::pack_args(args);
        let exit_code = runner.run(self.last_entry, args.len(), &argv);
        handles.close_all();
        self.last_entry = 0;
        Ok(exit_code)
    }
}

/// Carving a buffer off the top of the arena and giving it back restores the
/// arena's size exactly, and the stolen bytes arrive above the shrunken top
/// as a pure move of the bytes that were at the bottom.
pub proof fn lemma_steal_restore_round_trip(
    pre: TransientProgramArea,
    mid: TransientProgramArea,
    post: TransientProgramArea,
    size: usize,
)
    requires
        pre.wf(),
        size + 3 < usize::MAX,
        (size + 3) / 4 < pre.visible_len / 4,
        // what steal_top guarantees
        mid.wf(),
        mid.visible_len == pre.visible_len - ((size + 3) / 4) * 4,
        mid.base == pre.base,
        mid.data@.len() == pre.data@.len(),
        forall|i: int|
            0 <= i < ((size + 3) / 4) * 4 ==> mid.data@[mid.visible_len + i] == pre.data@[i],
        // what restore_top guarantees
        post.visible_len == mid.visible_len + ((size + 3) / 4) * 4,
        post.base == mid.base,
        post.data == mid.data,
    ensures
        post.visible_len == pre.visible_len,
        post.base == pre.base,
        forall|i: int|
            0 <= i < ((size + 3) / 4) * 4 ==> post.data@[mid.visible_len + i] == pre.data@[i],
{
}

} // verus!
