//! The program loader: parses the loadable-segment executable format from an
//! in-memory image and populates the Transient Program Area.
//!
//! The format is a 32-bit little-endian executable for the target machine: a
//! fixed file header giving the entry point and the program header table, then
//! one header per segment with its virtual address, file offset, file size and
//! memory size. Each loadable segment whose address lies inside the arena is
//! zero-filled over its whole memory size and overwritten with its file bytes,
//! which is how zero-initialized data regions are realized.

use vstd::prelude::*;
use crate::program::ElfError;
use crate::program::Error;
use crate::program::TransientProgramArea;

verus! {

/// Loadable segment.
pub const PT_LOAD: u32 = 1;

/// Size of one program header table entry in bytes.
pub const PH_ENTRY_SIZE: u32 = 32;

/// A 16-bit little-endian value at `off`.
pub open spec fn u16_le(b: Seq<u8>, off: int) -> int {
    b[off] + 256 * b[off + 1]
}

/// A 32-bit little-endian value at `off`.
pub open spec fn u32_le(b: Seq<u8>, off: int) -> int {
    b[off] + 0x100 * b[off + 1] + 0x10000 * b[off + 2] + 0x1000000 * b[off + 3]
}

/// Read a 16-bit little-endian value.
pub fn read_u16_le(b: &[u8], off: usize) -> (r: u16)
    requires
        off + 2 <= b@.len(),
    ensures
        r == u16_le(b@, off as int),
{
    b[off] as u16 + 256 * (b[off + 1] as u16)
}

/// Read a 32-bit little-endian value.
pub fn read_u32_le(b: &[u8], off: usize) -> (r: u32)
    requires
        off + 4 <= b@.len(),
    ensures
        r == u32_le(b@, off as int),
{
    b[off] as u32 + 0x100 * (b[off + 1] as u32) + 0x10000 * (b[off + 2] as u32) + 0x1000000 * (b[
        off + 3
    ] as u32)
}

/// One entry of the program header table: a loadable segment's placement.
#[derive(Clone, Copy, PartialEq, Eq, Structural, Debug)]
pub struct ProgramHeader {
    /// The type of segment; only `PT_LOAD` segments are placed in memory.
    pub p_type: u32,
    /// Where the segment's bytes start within the image.
    pub p_offset: u32,
    /// The virtual address the segment is loaded at.
    pub p_vaddr: u32,
    /// How many bytes the segment has in the image.
    pub p_filesz: u32,
    /// How many bytes the segment occupies in memory; at least `p_filesz`,
    /// and the remainder is zero-filled.
    pub p_memsz: u32,
}

/// What the file header must say: the four magic bytes; 32-bit class,
/// little-endian data, version one, SysV ABI; an executable for the target
/// machine; and the table entry sizes this loader understands.
pub open spec fn parse_header_spec(img: Seq<u8>) -> Result<(int, int, int), ElfError> {
    if img.len() < 4 {
        Err(ElfError::Truncated)
    } else if !(img[0] == 0x7F && img[1] == 0x45 && img[2] == 0x4C && img[3] == 0x46) {
        Err(ElfError::NotAnElf)
    } else if img.len() < 8 {
        Err(ElfError::Truncated)
    } else if !(img[4] == 1 && img[5] == 1 && img[6] == 1 && img[7] == 0) {
        Err(ElfError::WrongElf)
    } else if img.len() < 0x34 {
        Err(ElfError::Truncated)
    } else if u16_le(img, 0x10) != 2 {
        Err(ElfError::WrongElf)
    } else if u16_le(img, 0x12) != 0x28 {
        Err(ElfError::WrongElf)
    } else if u32_le(img, 0x14) != 1 {
        Err(ElfError::WrongElf)
    } else if u16_le(img, 0x2A) != PH_ENTRY_SIZE {
        Err(ElfError::WrongElf)
    } else if u16_le(img, 0x2E) != 40 {
        Err(ElfError::WrongElf)
    } else {
        Ok((u32_le(img, 0x18), u32_le(img, 0x1C), u16_le(img, 0x2C)))
    }
}

/// Parse the file header, returning the entry point, the offset of the
/// program header table and the number of its entries.
pub fn parse_header(img: &[u8]) -> (r: Result<(u32, u32, u16), ElfError>)
    ensures
        match r {
            Ok(t) => parse_header_spec(img@) == Ok::<(int, int, int), ElfError>(
                (t.0 as int, t.1 as int, t.2 as int),
            ),
            Err(e) => parse_header_spec(img@) == Err::<(int, int, int), ElfError>(e),
        },
{
    if img.len() < 4 {
        return Err(ElfError::Truncated);
    }
    if !(img[0] == 0x7F && img[1] == 0x45 && img[2] == 0x4C && img[3] == 0x46) {
        return Err(ElfError::NotAnElf);
    }
    if img.len() < 8 {
        return Err(ElfError::Truncated);
    }
    if !(img[4] == 1 && img[5] == 1 && img[6] == 1 && img[7] == 0) {
        return Err(ElfError::WrongElf);
    }
    if img.len() < 0x34 {
        return Err(ElfError::Truncated);
    }
    if read_u16_le(img, 0x10) != 2 {
        return Err(ElfError::WrongElf);
    }
    if read_u16_le(img, 0x12) != 0x28 {
        return Err(ElfError::WrongElf);
    }
    if read_u32_le(img, 0x14) != 1 {
        return Err(ElfError::WrongElf);
    }
    if read_u16_le(img, 0x2A) as u32 != PH_ENTRY_SIZE {
        return Err(ElfError::WrongElf);
    }
    if read_u16_le(img, 0x2E) != 40 {
        return Err(ElfError::WrongElf);
    }
    Ok((read_u32_le(img, 0x18), read_u32_le(img, 0x1C), read_u16_le(img, 0x2C)))
}

/// The program header at index `idx` of a table at `phoff`.
pub open spec fn ph_at(img: Seq<u8>, phoff: int, idx: int) -> ProgramHeader {
    let base = phoff + 32 * idx;
    ProgramHeader {
        p_type: u32_le(img, base) as u32,
        p_offset: u32_le(img, base + 4) as u32,
        p_vaddr: u32_le(img, base + 8) as u32,
        p_filesz: u32_le(img, base + 16) as u32,
        p_memsz: u32_le(img, base + 20) as u32,
    }
}

/// Read the program header whose entry starts at `base`.
pub fn read_ph(img: &[u8], base: usize) -> (r: ProgramHeader)
    requires
        base + 32 <= img@.len(),
    ensures
        forall|phoff: int, idx: int|
            phoff + 32 * idx == base ==> r == ph_at(img@, phoff, idx),
{
    let n = img.len();
    ProgramHeader {
        p_type: read_u32_le(img, base),
        p_offset: read_u32_le(img, base + 4),
        p_vaddr: read_u32_le(img, base + 8),
        p_filesz: read_u32_le(img, base + 16),
        p_memsz: read_u32_le(img, base + 20),
    }
}

/// The arena's bytes after one segment lands: `mem_size` bytes at offset
/// `start` are the segment's first `file_size` file bytes followed by zeros;
/// everything else is untouched.
pub open spec fn seg_write(
    data: Seq<u8>,
    img: Seq<u8>,
    start: int,
    file_offset: int,
    file_size: int,
    mem_size: int,
) -> Seq<u8> {
    Seq::new(
        data.len(),
        |i: int|
            if start <= i < start + mem_size {
                if i - start < file_size {
                    img[file_offset + (i - start)]
                } else {
                    0u8
                }
            } else {
                data[i]
            },
    )
}

/// One step of segment loading: what the arena and the outcome become after
/// considering the header at `idx` and every one after it. Loading stops
/// silently where the table runs off the end of the image, fails with
/// `BadAddress` where a segment would not fit the arena, and fails with a
/// truncation error where a segment's bytes lie beyond the image.
pub open spec fn load_from(
    data: Seq<u8>,
    img: Seq<u8>,
    phoff: int,
    phnum: int,
    idx: int,
    base: int,
    visible: int,
) -> Result<Seq<u8>, Error>
    decreases phnum - idx,
{
    if idx >= phnum {
        Ok(data)
    } else if phoff + 32 * idx + 32 > img.len() {
        Ok(data)
    } else {
        let ph = ph_at(img, phoff, idx);
        if ph.p_type == PT_LOAD && ph.p_vaddr >= base {
            if ph.p_vaddr + ph.p_memsz > base + visible {
                Err(Error::BadAddress)
            } else if ph.p_filesz > ph.p_memsz {
                Err(Error::Elf(ElfError::Truncated))
            } else if ph.p_offset + ph.p_filesz > img.len() {
                Err(Error::Elf(ElfError::Truncated))
            } else {
                load_from(
                    seg_write(
                        data,
                        img,
                        ph.p_vaddr - base,
                        ph.p_offset as int,
                        ph.p_filesz as int,
                        ph.p_memsz as int,
                    ),
                    img,
                    phoff,
                    phnum,
                    idx + 1,
                    base,
                    visible,
                )
            }
        } else {
            load_from(data, img, phoff, phnum, idx + 1, base, visible)
        }
    }
}

impl TransientProgramArea {
    /// Place one segment: zero-fill `mem_size` bytes at offset `start` of the
    /// region, then overwrite the first `file_size` of them with the image
    /// bytes at `file_offset`. The bytes between `file_size` and `mem_size`
    /// stay zero, and nothing outside the segment changes.
    pub fn load_segment(
        &mut self,
        img: &[u8],
        start: usize,
        file_offset: usize,
        file_size: usize,
        mem_size: usize,
    )
        requires
            old(self).wf(),
            file_size <= mem_size,
            start + mem_size <= old(self).visible_len,
            file_offset + file_size <= img@.len(),
        ensures
            final(self).wf(),
            final(self).base == old(self).base,
            final(self).visible_len == old(self).visible_len,
            final(self).last_entry == old(self).last_entry,
            final(self).data@ == seg_write(
                old(self).data@,
                img@,
                start as int,
                file_offset as int,
                file_size as int,
                mem_size as int,
            ),
            forall|j: int|
                start <= j < start + file_size ==> #[trigger] final(self).data@[j] == img@[
                    file_offset + (j - start)
                ],
            forall|j: int|
                start + file_size <= j < start + mem_size ==> #[trigger] final(self).data@[j]
                    == 0u8,
            forall|i: int|
                0 <= i < old(self).data@.len() && !(start <= i < start + mem_size)
                    ==> #[trigger] final(self).data@[i] == old(self).data@[i],
    {
        let img_len = img.len();
        let mut k: usize = 0;
        while k < mem_size
            invariant
                old(self).wf(),
                start + mem_size <= old(self).visible_len,
                k <= mem_size,
                self.base == old(self).base,
                self.visible_len == old(self).visible_len,
                self.last_entry == old(self).last_entry,
                self.data@.len() == old(self).data@.len(),
                forall|j: int| start <= j < start + k ==> #[trigger] self.data@[j] == 0u8,
                forall|i: int|
                    0 <= i < old(self).data@.len() && !(start <= i < start + k)
                        ==> #[trigger] self.data@[i] == old(self).data@[i],
            decreases mem_size - k,
        {
            self.data.set(start + k, 0);
            k = k + 1;
        }
        let mut k: usize = 0;
        while k < file_size
            invariant
                old(self).wf(),
                file_size <= mem_size,
                start + mem_size <= old(self).visible_len,
                file_offset + file_size <= img@.len(),
                img_len == img@.len(),
                k <= file_size,
                self.base == old(self).base,
                self.visible_len == old(self).visible_len,
                self.last_entry == old(self).last_entry,
                self.data@.len() == old(self).data@.len(),
                forall|j: int|
                    start <= j < start + k ==> #[trigger] self.data@[j] == img@[file_offset + (j
                        - start)],
                forall|j: int|
                    start + k <= j < start + mem_size ==> #[trigger] self.data@[j] == 0u8,
                forall|i: int|
                    0 <= i < old(self).data@.len() && !(start <= i < start + mem_size)
                        ==> #[trigger] self.data@[i] == old(self).data@[i],
            decreases file_size - k,
        {
            let b = img[file_offset + k];
            self.data.set(start + k, b);
            k = k + 1;
        }
        proof {
            assert(self.data@ =~= seg_write(
                old(self).data@,
                img@,
                start as int,
                file_offset as int,
                file_size as int,
                mem_size as int,
            ));
        }
    }

    /// Load a program image into the Transient Program Area.
    ///
    /// The image's file header is parsed; a malformed header is rejected and
    /// the area is unchanged. Each loadable segment at or above the arena's
    /// bottom is zero-filled and populated; a segment that would not fit the
    /// arena, claim more memory than its file size allows for, or read past
    /// the end of the image fails the load, and segments already placed stay
    /// placed. A table that runs off the end of the image ends the walk
    /// silently. On success the header's entry point is recorded; nothing
    /// else about the area changes.
    #[verifier::rlimit(60)]
    pub fn load_program_from_bytes(&mut self, img: &[u8]) -> (r: Result<(), Error>)
        requires
            old(self).wf(),
        ensures
            final(self).wf(),
            final(self).base == old(self).base,
            final(self).visible_len == old(self).visible_len,
            final(self).data@.len() == old(self).data@.len(),
            match parse_header_spec(img@) {
                Err(e) => {
                    &&& r == Err::<(), Error>(Error::Elf(e))
                    &&& *final(self) == *old(self)
                },
                Ok(t) => match load_from(
                    old(self).data@,
                    img@,
                    t.1,
                    t.2,
                    0,
                    old(self).base as int,
                    old(self).visible_len as int,
                ) {
                    Ok(d) => {
                        &&& r == Ok::<(), Error>(())
                        &&& final(self).data@ == d
                        &&& final(self).last_entry == t.0
                    },
                    Err(e) => {
                        &&& r == Err::<(), Error>(e)
                        &&& final(self).last_entry == old(self).last_entry
                    },
                },
            },
    {
        let img_len = img.len();
        let (entry, phoff, phnum) = match parse_header(img) {
            Ok(t) => t,
            Err(e) => {
                return Err(Error::Elf(e));
            },
        };
        let ghost base_i = self.base as int;
        let ghost visible_i = self.visible_len as int;
        let ghost data0 = self.data@;
        let ghost top_result = load_from(data0, img@, phoff as int, phnum as int, 0, base_i, visible_i);
        let mut idx: u16 = 0;
        while idx < phnum
            invariant
                self.wf(),
                self.base == old(self).base,
                self.visible_len == old(self).visible_len,
                self.last_entry == old(self).last_entry,
                self.data@.len() == old(self).data@.len(),
                idx <= phnum,
                img_len == img@.len(),
                parse_header_spec(img@) == Ok::<(int, int, int), ElfError>(
                    (entry as int, phoff as int, phnum as int),
                ),
                data0 == old(self).data@,
                base_i == old(self).base as int,
                visible_i == old(self).visible_len as int,
                top_result == load_from(data0, img@, phoff as int, phnum as int, 0, base_i, visible_i),
                top_result == load_from(
                    self.data@,
                    img@,
                    phoff as int,
                    phnum as int,
                    idx as int,
                    base_i,
                    visible_i,
                ),
            ensures
                self.wf(),
                self.base == old(self).base,
                self.visible_len == old(self).visible_len,
                self.last_entry == old(self).last_entry,
                self.data@.len() == old(self).data@.len(),
                top_result == Ok::<Seq<u8>, Error>(self.data@),
            decreases phnum - idx,
        {
            let ghost pre = self.data@;
            let ghost idx_i = idx as int;
            let table_off: u64 = phoff as u64 + 32 * (idx as u64);
            if table_off + 32 > img_len as u64 {
                proof {
                    assert(load_from(pre, img@, phoff as int, phnum as int, idx_i, base_i,
                        visible_i) == Ok::<Seq<u8>, Error>(pre));
                }
                break;
            }
            let ph = read_ph(img, table_off as usize);
            proof {
                assert(phoff as int + 32 * idx_i == table_off as usize as int);
                assert(ph == ph_at(img@, phoff as int, idx_i));
            }
            if ph.p_type == PT_LOAD && ph.p_vaddr >= self.base {
                if ph.p_vaddr as u64 + ph.p_memsz as u64 > self.base as u64
                    + self.visible_len as u64 {
                    proof {
                        assert(load_from(pre, img@, phoff as int, phnum as int, idx_i, base_i,
                            visible_i) == Err::<Seq<u8>, Error>(Error::BadAddress));
                    }
                    return Err(Error::BadAddress);
                }
                if ph.p_filesz > ph.p_memsz {
                    proof {
                        assert(load_from(pre, img@, phoff as int, phnum as int, idx_i, base_i,
                            visible_i) == Err::<Seq<u8>, Error>(Error::Elf(ElfError::Truncated)));
                    }
                    return Err(Error::Elf(ElfError::Truncated));
                }
                if ph.p_offset as u64 + ph.p_filesz as u64 > img_len as u64 {
                    proof {
                        assert(load_from(pre, img@, phoff as int, phnum as int, idx_i, base_i,
                            visible_i) == Err::<Seq<u8>, Error>(Error::Elf(ElfError::Truncated)));
                    }
                    return Err(Error::Elf(ElfError::Truncated));
                }
                let start = (ph.p_vaddr - self.base) as usize;
                self.load_segment(
                    img,
                    start,
                    ph.p_offset as usize,
                    ph.p_filesz as usize,
                    ph.p_memsz as usize,
                );
                proof {
                    assert(self.data@ == seg_write(pre, img@, ph.p_vaddr - base_i,
                        ph.p_offset as int, ph.p_filesz as int, ph.p_memsz as int));
                    assert(load_from(pre, img@, phoff as int, phnum as int, idx_i, base_i,
                        visible_i) == load_from(self.data@, img@, phoff as int, phnum as int,
                        idx_i + 1, base_i, visible_i));
                }
            } else {
                proof {
                    assert(load_from(pre, img@, phoff as int, phnum as int, idx_i, base_i,
                        visible_i) == load_from(self.data@, img@, phoff as int, phnum as int,
                        idx_i + 1, base_i, visible_i));
                }
            }
            idx = idx + 1;
        }
        self.last_entry = entry;
        Ok(())
    }
}

} // verus!
