//! The read-ahead cache in front of a byte-addressable program source.
//!
//! The program loader asks its source for a few bytes at a time, so reads go
//! through one cached block keyed by the offset it was read at: a request
//! that falls inside the cached window is served from memory, and only a miss
//! costs another positioned read. The surrounding application wraps this
//! around its file reads; the window arithmetic and the copies live here.

use vstd::prelude::*;

verus! {

/// How many bytes one cached block holds.
pub const CACHE_LEN: usize = 128;

/// One cached block of a byte-addressable source.
pub struct ReadCache {
    /// The cached bytes.
    pub block: Vec<u8>,
    /// The source offset the block was read at, once anything is cached.
    pub offset_cached: Option<u32>,
}

impl ReadCache {
    /// The block always holds exactly one cache line.
    pub open spec fn wf(self) -> bool {
        self.block@.len() == CACHE_LEN
    }

    /// Does the cached window cover `len` bytes at `offset`?
    pub open spec fn covers(self, offset: int, len: int) -> bool {
        match self.offset_cached {
            Some(cached) => cached <= offset && offset + len <= cached + CACHE_LEN,
            None => false,
        }
    }

    /// An empty cache: nothing read yet.
    pub fn new() -> (r: ReadCache)
        ensures
            r.wf(),
            r.offset_cached is None,
    {
        let mut block: Vec<u8> = Vec::new();
        let mut i: usize = 0;
        while i < CACHE_LEN
            invariant
                i <= CACHE_LEN,
                block@.len() == i,
            decreases CACHE_LEN - i,
        {
            block.push(0);
            i = i + 1;
        }
        ReadCache { block, offset_cached: None }
    }

    /// Can `len` bytes at `offset` be served from the cache?
    pub fn hit(&self, offset: u32, len: u32) -> (r: bool)
        requires
            offset + len <= u32::MAX,
        ensures
            r == self.covers(offset as int, len as int),
    {
        match self.offset_cached {
            Some(cached) => cached <= offset && (offset as u64) + (len as u64) <= (cached as u64)
                + CACHE_LEN as u64,
            None => false,
        }
    }

    /// Remember a block freshly read at `offset`.
    pub fn install(&mut self, offset: u32, data: &[u8])
        requires
            old(self).wf(),
            data@.len() == CACHE_LEN,
        ensures
            final(self).wf(),
            final(self).block@ == data@,
            final(self).offset_cached == Some(offset),
    {
        let mut block: Vec<u8> = Vec::new();
        let mut i: usize = 0;
        while i < CACHE_LEN
            invariant
                i <= CACHE_LEN,
                data@.len() == CACHE_LEN,
                block@.len() == i,
                forall|k: int| 0 <= k < i ==> block@[k] == data@[k],
            decreases CACHE_LEN - i,
        {
            let b = data[i];
            block.push(b);
            i = i + 1;
        }
        proof {
            assert(block@ =~= data@);
        }
        self.block = block;
        self.offset_cached = Some(offset);
    }

    /// Serve `len` bytes at `offset` out of the cached window.
    pub fn copy_out(&self, offset: u32, len: u32) -> (r: Vec<u8>)
        requires
            self.wf(),
            offset + len <= u32::MAX,
            self.covers(offset as int, len as int),
        ensures
            r@.len() == len,
            forall|k: int|
                0 <= k < len ==> r@[k] == self.block@[offset - self.offset_cached.unwrap() + k],
    {
        let cached = match self.offset_cached {
            Some(c) => c,
            None => 0,
        };
        let start = (offset - cached) as usize;
        let n = len as usize;
        let mut r: Vec<u8> = Vec::new();
        let mut i: usize = 0;
        while i < n
            invariant
                self.wf(),
                i <= n,
                Some(cached) == self.offset_cached,
                start == offset - cached,
                start + n <= CACHE_LEN,
                r@.len() == i,
                forall|k: int| 0 <= k < i ==> r@[k] == self.block@[start + k],
            decreases n - i,
        {
            let b = self.block[start + i];
            r.push(b);
            i = i + 1;
        }
        r
    }
}

} // verus!
