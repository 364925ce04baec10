//! The decision core of the host callback surface: which device or file each
//! handle-table entry stands for, which handles each operation accepts, and
//! the packed 64-bit value the audio device's control operation trades in.
//! The surrounding application performs the actual device work these
//! decisions call for.

use vstd::prelude::*;
use vstd::string::StringSliceAdditionalSpecFns;
use crate::program::HandleTable;
use crate::program::HANDLE_COUNT;
use crate::program::OpenHandle;

verus! {

/// The closed set of error codes an operation on the host callback surface
/// can return to a program.
#[derive(Clone, Copy, PartialEq, Eq, Structural, Debug)]
pub enum ApiError {
    /// The operation is not implemented.
    Unimplemented,
    /// The handle does not support the operation, or is out of range.
    BadHandle,
    /// The path does not name anything.
    InvalidPath,
    /// An argument is out of range.
    InvalidArg,
    /// There is no free slot, or no memory.
    OutOfMemory,
    /// The underlying device failed.
    DeviceSpecific,
}

/// The four sample formats the audio device's packed configuration word can
/// name.
#[derive(Clone, Copy, PartialEq, Eq, Structural, Debug)]
pub enum SampleFormat {
    /// Eight-bit mono: one byte per sample.
    EightBitMono,
    /// Eight-bit stereo: two bytes per sample.
    EightBitStereo,
    /// Sixteen-bit mono: two bytes per sample.
    SixteenBitMono,
    /// Sixteen-bit stereo: four bytes per sample.
    SixteenBitStereo,
}

/// The place of 1 in the top nibble of a 64-bit word.
pub const NIBBLE_PLACE: u64 = 0x1000_0000_0000_0000;

/// The nibble that encodes each sample format.
pub open spec fn format_nibble(f: SampleFormat) -> u64 {
    match f {
        SampleFormat::EightBitMono => 0,
        SampleFormat::EightBitStereo => 1,
        SampleFormat::SixteenBitMono => 2,
        SampleFormat::SixteenBitStereo => 3,
    }
}

/// Pack an audio configuration into the 64-bit word the control operation
/// trades in: the sample format's nibble at the top, the sample rate in the
/// low bits.
pub fn encode_audio_config(format: SampleFormat, sample_rate_hz: u32) -> (r: u64)
    ensures
        r == format_nibble(format) * NIBBLE_PLACE + sample_rate_hz,
{
    let nibble: u64 = match format {
        SampleFormat::EightBitMono => 0,
        SampleFormat::EightBitStereo => 1,
        SampleFormat::SixteenBitMono => 2,
        SampleFormat::SixteenBitStereo => 3,
    };
    nibble * NIBBLE_PLACE + sample_rate_hz as u64
}

/// Unpack the 64-bit audio configuration word: the top nibble names the
/// sample format (anything past the four known formats is rejected) and the
/// low 32 bits are the sample rate.
pub fn decode_audio_config(value: u64) -> (r: Result<(SampleFormat, u32), ApiError>)
    ensures
        match r {
            Ok(t) => value / NIBBLE_PLACE == format_nibble(t.0) && t.1 == value % 0x1_0000_0000,
            Err(e) => e == ApiError::InvalidArg && value / NIBBLE_PLACE > 3,
        },
{
    let nibble = value / NIBBLE_PLACE;
    let format = match nibble {
        0u64 => SampleFormat::EightBitMono,
        1u64 => SampleFormat::EightBitStereo,
        2u64 => SampleFormat::SixteenBitMono,
        3u64 => SampleFormat::SixteenBitStereo,
        _ => {
            return Err(ApiError::InvalidArg);
        },
    };
    let rate = value as u32;
    proof {
        assert(value as u32 == value % 0x1_0000_0000) by (bit_vector);
    }
    Ok((format, rate))
}

/// Decoding a packed word recovers exactly the format and rate that were
/// packed into it.
pub proof fn lemma_audio_config_round_trip(format: SampleFormat, sample_rate_hz: u32)
    ensures
        ({
            let packed: int = format_nibble(format) * NIBBLE_PLACE + sample_rate_hz;
            &&& packed / (NIBBLE_PLACE as int) == format_nibble(format)
            &&& packed % 0x1_0000_0000 == sample_rate_hz
        }),
{
    let n: int = format_nibble(format) as int;
    let packed: int = n * NIBBLE_PLACE + sample_rate_hz;
    assert(n <= 3);
    assert(packed / (NIBBLE_PLACE as int) == n && packed % 0x1_0000_0000 == sample_rate_hz)
        by (nonlinear_arith)
        requires
            n <= 3,
            packed == n * 0x1000_0000_0000_0000 + sample_rate_hz,
            sample_rate_hz < 0x1_0000_0000,
    ;
}

/// Where a write through the callback surface goes.
#[derive(Clone, Copy, PartialEq, Eq, Structural, Debug)]
pub enum WriteTarget {
    /// Standard output or standard error: the console (and, best effort, a
    /// serial mirror).
    Console,
    /// An open file, by its filesystem key.
    File(u32),
    /// The audio output device.
    Audio,
}

/// Where a read through the callback surface comes from.
#[derive(Clone, Copy, PartialEq, Eq, Structural, Debug)]
pub enum ReadSource {
    /// Standard input: the keyboard and serial input queue.
    Input,
    /// An open file, by its filesystem key.
    File(u32),
    /// The audio input device.
    Audio,
}

/// What the audio control operation is being asked to do.
#[derive(Clone, Copy, PartialEq, Eq, Structural, Debug)]
pub enum AudioIoctl {
    /// Report the output sample format and rate.
    GetConfig,
    /// Set the output sample format and rate.
    SetConfig,
    /// Report the free space in the output buffer, in bytes.
    GetSpace,
}

/// Decide where a program's write to handle `fd` goes: the console for the
/// standard output and error streams, the named file, or the audio device;
/// anything else is a bad handle.
pub fn write_target(handles: &HandleTable, fd: u8) -> (r: Result<WriteTarget, ApiError>)
    requires
        handles.wf(),
    ensures
        fd >= HANDLE_COUNT ==> r == Err::<WriteTarget, ApiError>(ApiError::BadHandle),
        fd < HANDLE_COUNT ==> r == match handles@[fd as int] {
            OpenHandle::Stdout => Ok::<WriteTarget, ApiError>(WriteTarget::Console),
            OpenHandle::StdErr => Ok::<WriteTarget, ApiError>(WriteTarget::Console),
            OpenHandle::File(key) => Ok::<WriteTarget, ApiError>(WriteTarget::File(key)),
            OpenHandle::Audio => Ok::<WriteTarget, ApiError>(WriteTarget::Audio),
            _ => Err::<WriteTarget, ApiError>(ApiError::BadHandle),
        },
{
    if fd as usize >= HANDLE_COUNT {
        return Err(ApiError::BadHandle);
    }
    match handles.get(fd as usize) {
        OpenHandle::Stdout => Ok(WriteTarget::Console),
        OpenHandle::StdErr => Ok(WriteTarget::Console),
        OpenHandle::File(key) => Ok(WriteTarget::File(key)),
        OpenHandle::Audio => Ok(WriteTarget::Audio),
        OpenHandle::StdIn => Err(ApiError::BadHandle),
        OpenHandle::Closed => Err(ApiError::BadHandle),
    }
}

/// Decide where a program's read from handle `fd` comes from: the input
/// queue for standard input, the named file, or the audio device; anything
/// else is a bad handle.
pub fn read_source(handles: &HandleTable, fd: u8) -> (r: Result<ReadSource, ApiError>)
    requires
        handles.wf(),
    ensures
        fd >= HANDLE_COUNT ==> r == Err::<ReadSource, ApiError>(ApiError::BadHandle),
        fd < HANDLE_COUNT ==> r == match handles@[fd as int] {
            OpenHandle::StdIn => Ok::<ReadSource, ApiError>(ReadSource::Input),
            OpenHandle::File(key) => Ok::<ReadSource, ApiError>(ReadSource::File(key)),
            OpenHandle::Audio => Ok::<ReadSource, ApiError>(ReadSource::Audio),
            _ => Err::<ReadSource, ApiError>(ApiError::BadHandle),
        },
{
    if fd as usize >= HANDLE_COUNT {
        return Err(ApiError::BadHandle);
    }
    match handles.get(fd as usize) {
        OpenHandle::StdIn => Ok(ReadSource::Input),
        OpenHandle::File(key) => Ok(ReadSource::File(key)),
        OpenHandle::Audio => Ok(ReadSource::Audio),
        OpenHandle::Stdout => Err(ApiError::BadHandle),
        OpenHandle::StdErr => Err(ApiError::BadHandle),
        OpenHandle::Closed => Err(ApiError::BadHandle),
    }
}

/// Decide what a program's control operation on handle `fd` asks for: only
/// the audio device has control operations, numbered zero to two.
pub fn ioctl_decision(handles: &HandleTable, fd: u8, command: u64) -> (r: Result<
    AudioIoctl,
    ApiError,
>)
    requires
        handles.wf(),
    ensures
        fd >= HANDLE_COUNT ==> r == Err::<AudioIoctl, ApiError>(ApiError::BadHandle),
        fd < HANDLE_COUNT ==> r == (if handles@[fd as int] == OpenHandle::Audio && command == 0 {
            Ok::<AudioIoctl, ApiError>(AudioIoctl::GetConfig)
        } else if handles@[fd as int] == OpenHandle::Audio && command == 1 {
            Ok::<AudioIoctl, ApiError>(AudioIoctl::SetConfig)
        } else if handles@[fd as int] == OpenHandle::Audio && command == 2 {
            Ok::<AudioIoctl, ApiError>(AudioIoctl::GetSpace)
        } else {
            Err::<AudioIoctl, ApiError>(ApiError::InvalidArg)
        }),
{
    if fd as usize >= HANDLE_COUNT {
        return Err(ApiError::BadHandle);
    }
    match (handles.get(fd as usize), command) {
        (OpenHandle::Audio, 0u64) => Ok(AudioIoctl::GetConfig),
        (OpenHandle::Audio, 1u64) => Ok(AudioIoctl::SetConfig),
        (OpenHandle::Audio, 2u64) => Ok(AudioIoctl::GetSpace),
        _ => Err(ApiError::InvalidArg),
    }
}

/// Close handle `fd`: always succeeds on an in-range handle, whatever its
/// state, and rejects an out-of-range one.
pub fn close_handle(handles: &mut HandleTable, fd: u8) -> (r: Result<(), ApiError>)
    requires
        old(handles).wf(),
    ensures
        final(handles).wf(),
        fd >= HANDLE_COUNT ==> r == Err::<(), ApiError>(ApiError::BadHandle) && final(handles)@
            == old(handles)@,
        fd < HANDLE_COUNT ==> r == Ok::<(), ApiError>(()) && final(handles)@ == old(
            handles,
        )@.update(fd as int, OpenHandle::Closed),
{
    if fd as usize >= HANDLE_COUNT {
        return Err(ApiError::BadHandle);
    }
    handles.set(fd as usize, OpenHandle::Closed);
    Ok(())
}

/// The file key an open file handle stands for, for the stat operation:
/// anything that is not an open file is an invalid argument (an out-of-range
/// handle included).
pub fn fstat_target(handles: &HandleTable, fd: u8) -> (r: Result<u32, ApiError>)
    requires
        handles.wf(),
    ensures
        fd >= HANDLE_COUNT ==> r == Err::<u32, ApiError>(ApiError::InvalidArg),
        fd < HANDLE_COUNT ==> r == match handles@[fd as int] {
            OpenHandle::File(key) => Ok::<u32, ApiError>(key),
            _ => Err::<u32, ApiError>(ApiError::InvalidArg),
        },
{
    if fd as usize >= HANDLE_COUNT {
        return Err(ApiError::InvalidArg);
    }
    match handles.get(fd as usize) {
        OpenHandle::File(key) => Ok(key),
        _ => Err(ApiError::InvalidArg),
    }
}

/// Does this path name the audio device? The special device name is matched
/// without regard to ASCII case.
pub open spec fn is_audio_path_spec(bs: Seq<u8>) -> bool {
    &&& bs.len() == 6
    &&& (bs[0] == 65 || bs[0] == 97)
    &&& (bs[1] == 85 || bs[1] == 117)
    &&& (bs[2] == 68 || bs[2] == 100)
    &&& (bs[3] == 73 || bs[3] == 105)
    &&& (bs[4] == 79 || bs[4] == 111)
    &&& bs[5] == 58
}

/// Decide whether an open names the audio device rather than a file.
pub fn is_audio_path(path: &str) -> (r: bool)
    ensures
        r == is_audio_path_spec(path.spec_bytes()),
{
    let bs = path.as_bytes();
    if bs.len() != 6 {
        return false;
    }
    (bs[0] == 65 || bs[0] == 97) && (bs[1] == 85 || bs[1] == 117) && (bs[2] == 68 || bs[2] == 100)
        && (bs[3] == 73 || bs[3] == 105) && (bs[4] == 79 || bs[4] == 111) && bs[5] == 58
}

/// Put the opened audio device in the handle table, or report that every
/// slot is taken.
pub fn open_audio(handles: &mut HandleTable) -> (r: Result<u8, ApiError>)
    requires
        old(handles).wf(),
    ensures
        final(handles).wf(),
        match r {
            Ok(fd) => {
                &&& fd < HANDLE_COUNT
                &&& old(handles)@[fd as int] == OpenHandle::Closed
                &&& final(handles)@ == old(handles)@.update(fd as int, OpenHandle::Audio)
            },
            Err(e) => {
                &&& e == ApiError::OutOfMemory
                &&& final(handles)@ == old(handles)@
                &&& forall|j: int| 0 <= j < HANDLE_COUNT ==> old(handles)@[j] != OpenHandle::Closed
            },
        },
{
    match handles.allocate(OpenHandle::Audio) {
        Ok(idx) => Ok(idx as u8),
        Err(_) => Err(ApiError::OutOfMemory),
    }
}

/// Put an opened file in the handle table, or report that every slot is
/// taken.
pub fn register_file(handles: &mut HandleTable, key: u32) -> (r: Result<u8, ApiError>)
    requires
        old(handles).wf(),
    ensures
        final(handles).wf(),
        match r {
            Ok(fd) => {
                &&& fd < HANDLE_COUNT
                &&& old(handles)@[fd as int] == OpenHandle::Closed
                &&& final(handles)@ == old(handles)@.update(fd as int, OpenHandle::File(key))
            },
            Err(e) => {
                &&& e == ApiError::OutOfMemory
                &&& final(handles)@ == old(handles)@
                &&& forall|j: int| 0 <= j < HANDLE_COUNT ==> old(handles)@[j] != OpenHandle::Closed
            },
        },
{
    match handles.allocate(OpenHandle::File(key)) {
        Ok(idx) => Ok(idx as u8),
        Err(_) => Err(ApiError::OutOfMemory),
    }
}

/// Turn a filesystem failure on open into what the program is told: a
/// missing file is an invalid path, anything else a device failure.
pub fn map_open_error(e: crate::program::FsError) -> (r: ApiError)
    ensures
        e == crate::program::FsError::NotFound ==> r == ApiError::InvalidPath,
        e != crate::program::FsError::NotFound ==> r == ApiError::DeviceSpecific,
{
    match e {
        crate::program::FsError::NotFound => ApiError::InvalidPath,
        crate::program::FsError::DeviceError => ApiError::DeviceSpecific,
    }
}

} // verus!
