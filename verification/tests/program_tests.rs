//! Tests for the program area: staging, loading, stealing and executing.

use neotron_os::hostapi;
use neotron_os::loader;
use neotron_os::program::{
    Error, ElfError, FsError, HandleTable, OpenHandle, ProgramRunner, TransientProgramArea,
};

/// Build a minimal valid program image: one loadable segment.
fn build_image(
    entry: u32,
    p_vaddr: u32,
    file_size: u32,
    mem_size: u32,
    payload: &[u8],
) -> Vec<u8> {
    let mut img = vec![0u8; 0x54];
    img[0] = 0x7F;
    img[1] = b'E';
    img[2] = b'L';
    img[3] = b'F';
    img[4] = 1; // 32-bit
    img[5] = 1; // little-endian
    img[6] = 1; // version 1
    img[7] = 0; // SysV
    img[0x10] = 2; // executable
    img[0x12] = 0x28; // the target machine
    img[0x14] = 1; // version 1 again
    img[0x18..0x1C].copy_from_slice(&entry.to_le_bytes());
    img[0x1C..0x20].copy_from_slice(&0x34u32.to_le_bytes()); // program header table
    img[0x2A..0x2C].copy_from_slice(&32u16.to_le_bytes()); // entry size
    img[0x2C..0x2E].copy_from_slice(&1u16.to_le_bytes()); // one entry
    img[0x2E..0x30].copy_from_slice(&40u16.to_le_bytes()); // section entry size
    // The one program header, at 0x34.
    img[0x34..0x38].copy_from_slice(&1u32.to_le_bytes()); // loadable
    let file_offset = 0x54u32;
    img[0x38..0x3C].copy_from_slice(&file_offset.to_le_bytes());
    img[0x3C..0x40].copy_from_slice(&p_vaddr.to_le_bytes());
    img[0x44..0x48].copy_from_slice(&file_size.to_le_bytes());
    img[0x48..0x4C].copy_from_slice(&mem_size.to_le_bytes());
    img.extend_from_slice(payload);
    img
}

#[test]
fn loader_zero_fill() {
    // A segment with a memory size of 100 and a file size of 40: the first 40
    // bytes come from the file, the rest are zero.
    let mut tpa = TransientProgramArea::new(0x1000, 256);
    let payload: Vec<u8> = (1..=40u8).collect();
    let img = build_image(0x1000, 0x1000, 40, 100, &payload);
    assert!(tpa.load_program_from_bytes(&img).is_ok());
    for k in 0..40 {
        assert_eq!(tpa.read_byte(k), (k + 1) as u8);
    }
    for k in 40..100 {
        assert_eq!(tpa.read_byte(k), 0);
    }
}

#[test]
fn loader_rejects_bad_magic() {
    let mut tpa = TransientProgramArea::new(0x1000, 256);
    let mut img = build_image(0x1000, 0x1000, 0, 0, &[]);
    img[0] = 0x7E;
    assert_eq!(
        tpa.load_program_from_bytes(&img),
        Err(Error::Elf(ElfError::NotAnElf))
    );
    // Nothing was recorded, so nothing can be executed.
    assert_eq!(tpa.last_entry, 0);
}

#[test]
fn loader_rejects_wrong_machine() {
    let mut tpa = TransientProgramArea::new(0x1000, 256);
    let mut img = build_image(0x1000, 0x1000, 0, 0, &[]);
    img[0x12] = 0x03;
    assert_eq!(
        tpa.load_program_from_bytes(&img),
        Err(Error::Elf(ElfError::WrongElf))
    );
}

#[test]
fn loader_rejects_truncated_file() {
    let mut tpa = TransientProgramArea::new(0x1000, 256);
    assert_eq!(
        tpa.load_program_from_bytes(&[0x7F, b'E', b'L']),
        Err(Error::Elf(ElfError::Truncated))
    );
}

#[test]
fn loader_rejects_segment_outside_arena() {
    let mut tpa = TransientProgramArea::new(0x1000, 256);
    // The segment claims more memory than the arena has.
    let img = build_image(0x1000, 0x1000, 0, 512, &[]);
    assert_eq!(tpa.load_program_from_bytes(&img), Err(Error::BadAddress));
}

#[test]
fn loader_ignores_segment_below_arena() {
    let mut tpa = TransientProgramArea::new(0x1000, 256);
    // A segment below the arena bottom is skipped, and the load succeeds.
    let img = build_image(0x1000, 0x0800, 4, 4, &[9, 9, 9, 9]);
    assert!(tpa.load_program_from_bytes(&img).is_ok());
    assert_eq!(tpa.read_byte(0), 0);
    assert_eq!(tpa.last_entry, 0x1000);
}

#[test]
fn copy_program_rejects_oversize() {
    let mut tpa = TransientProgramArea::new(0x1000, 8);
    let image = [1u8; 16];
    assert_eq!(tpa.copy_program(&image), Err(Error::ProgramTooLarge));
    // A fitting image lands at the bottom of the arena.
    assert_eq!(tpa.copy_program(&[5, 6, 7]), Ok(()));
    assert_eq!(tpa.read_byte(0), 5);
    assert_eq!(tpa.read_byte(1), 6);
    assert_eq!(tpa.read_byte(2), 7);
}

#[test]
fn steal_restore_round_trip() {
    let mut tpa = TransientProgramArea::new(0x1000, 32);
    assert_eq!(tpa.copy_program(&[10, 20, 30, 40, 50, 60, 70, 80]), Ok(()));
    let before = tpa.size_bytes();
    let addr = tpa.steal_top(7);
    // Seven bytes round up to two words, so the top came down by eight.
    assert_eq!(tpa.size_bytes(), before - 8);
    assert_eq!(addr, 0x1000 + (before as u32 - 8));
    // The stolen bytes are the bottom of the arena, moved, not destroyed.
    let stolen_offset = before - 8;
    for k in 0..8 {
        assert_eq!(tpa.read_byte(stolen_offset + k), tpa.read_byte(k));
    }
    tpa.restore_top(7);
    assert_eq!(tpa.size_bytes(), before);
    // The moved copy still sits at the top of the restored arena.
    assert_eq!(tpa.read_byte(stolen_offset), 10);
    assert_eq!(tpa.read_byte(stolen_offset + 7), 80);
}

/// A runner that records the call and reports a chosen exit code.
struct FakeRunner {
    called: usize,
    last_entry: u32,
    last_argc: usize,
    exit_code: i32,
}

impl ProgramRunner for FakeRunner {
    fn run(&mut self, entry: u32, argc: usize, argv: &Vec<&str>) -> i32 {
        self.called += 1;
        self.last_entry = entry;
        self.last_argc = argc;
        assert_eq!(argv.len(), 4);
        self.exit_code
    }
}

#[test]
fn execute_nothing_loaded() {
    let mut tpa = TransientProgramArea::new(0x1000, 64);
    let mut handles = HandleTable::new();
    let mut runner = FakeRunner { called: 0, last_entry: 0, last_argc: 0, exit_code: 0 };
    assert_eq!(
        tpa.execute(&[], &mut handles, &mut runner),
        Err(Error::NothingLoaded)
    );
    assert_eq!(runner.called, 0);
}

#[test]
fn execute_handle_hygiene() {
    let mut tpa = TransientProgramArea::new(0x1000, 256);
    let img = build_image(0x1001, 0x1000, 4, 4, &[1, 2, 3, 4]);
    assert!(tpa.load_program_from_bytes(&img).is_ok());
    let mut handles = HandleTable::new();
    // A leftover handle from before does not survive the run either.
    handles.set(5, OpenHandle::File(77));
    let mut runner = FakeRunner { called: 0, last_entry: 0, last_argc: 0, exit_code: 17 };
    let result = tpa.execute(&["hello", "world"], &mut handles, &mut runner);
    // A non-zero exit code is a successful run, not an executor failure.
    assert_eq!(result, Ok(17));
    assert_eq!(runner.called, 1);
    assert_eq!(runner.last_entry, 0x1001);
    assert_eq!(runner.last_argc, 2);
    // Every slot is closed after the run, and the program cannot be rerun
    // without being reloaded.
    for fd in 0..8 {
        assert!(matches!(handles.get(fd), OpenHandle::Closed));
    }
    assert_eq!(
        tpa.execute(&[], &mut handles, &mut runner),
        Err(Error::NothingLoaded)
    );
    assert_eq!(runner.called, 1);
}

#[test]
fn pack_args_pads_with_empty() {
    let argv = TransientProgramArea::pack_args(&["one", "two"]);
    assert_eq!(argv, vec!["one", "two", "", ""]);
    let argv = TransientProgramArea::pack_args(&[]);
    assert_eq!(argv, vec!["", "", "", ""]);
    let argv = TransientProgramArea::pack_args(&["a", "b", "c", "d", "e"]);
    assert_eq!(argv, vec!["a", "b", "c", "d"]);
}

#[test]
fn handle_allocation_fills_first_free_slot() {
    let mut handles = HandleTable::new();
    handles.init_stdio();
    assert!(matches!(handles.get(0), OpenHandle::StdIn));
    assert!(matches!(handles.get(1), OpenHandle::Stdout));
    assert!(matches!(handles.get(2), OpenHandle::StdErr));
    assert_eq!(handles.allocate(OpenHandle::Audio), Ok(3));
    assert_eq!(handles.allocate(OpenHandle::File(9)), Ok(4));
    for _ in 0..3 {
        assert!(handles.allocate(OpenHandle::File(1)).is_ok());
    }
    // The table is full now.
    assert_eq!(
        handles.allocate(OpenHandle::File(2)),
        Err(OpenHandle::File(2))
    );
}

#[test]
fn write_and_read_dispatch() {
    let mut handles = HandleTable::new();
    handles.init_stdio();
    assert_eq!(handles.allocate(OpenHandle::Audio), Ok(3));
    assert_eq!(handles.allocate(OpenHandle::File(42)), Ok(4));
    assert_eq!(
        hostapi::write_target(&handles, 1),
        Ok(hostapi::WriteTarget::Console)
    );
    assert_eq!(
        hostapi::write_target(&handles, 2),
        Ok(hostapi::WriteTarget::Console)
    );
    assert_eq!(
        hostapi::write_target(&handles, 0),
        Err(hostapi::ApiError::BadHandle)
    );
    assert_eq!(
        hostapi::write_target(&handles, 3),
        Ok(hostapi::WriteTarget::Audio)
    );
    assert_eq!(
        hostapi::write_target(&handles, 4),
        Ok(hostapi::WriteTarget::File(42))
    );
    assert_eq!(
        hostapi::write_target(&handles, 7),
        Err(hostapi::ApiError::BadHandle)
    );
    assert_eq!(
        hostapi::write_target(&handles, 8),
        Err(hostapi::ApiError::BadHandle)
    );
    assert_eq!(
        hostapi::read_source(&handles, 0),
        Ok(hostapi::ReadSource::Input)
    );
    assert_eq!(
        hostapi::read_source(&handles, 1),
        Err(hostapi::ApiError::BadHandle)
    );
    assert_eq!(
        hostapi::read_source(&handles, 4),
        Ok(hostapi::ReadSource::File(42))
    );
}

#[test]
fn ioctl_and_close_dispatch() {
    let mut handles = HandleTable::new();
    handles.init_stdio();
    assert_eq!(handles.allocate(OpenHandle::Audio), Ok(3));
    assert_eq!(
        hostapi::ioctl_decision(&handles, 3, 0),
        Ok(hostapi::AudioIoctl::GetConfig)
    );
    assert_eq!(
        hostapi::ioctl_decision(&handles, 3, 1),
        Ok(hostapi::AudioIoctl::SetConfig)
    );
    assert_eq!(
        hostapi::ioctl_decision(&handles, 3, 2),
        Ok(hostapi::AudioIoctl::GetSpace)
    );
    assert_eq!(
        hostapi::ioctl_decision(&handles, 3, 3),
        Err(hostapi::ApiError::InvalidArg)
    );
    assert_eq!(
        hostapi::ioctl_decision(&handles, 1, 0),
        Err(hostapi::ApiError::InvalidArg)
    );
    assert_eq!(
        hostapi::ioctl_decision(&handles, 9, 0),
        Err(hostapi::ApiError::BadHandle)
    );
    assert_eq!(hostapi::close_handle(&mut handles, 3), Ok(()));
    assert!(matches!(handles.get(3), OpenHandle::Closed));
    assert_eq!(
        hostapi::close_handle(&mut handles, 8),
        Err(hostapi::ApiError::BadHandle)
    );
    assert_eq!(
        hostapi::fstat_target(&handles, 0),
        Err(hostapi::ApiError::InvalidArg)
    );
    handles.set(5, OpenHandle::File(11));
    assert_eq!(hostapi::fstat_target(&handles, 5), Ok(11));
}

#[test]
fn audio_config_packing() {
    // 0xN000_0000_<rate>: the nibble names the format, the low bits the rate.
    let packed = hostapi::encode_audio_config(hostapi::SampleFormat::SixteenBitStereo, 44100);
    assert_eq!(packed, 0x3000_0000_0000_0000 + 44100);
    assert_eq!(
        hostapi::decode_audio_config(packed),
        Ok((hostapi::SampleFormat::SixteenBitStereo, 44100))
    );
    let packed = hostapi::encode_audio_config(hostapi::SampleFormat::EightBitMono, 8000);
    assert_eq!(packed, 8000);
    assert_eq!(
        hostapi::decode_audio_config(packed),
        Ok((hostapi::SampleFormat::EightBitMono, 8000))
    );
    assert_eq!(
        hostapi::decode_audio_config(0x4000_0000_0000_0000),
        Err(hostapi::ApiError::InvalidArg)
    );
}

#[test]
fn audio_path_recognition() {
    assert!(hostapi::is_audio_path("AUDIO:"));
    assert!(hostapi::is_audio_path("audio:"));
    assert!(hostapi::is_audio_path("Audio:"));
    assert!(!hostapi::is_audio_path("AUDIO"));
    assert!(!hostapi::is_audio_path("HELLO:"));
    assert!(!hostapi::is_audio_path("AUDIO:X"));
}

#[test]
fn open_decisions() {
    let mut handles = HandleTable::new();
    handles.init_stdio();
    assert_eq!(hostapi::open_audio(&mut handles), Ok(3));
    assert_eq!(hostapi::register_file(&mut handles, 3), Ok(4));
    for _ in 0..3 {
        assert!(hostapi::register_file(&mut handles, 0).is_ok());
    }
    // With every slot taken, an open reports that memory is exhausted.
    assert_eq!(
        hostapi::open_audio(&mut handles),
        Err(hostapi::ApiError::OutOfMemory)
    );
    assert_eq!(
        hostapi::register_file(&mut handles, 1),
        Err(hostapi::ApiError::OutOfMemory)
    );
    assert_eq!(
        hostapi::map_open_error(FsError::NotFound),
        hostapi::ApiError::InvalidPath
    );
    assert_eq!(
        hostapi::map_open_error(FsError::DeviceError),
        hostapi::ApiError::DeviceSpecific
    );
}

#[test]
fn system_start_raises_bottom() {
    let tpa = TransientProgramArea::new_with_system_start(0x1000, 64, 0x1010);
    assert_eq!(tpa.base, 0x1010);
    assert_eq!(tpa.size_bytes(), 48);
}

#[test]
fn header_parse_reads_fields() {
    let img = build_image(0xCAFE0, 0x1000, 4, 4, &[1, 2, 3, 4]);
    let (entry, phoff, phnum) = loader::parse_header(&img).unwrap();
    assert_eq!(entry, 0xCAFE0);
    assert_eq!(phoff, 0x34);
    assert_eq!(phnum, 1);
}
