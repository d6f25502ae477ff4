use xdrfile::{
    read_precheck, seek_params, tell_offset, write_precheck, Error, ErrorCode, ErrorTask,
    FileMode, Frame, SeekFrom, TRRTrajectory, XTCTrajectory, DEFAULT_PRECISION_BITS,
};
use xdrfile::{finish_flush, finish_seek, finish_write};

#[test]
fn test_err_could_not_open() {
    let file_name = "non-existent.xtc";

    if let Err(e) = XTCTrajectory::open(String::from(file_name), FileMode::Read, false) {
        if let Error::CouldNotOpen {
            path: err_path,
            mode: err_mode,
        } = e
        {
            assert_eq!(file_name, err_path);
            assert_eq!(FileMode::Read, err_mode)
        } else {
            panic!("Wrong Error type")
        }
    } else {
        panic!("open with no native resource must fail")
    }
}

#[test]
fn test_open_modes() {
    let t = XTCTrajectory::open_read(String::from("a.xtc"), true).unwrap();
    assert_eq!(t.cached_num_atoms(), None);
    assert_eq!(t.precision_bits(), DEFAULT_PRECISION_BITS);
    assert_eq!(f32::from_bits(DEFAULT_PRECISION_BITS), 1000.0);

    assert!(XTCTrajectory::open_write(String::from("a.xtc"), true).is_ok());
    assert!(XTCTrajectory::open_append(String::from("a.xtc"), true).is_ok());
    assert!(matches!(
        XTCTrajectory::open_write(String::from("a.xtc"), false),
        Err(Error::CouldNotOpen { mode: FileMode::Write, .. })
    ));

    let t = TRRTrajectory::open_read(String::from("a.trr"), true).unwrap();
    assert_eq!(t.cached_num_atoms(), None);
    assert!(matches!(
        TRRTrajectory::open_append(String::from("a.trr"), false),
        Err(Error::CouldNotOpen { mode: FileMode::Append, .. })
    ));
}

#[test]
fn test_atom_count_memoization() {
    let mut t = XTCTrajectory::open_read(String::from("a.xtc"), true).unwrap();
    assert_eq!(t.cached_num_atoms(), None);

    // First successful probe fills the cache.
    assert_eq!(t.record_num_atoms(ErrorCode::ExdrOk, 5), Ok(5));
    assert_eq!(t.cached_num_atoms(), Some(5));

    // The cache is terminal: later probe outcomes change nothing.
    assert_eq!(t.record_num_atoms(ErrorCode::ExdrOk, 9), Ok(5));
    assert_eq!(t.record_num_atoms(ErrorCode::ExdrMagic, 0), Ok(5));
    assert_eq!(t.cached_num_atoms(), Some(5));
}

#[test]
fn test_err_could_not_read_atom_nr() {
    // Probing a file that is not a trajectory reports the native magic
    // number failure under the atom-count task, and the failure is not
    // cached: the probe is re-attempted.
    let mut t = TRRTrajectory::open_read(String::from("README.md"), true).unwrap();
    let e = t.record_num_atoms(ErrorCode::ExdrMagic, 0).unwrap_err();
    assert_eq!(Some(ErrorCode::ExdrMagic), e.code());
    assert_eq!(Some(ErrorTask::ReadNumAtoms), e.task());
    assert_eq!(t.cached_num_atoms(), None);

    // A later successful probe still fills the cache.
    assert_eq!(t.record_num_atoms(ErrorCode::ExdrOk, 3), Ok(3));
    assert_eq!(t.cached_num_atoms(), Some(3));
}

#[test]
fn test_wrong_size_frame() {
    let frame = Frame::new();

    let result = read_precheck(Ok(975), &frame);
    if let Err(e) = result {
        assert!(matches!(e, Error::WrongSizeFrame { .. }));
        assert_eq!(
            e,
            Error::WrongSizeFrame {
                expected: 975,
                found: 0
            }
        );
    } else {
        panic!("A read with an incorrectly sized frame should not succeed")
    }
}

#[test]
fn test_read_precheck_paths() {
    let frame = Frame::with_len(2);

    // Matching size passes the count through as the native int argument.
    assert_eq!(read_precheck(Ok(2), &frame), Ok(2));

    // A failed atom count resolution is wrapped as a nested cause.
    let inner = Error::CApiError {
        code: ErrorCode::ExdrMagic,
        task: ErrorTask::ReadNumAtoms,
    };
    let wrapped = read_precheck(Err(inner.clone()), &frame).unwrap_err();
    assert_eq!(wrapped, Error::CouldNotCheckNAtoms(Box::new(inner)));
    assert_eq!(wrapped.code(), Some(ErrorCode::ExdrMagic));
}

#[test]
fn test_finish_read_success() {
    let mut t = XTCTrajectory::open_read(String::from("a.xtc"), true).unwrap();
    let mut frame = Frame::with_len(2);
    frame.coords[0] = [1.0f32.to_bits(); 3];
    frame.coords[1] = [1.0f32.to_bits(); 3];

    let diag = [
        [1.0f32.to_bits(), 0, 0],
        [0, 1.0f32.to_bits(), 0],
        [0, 0, 1.0f32.to_bits()],
    ];
    let r = t.finish_read(
        &mut frame,
        ErrorCode::ExdrOk,
        5,
        2.0f32.to_bits(),
        diag,
        998.5f32.to_bits(),
    );
    assert_eq!(r, Ok(()));
    assert_eq!(frame.step, 5);
    assert_eq!(frame.time, 2.0f32.to_bits());
    assert_eq!(frame.box_vector, diag);
    assert_eq!(frame.coords[0], [1.0f32.to_bits(); 3]);
    assert_eq!(t.precision_bits(), 998.5f32.to_bits());
}

#[test]
fn test_finish_read_eof_and_failure() {
    let mut t = XTCTrajectory::open_read(String::from("a.xtc"), true).unwrap();
    let mut frame = Frame::with_len(2);

    // Reading past the last frame reports the end of file code.
    let e = t
        .finish_read(&mut frame, ErrorCode::ExdrEndOfFile, 0, 0, [[0u32; 3]; 3], 0)
        .unwrap_err();
    assert!(e.is_eof());
    assert_eq!(e.task(), Some(ErrorTask::Read));
    assert_eq!(frame.step, 0);

    // A corrupt container is a read failure that is not an end of file.
    let e = t
        .finish_read(&mut frame, ErrorCode::ExdrMagic, 0, 0, [[0u32; 3]; 3], 0)
        .unwrap_err();
    assert!(!e.is_eof());
    assert_eq!(e.code(), Some(ErrorCode::ExdrMagic));
}

#[test]
fn test_finish_read_step_out_of_range() {
    let mut t = TRRTrajectory::open_read(String::from("a.trr"), true).unwrap();
    let mut frame = Frame::with_len(1);
    frame.step = 3;
    let e = t
        .finish_read(&mut frame, ErrorCode::ExdrOk, -17, 1.5f32.to_bits(), [[0u32; 3]; 3])
        .unwrap_err();
    assert_eq!(e, Error::StepSizeOutOfRange(-17));
    // The scalar payloads were applied, the step was not.
    assert_eq!(frame.time, 1.5f32.to_bits());
    assert_eq!(frame.step, 3);
}

#[test]
fn test_write_precheck() {
    let mut frame = Frame::with_len(2);
    frame.step = 5;
    assert_eq!(write_precheck(&frame), Ok((2, 5)));

    frame.step = (i32::MAX as usize) + 1;
    assert_eq!(
        write_precheck(&frame),
        Err(Error::CastToCintFailed {
            value: (i32::MAX as usize) + 1,
            task: ErrorTask::Write
        })
    );
}

#[test]
fn test_finish_codes() {
    assert_eq!(finish_write(ErrorCode::ExdrOk), Ok(()));
    assert_eq!(
        finish_write(ErrorCode::ExdrFloat),
        Err(Error::CApiError {
            code: ErrorCode::ExdrFloat,
            task: ErrorTask::Write
        })
    );
    assert_eq!(finish_flush(ErrorCode::ExdrOk), Ok(()));
    assert_eq!(
        finish_flush(ErrorCode::ExdrNoMem),
        Err(Error::CApiError {
            code: ErrorCode::ExdrNoMem,
            task: ErrorTask::Flush
        })
    );
    assert_eq!(finish_seek(ErrorCode::ExdrOk), Ok(()));
    assert_eq!(
        finish_seek(ErrorCode::ExdrNr),
        Err(Error::CApiError {
            code: ErrorCode::ExdrNr,
            task: ErrorTask::Seek
        })
    );
}

#[test]
fn test_seek() {
    // The three seek origins map to the native whence values 0, 1 and 2,
    // and a seek by one frame's byte length lands where the writer's
    // recorded offset says.
    assert_eq!(seek_params(SeekFrom::Current(144)), (1, 144));
    assert_eq!(seek_params(SeekFrom::Start(144)), (0, 144));
    assert_eq!(seek_params(SeekFrom::End(-144)), (2, -144));
    assert_eq!(seek_params(SeekFrom::Current(-16)), (1, -16));
}

#[test]
fn test_tell() {
    assert_eq!(tell_offset(0), 0);
    assert_eq!(tell_offset(144), 144);
    assert_eq!(tell_offset(i64::MAX), i64::MAX as u64);
}
