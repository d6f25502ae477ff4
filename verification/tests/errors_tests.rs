use xdrfile::{check_code, to_c_int, Error, ErrorCode, ErrorTask, FileMode};

#[test]
fn test_is_eof() {
    let error = Error::CApiError {
        code: 11.into(),
        task: ErrorTask::Read,
    };
    assert!(error.is_eof());

    let error = Error::CApiError {
        code: ErrorCode::ExdrEndOfFile,
        task: ErrorTask::Read,
    };
    assert!(error.is_eof());

    let error = Error::CApiError {
        code: (11 + 1).into(),
        task: ErrorTask::Read,
    };
    assert!(!error.is_eof());

    let error = Error::CApiError {
        code: 0.into(),
        task: ErrorTask::Read,
    };
    assert!(!error.is_eof());

    let error = Error::CApiError {
        code: 255.into(),
        task: ErrorTask::Read,
    };
    assert!(!error.is_eof());

    let error = Error::CouldNotOpen {
        path: String::from("not/a/file"),
        mode: FileMode::Read,
    };
    assert!(!error.is_eof());
}

#[test]
fn test_from_correct_type() {
    let code = 3.into();
    let task = ErrorTask::Read;
    let expected = Error::CApiError { code, task };
    let err = Error::from((code, task));
    assert_eq!(expected, err);
}

#[test]
fn test_check_code() {
    let code: ErrorCode = 0.into();
    assert!(!check_code(code, ErrorTask::Read).is_some());

    for i in vec![1, 10, 100, 1000] {
        let code: ErrorCode = i.into();
        assert!(check_code(code, ErrorTask::Read).is_some());
    }
}

#[test]
fn test_to_c_int() {
    assert_eq!(24234 as i32, to_c_int(24234_usize, ErrorTask::Read).unwrap());

    let expected = Error::CastToCintFailed {
        task: ErrorTask::Write,
        value: 3_294_967_295_usize,
    };
    assert_eq!(
        Err(expected),
        to_c_int(3_294_967_295_usize, ErrorTask::Write)
    );
}

#[test]
fn test_from_raw_codes() {
    assert_eq!(ErrorCode::from_raw(0), ErrorCode::ExdrOk);
    assert_eq!(ErrorCode::from_raw(1), ErrorCode::ExdrHeader);
    assert_eq!(ErrorCode::from_raw(2), ErrorCode::ExdrString);
    assert_eq!(ErrorCode::from_raw(3), ErrorCode::ExdrDouble);
    assert_eq!(ErrorCode::from_raw(4), ErrorCode::ExdrInt);
    assert_eq!(ErrorCode::from_raw(5), ErrorCode::ExdrFloat);
    assert_eq!(ErrorCode::from_raw(6), ErrorCode::ExdrUint);
    assert_eq!(ErrorCode::from_raw(7), ErrorCode::Exdr3dx);
    assert_eq!(ErrorCode::from_raw(8), ErrorCode::ExdrClose);
    assert_eq!(ErrorCode::from_raw(9), ErrorCode::ExdrMagic);
    assert_eq!(ErrorCode::from_raw(10), ErrorCode::ExdrNoMem);
    assert_eq!(ErrorCode::from_raw(11), ErrorCode::ExdrEndOfFile);
    assert_eq!(ErrorCode::from_raw(12), ErrorCode::ExdrFileNotFound);
    assert_eq!(ErrorCode::from_raw(13), ErrorCode::ExdrNr);
    assert_eq!(ErrorCode::from_raw(14), ErrorCode::UnmatchedCode(14));
    assert_eq!(ErrorCode::from_raw(-7), ErrorCode::UnmatchedCode(-7));
}

#[test]
fn test_error_code_is_eof() {
    assert!(ErrorCode::ExdrEndOfFile.is_eof());
    assert!(!ErrorCode::ExdrOk.is_eof());
    assert!(!ErrorCode::ExdrMagic.is_eof());
    assert!(!ErrorCode::UnmatchedCode(11).is_eof());
}

#[test]
fn test_nested_cause_chain() {
    let inner = Error::CApiError {
        code: ErrorCode::ExdrEndOfFile,
        task: ErrorTask::ReadNumAtoms,
    };
    let outer = Error::CouldNotCheckNAtoms(Box::new(inner.clone()));
    assert_eq!(outer.code(), Some(ErrorCode::ExdrEndOfFile));
    assert_eq!(outer.task(), Some(ErrorTask::ReadNumAtoms));
    assert!(outer.is_eof());
    assert_eq!(outer.source(), Some(&inner));

    let plain = Error::InvalidOsStr;
    assert_eq!(plain.code(), None);
    assert_eq!(plain.task(), None);
    assert!(!plain.is_eof());
    assert_eq!(plain.source(), None);
}

#[test]
fn test_task_descriptions() {
    assert_eq!(ErrorTask::Read.description(), "reading trajectory");
    assert_eq!(ErrorTask::Read.uppercase_first(), "Reading trajectory");
    assert_eq!(
        ErrorTask::ReadNumAtoms.description(),
        "reading atom number from trajectory"
    );
    assert_eq!(ErrorTask::Write.uppercase_first(), "Writing trajectory");
    assert_eq!(ErrorTask::Flush.description(), "flushing trajectory");
    assert_eq!(ErrorTask::Seek.uppercase_first(), "Seeking in trajectory");
}
