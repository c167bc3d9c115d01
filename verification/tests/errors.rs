use sys_abi::ErrorCode;

#[test]
fn success_is_zero_and_ok() {
    let ok = ErrorCode::from_u16(0);
    assert_eq!(ok, ErrorCode::Success);
    assert_eq!(ok.as_u16(), 0);
    assert!(ok.is_ok());
    assert!(!ok.is_err());
}

#[test]
fn every_named_code_round_trips() {
    let named = [
        (0u16, ErrorCode::Success),
        (1, ErrorCode::UnspecifiedError),
        (2, ErrorCode::UnknownError),
        (3, ErrorCode::NotReady),
        (5, ErrorCode::NotImplemented),
        (6, ErrorCode::VersionTooHigh),
        (7, ErrorCode::VersionTooLow),
        (8, ErrorCode::InvalidArgument),
        (9, ErrorCode::OutOfMemory),
        (10, ErrorCode::NotAllowed),
        (11, ErrorCode::NotFound),
        (12, ErrorCode::InternalError),
        (13, ErrorCode::TimedOut),
        (14, ErrorCode::AlreadyInUse),
        (15, ErrorCode::UnexpectedEof),
        (16, ErrorCode::InvalidFilename),
        (17, ErrorCode::NotADirectory),
        (18, ErrorCode::BadHandle),
        (19, ErrorCode::FileTooLarge),
    ];
    for (v, c) in named {
        assert_eq!(ErrorCode::from_u16(v), c);
        assert_eq!(c.as_u16(), v);
        assert_eq!(c.is_err(), v != 0);
    }
}

#[test]
fn decode_is_total_and_round_trip_idempotent() {
    for v in 0..=u16::MAX {
        let once = ErrorCode::from_u16(v);
        let again = ErrorCode::from_u16(once.as_u16());
        assert_eq!(again, once, "value {}", v);
    }
}

#[test]
fn values_at_or_above_sentinel_decode_to_unknown() {
    let sentinel = ErrorCode::MaxKernelError.as_u16();
    assert_eq!(sentinel, 20);
    for v in sentinel..=u16::MAX {
        assert_eq!(ErrorCode::from_u16(v), ErrorCode::UnknownError);
    }
}

#[test]
fn unassigned_value_below_sentinel_decodes_to_unknown() {
    assert_eq!(ErrorCode::from_u16(4), ErrorCode::UnknownError);
}

#[test]
fn conversion_traits_match_the_methods() {
    assert_eq!(u16::from(ErrorCode::TimedOut), 13);
    assert_eq!(ErrorCode::from(13u16), ErrorCode::TimedOut);
    let c: ErrorCode = 11u16.into();
    assert_eq!(c, ErrorCode::NotFound);
    let v: u16 = ErrorCode::Success.into();
    assert_eq!(v, 0);
}
