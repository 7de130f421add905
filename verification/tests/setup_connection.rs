use common_messages_sv2::bridge::{
    free_setup_connection, free_setup_connection_error, CSetupConnection, CSetupConnectionError,
    CVec,
};
use common_messages_sv2::error::Error;
use common_messages_sv2::messages::{
    SetupConnection, SetupConnectionError, SetupConnectionSuccess,
};
use common_messages_sv2::negotiation::{
    check_flags, has_requires_std_job, has_version_rolling, has_work_selection, select_version,
};
use common_messages_sv2::protocol::Protocol;
use common_messages_sv2::strings::Str0255;

fn str0255(bytes: &[u8]) -> Str0255<'static> {
    Str0255::try_from_vec(bytes.to_vec()).unwrap()
}

fn create_setup_connection() -> SetupConnection<'static> {
    SetupConnection {
        protocol: Protocol::MiningProtocol,
        min_version: 1,
        max_version: 4,
        flags: 0,
        endpoint_host: str0255(b"0.0.0.0"),
        endpoint_port: 0,
        vendor: str0255(b"vendor"),
        hardware_version: str0255(b"hw_version"),
        firmware: str0255(b"firmware"),
        device_id: str0255(b"device_id"),
    }
}

#[test]
fn test_check_flag() {
    let protocol = Protocol::MiningProtocol;
    let flag_available = 0b_0000_0000_0000_0000_0000_0000_0000_0000;
    let flag_required = 0b_0000_0000_0000_0000_0000_0000_0000_0001;
    assert!(SetupConnection::check_flags(protocol, flag_available, flag_required).unwrap());
}

#[test]
fn test_has_requires_std_job() {
    let flags = 0b_0000_0000_0000_0000_0000_0000_0000_0001;
    assert_eq!(has_requires_std_job(flags), true);
    let flags = 0b_0000_0000_0000_0000_0000_0000_0000_0010;
    assert_eq!(has_requires_std_job(flags), false);
}

#[test]
fn test_has_version_rolling() {
    let flags = 0b_0000_0000_0000_0000_0000_0000_0000_0010;
    assert_eq!(has_version_rolling(flags), true);
    let flags = 0b_0000_0000_0000_0000_0000_0000_0000_0001;
    assert_eq!(has_version_rolling(flags), false);
}

#[test]
fn test_has_work_selection() {
    let flags = 0b_0000_0000_0000_0000_0000_0000_0000_0100;
    assert_eq!(has_work_selection(flags), true);
    let flags = 0b_0000_0000_0000_0000_0000_0000_0000_0001;
    assert_eq!(has_work_selection(flags), false);
}

#[test]
fn test_get_version() {
    let setup_conn = create_setup_connection();
    assert_eq!(setup_conn.get_version(1, 5).unwrap(), 4);
    assert_eq!(setup_conn.get_version(6, 6), None);
}

#[test]
fn test_set_requires_std_job() {
    let mut setup_conn = create_setup_connection();
    assert!(!setup_conn.requires_standard_job());
    setup_conn.set_requires_standard_job();
    assert!(setup_conn.requires_standard_job());
}

#[test]
fn protocol_codes_round_trip() {
    let identities = [
        (Protocol::MiningProtocol, 0u8),
        (Protocol::JobDeclarationProtocol, 1u8),
        (Protocol::TemplateDistributionProtocol, 2u8),
        (Protocol::JobDistributionProtocol, 3u8),
    ];
    for (p, code) in identities {
        assert_eq!(p.encode(), code);
        assert_eq!(Protocol::decode(code).unwrap(), p);
        assert_eq!(Protocol::decode(p.encode()).unwrap(), p);
    }
}

#[test]
fn protocol_decode_rejects_unknown_codes() {
    for b in 4u8..=255u8 {
        assert_eq!(Protocol::decode(b), Err(Error::InvalidProtocolCode(b)));
    }
}

#[test]
fn select_version_scenarios() {
    assert_eq!(select_version(1, 4, 1, 5), Some(4));
    assert_eq!(select_version(1, 4, 6, 6), None);
    assert_eq!(select_version(1, 4, 4, 4), Some(4));
    assert_eq!(select_version(6, 6, 1, 4), None);
    assert_eq!(select_version(2, 9, 3, 5), Some(5));
}

#[test]
fn set_requires_standard_job_keeps_other_bits() {
    let mut conn = create_setup_connection();
    assert_eq!(conn.flags, 0);
    conn.set_requires_standard_job();
    assert_eq!(conn.flags, 1);
    assert!(conn.requires_standard_job());

    let mut conn = create_setup_connection();
    conn.flags = 0b1010;
    conn.set_requires_standard_job();
    assert_eq!(conn.flags, 0b1011);
    assert!(has_version_rolling(conn.flags));
    assert!(!has_work_selection(conn.flags));
}

#[test]
fn check_flags_mining_semantics() {
    // The local side requires version rolling and work selection.
    assert_eq!(check_flags(Protocol::MiningProtocol, 0b110, 0b110), Ok(true));
    assert_eq!(check_flags(Protocol::MiningProtocol, 0b110, 0), Ok(false));
    // Version rolling required locally but not asserted by the peer.
    assert_eq!(check_flags(Protocol::MiningProtocol, 0b010, 0b100), Ok(false));
    // The local side requires nothing.
    assert_eq!(check_flags(Protocol::MiningProtocol, 0, 0b111), Ok(true));
}

#[test]
fn check_flags_unimplemented_identities() {
    for p in [
        Protocol::JobDeclarationProtocol,
        Protocol::TemplateDistributionProtocol,
        Protocol::JobDistributionProtocol,
    ] {
        assert_eq!(check_flags(p, 0, 0), Err(Error::UnimplementedProtocolCheck(p)));
    }
}

#[test]
fn str0255_accepts_up_to_255_bytes() {
    let empty = Str0255::try_from_vec(Vec::new()).unwrap();
    assert_eq!(empty.len(), 0);
    assert_eq!(empty.as_bytes(), b"");

    let max = Str0255::try_from_vec(vec![b'a'; 255]).unwrap();
    assert_eq!(max.len(), 255);
    assert_eq!(max.get_size(), 256);

    let backing = vec![b'b'; 255];
    let borrowed = Str0255::try_from_slice(&backing).unwrap();
    assert_eq!(borrowed.as_bytes(), backing.as_slice());
}

#[test]
fn str0255_rejects_256_bytes() {
    assert!(matches!(
        Str0255::try_from_vec(vec![b'a'; 256]),
        Err(Error::StringTooLong)
    ));
    let backing = vec![b'b'; 256];
    assert!(matches!(
        Str0255::try_from_slice(&backing),
        Err(Error::StringTooLong)
    ));
}

#[test]
fn setup_connection_mirror_round_trip() {
    let long = vec![b'h'; 255];
    let conn = SetupConnection {
        protocol: Protocol::TemplateDistributionProtocol,
        min_version: 2,
        max_version: 7,
        flags: 0b101,
        endpoint_host: str0255(&long),
        endpoint_port: 4444,
        vendor: str0255(b"vendor"),
        hardware_version: str0255(b""),
        firmware: str0255(b"fw-2.0"),
        device_id: str0255(b""),
    };
    let mirror = CSetupConnection::from_rust_rep(conn);
    {
        let view = mirror.to_rust_rep_mut().unwrap();
        assert_eq!(view.protocol, Protocol::TemplateDistributionProtocol);
        assert_eq!(view.min_version, 2);
        assert_eq!(view.max_version, 7);
        assert_eq!(view.flags, 0b101);
        assert_eq!(view.endpoint_host.as_bytes(), long.as_slice());
        assert_eq!(view.endpoint_port, 4444);
        assert_eq!(view.vendor.as_bytes(), b"vendor");
        assert_eq!(view.hardware_version.as_bytes(), b"");
        assert_eq!(view.firmware.as_bytes(), b"fw-2.0");
        assert_eq!(view.device_id.as_bytes(), b"");
    }
    // Exactly one release per mirror: the call consumes the value, so a
    // second release would not compile.
    free_setup_connection(mirror);
}

#[test]
fn setup_connection_mirror_rejects_oversized_buffer() {
    let mirror = CSetupConnection {
        protocol: Protocol::MiningProtocol,
        min_version: 2,
        max_version: 2,
        flags: 0,
        endpoint_host: CVec::from_vec(vec![b'h'; 256]),
        endpoint_port: 0,
        vendor: CVec::from_vec(b"vendor".to_vec()),
        hardware_version: CVec::from_vec(Vec::new()),
        firmware: CVec::from_vec(Vec::new()),
        device_id: CVec::from_vec(Vec::new()),
    };
    assert!(matches!(mirror.to_rust_rep_mut(), Err(Error::StringTooLong)));
    free_setup_connection(mirror);
}

#[test]
fn error_mirror_round_trip() {
    let err = SetupConnectionError {
        flags: 0b100,
        error_code: str0255(b"unsupported-feature-flags"),
    };
    let mirror = CSetupConnectionError::from_rust_rep(err);
    {
        let view = mirror.to_rust_rep_mut().unwrap();
        assert_eq!(view.flags, 0b100);
        assert_eq!(view.error_code.as_bytes(), b"unsupported-feature-flags");
    }
    free_setup_connection_error(mirror);
}

#[test]
fn encoded_sizes_are_exact() {
    assert_eq!(Protocol::MiningProtocol.get_size(), 1);
    let success = SetupConnectionSuccess { used_version: 2, flags: 0 };
    assert_eq!(success.get_size(), 6);
    let err = SetupConnectionError {
        flags: 0,
        error_code: str0255(b"unsupported-protocol"),
    };
    assert_eq!(err.get_size(), 4 + 1 + 20);
    let conn = create_setup_connection();
    // 16 fixed bytes plus the bytes of the five bounded strings.
    assert_eq!(conn.get_size(), 16 + 7 + 6 + 10 + 8 + 9);
}
