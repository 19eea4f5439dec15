use rqpy::device::{Device, OSVersion};
use rqpy::engine::{
    AccountInfo, Engine, EngineError, LoginResponse, Protocol, QRCodeState, Session, FIRST_SEQ,
};
use rqpy::packet::{CodecError, EncryptType, Packet, PacketType};

fn device() -> Device {
    Device {
        display: String::new(),
        product: String::new(),
        device: String::new(),
        board: String::new(),
        model: String::new(),
        finger_print: String::new(),
        boot_id: String::new(),
        proc_version: String::new(),
        imei: "868371032421111".to_string(),
        brand: String::new(),
        bootloader: String::new(),
        base_band: String::new(),
        version: OSVersion {
            incremental: String::new(),
            release: String::new(),
            codename: String::new(),
            sdk: 0,
        },
        sim_info: String::new(),
        os_type: String::new(),
        mac_address: String::new(),
        ip_address: vec![],
        wifi_bssid: String::new(),
        wifi_ssid: String::new(),
        imsi_md5: vec![],
        android_id: String::new(),
        apn: String::new(),
        vendor_name: String::new(),
        vendor_os_name: String::new(),
    }
}

fn success() -> LoginResponse {
    LoginResponse::Success {
        uin: 10001,
        account_info: AccountInfo { nick: "nick".to_string(), age: 20, gender: 1 },
        session: Session {
            d2: vec![1, 2, 3],
            d2key: vec![7; 16],
            tgt: vec![4],
            tgt_key: vec![5],
        },
    }
}

fn confirmed(uin: i64) -> QRCodeState {
    QRCodeState::Confirmed {
        uin,
        tmp_pwd: vec![1],
        tmp_no_pic_sig: vec![2],
        tgt_qr: vec![3],
        tgtgt_key: vec![4, 4],
    }
}

#[test]
fn protocol_codes() {
    assert_eq!(Protocol::from_code(1), Protocol::AndroidPhone);
    assert_eq!(Protocol::from_code(2), Protocol::AndroidWatch);
    assert_eq!(Protocol::from_code(3), Protocol::MacOS);
    assert_eq!(Protocol::from_code(4), Protocol::QiDian);
    assert_eq!(Protocol::from_code(0), Protocol::IPad);
    assert_eq!(Protocol::from_code(5), Protocol::IPad);
    assert_eq!(Protocol::from_code(-1), Protocol::IPad);
}

#[test]
fn new_engine_has_no_account() {
    let e = Engine::new(device(), Protocol::AndroidWatch);
    assert_eq!(e.uin(), 0);
    assert!(!e.is_logged_in());
    assert_eq!(e.protocol(), Protocol::AndroidWatch);
    assert_eq!(e.device().imei, "868371032421111");
}

#[test]
fn uin_can_be_set() {
    let mut e = Engine::new(device(), Protocol::IPad);
    e.set_uin(10001);
    assert_eq!(e.uin(), 10001);
}

#[test]
fn heartbeat_before_login_is_refused() {
    let mut e = Engine::new(device(), Protocol::IPad);
    assert_eq!(e.build_heartbeat_packet(), Err(EngineError::NotAuthenticated));
    assert_eq!(e.uni_packet("OidbSvc.0x88d_0", &[1]), Err(EngineError::NotAuthenticated));
    assert_eq!(e.check_logged_in(), Err(EngineError::NotAuthenticated));
    assert_eq!(e.next_seq(), FIRST_SEQ);
}

#[test]
fn waiting_for_scan_changes_nothing() {
    let mut e = Engine::new(device(), Protocol::IPad);
    e.set_uin(42);
    e.apply_qrcode_state(&QRCodeState::WaitingForScan);
    e.apply_qrcode_state(&QRCodeState::ImageFetch { sig: vec![1], image: vec![2] });
    e.apply_qrcode_state(&QRCodeState::WaitingForConfirm);
    e.apply_qrcode_state(&QRCodeState::Timeout);
    e.apply_qrcode_state(&QRCodeState::Canceled);
    assert_eq!(e.uin(), 42);
    assert!(!e.has_qr_grant());
    assert!(!e.is_logged_in());
    assert_eq!(e.next_seq(), FIRST_SEQ);
}

#[test]
fn confirmation_sets_uin() {
    let mut e = Engine::new(device(), Protocol::IPad);
    assert!(!e.has_qr_grant());
    e.apply_qrcode_state(&confirmed(123456789));
    assert_eq!(e.uin(), 123456789);
    assert!(e.has_qr_grant());
    assert!(e.is_logged_in());
    assert!(!e.has_session());
}

#[test]
fn account_frozen_leaves_session_unset() {
    let mut e = Engine::new(device(), Protocol::IPad);
    e.apply_login_response(&LoginResponse::AccountFrozen);
    assert!(!e.is_logged_in());
    assert_eq!(e.build_heartbeat_packet(), Err(EngineError::NotAuthenticated));
}

#[test]
fn other_outcomes_leave_session_unset() {
    let mut e = Engine::new(device(), Protocol::IPad);
    e.apply_login_response(&LoginResponse::DeviceLockLogin);
    e.apply_login_response(&LoginResponse::TooManySMSRequest);
    e.apply_login_response(&LoginResponse::NeedCaptcha { verify_url: Some("u".to_string()) });
    e.apply_login_response(&LoginResponse::DeviceLocked {
        sms_phone: None,
        verify_url: None,
        message: Some("m".to_string()),
    });
    e.apply_login_response(&LoginResponse::UnknownStatus { status: 1, message: "bad".to_string() });
    assert!(!e.is_logged_in());
}

#[test]
fn success_enables_heartbeat() {
    let mut e = Engine::new(device(), Protocol::IPad);
    assert!(e.build_heartbeat_packet().is_err());
    e.apply_login_response(&success());
    assert_eq!(e.uin(), 10001);
    assert!(e.has_session());
    assert!(e.is_logged_in());
    assert_eq!(e.check_logged_in(), Ok(()));
    let p = e.build_heartbeat_packet().unwrap();
    assert_eq!(
        p,
        Packet {
            packet_type: PacketType::Login,
            encrypt_type: EncryptType::NoEncrypt,
            seq_id: FIRST_SEQ as i32,
            body: vec![],
            command_name: "Heartbeat.Alive".to_string(),
            uin: 10001,
            message: String::new(),
        }
    );
    assert_eq!(e.build_heartbeat_packet().unwrap().seq_id, FIRST_SEQ as i32 + 1);
}

#[test]
fn uni_packet_after_login() {
    let mut e = Engine::new(device(), Protocol::IPad);
    e.apply_login_response(&success());
    e.set_uin(777);
    let p = e.uni_packet("OidbSvc.0x88d_0", &[5, 6]).unwrap();
    assert_eq!(p.packet_type, PacketType::Simple);
    assert_eq!(p.encrypt_type, EncryptType::D2Key);
    assert_eq!(p.seq_id, FIRST_SEQ as i32);
    assert_eq!(p.command_name, "OidbSvc.0x88d_0");
    assert_eq!(p.body, vec![5, 6]);
    assert_eq!(p.uin, 777);
}

#[test]
fn sealing_keys() {
    let mut e = Engine::new(device(), Protocol::IPad);
    assert_eq!(e.sealing_key(EncryptType::NoEncrypt), Ok(None));
    assert_eq!(e.sealing_key(EncryptType::EmptyKey), Ok(Some(vec![0; 16])));
    assert_eq!(e.sealing_key(EncryptType::D2Key), Err(CodecError::MissingSessionKey));
    e.apply_login_response(&success());
    assert_eq!(e.sealing_key(EncryptType::D2Key), Ok(Some(vec![7; 16])));
}

#[test]
fn sequence_counts_up() {
    let mut e = Engine::new(device(), Protocol::IPad);
    assert_eq!(e.next_seq(), FIRST_SEQ);
    assert_eq!(e.next_seq(), FIRST_SEQ + 1);
}

#[test]
fn opening_key_follows_the_tag() {
    let mut e = Engine::new(device(), Protocol::IPad);
    let mut wire = vec![0u8; 18];
    wire[3] = 0x0B;
    assert_eq!(e.opening_key(&wire), Ok(None));
    wire[4] = 2;
    assert_eq!(e.opening_key(&wire), Ok(Some(vec![0; 16])));
    wire[4] = 1;
    assert_eq!(e.opening_key(&wire), Err(CodecError::MissingSessionKey));
    e.apply_login_response(&success());
    assert_eq!(e.opening_key(&wire), Ok(Some(vec![7; 16])));
    wire[4] = 9;
    assert_eq!(e.opening_key(&wire), Err(CodecError::InvalidEncryptType(9)));
    assert_eq!(e.opening_key(&wire[..5]), Err(CodecError::InvalidEncryptType(9)));
    assert_eq!(e.opening_key(&wire[..4]), Err(CodecError::Truncated));
    assert_eq!(e.opening_key(&[]), Err(CodecError::Truncated));
    wire[3] = 0x0C;
    assert_eq!(e.opening_key(&wire), Err(CodecError::InvalidPacketType(0x0C)));
}

#[test]
fn confirmation_enables_post_login_packets() {
    let mut e = Engine::new(device(), Protocol::IPad);
    assert_eq!(e.build_heartbeat_packet(), Err(EngineError::NotAuthenticated));
    e.apply_qrcode_state(&confirmed(555));
    assert_eq!(e.check_logged_in(), Ok(()));
    let h = e.build_heartbeat_packet().unwrap();
    assert_eq!(h.uin, 555);
    assert_eq!(h.seq_id, FIRST_SEQ as i32);
    let p = e.uni_packet("StatSvc.register", &[1]).unwrap();
    assert_eq!(p.uin, 555);
    assert_eq!(p.seq_id, FIRST_SEQ as i32 + 1);
}

#[test]
fn session_key_needs_a_login_success() {
    let mut e = Engine::new(device(), Protocol::IPad);
    e.apply_qrcode_state(&confirmed(555));
    assert_eq!(e.sealing_key(EncryptType::D2Key), Err(CodecError::MissingSessionKey));
    let mut wire = vec![0u8, 0, 0, 0x0B, 1];
    assert_eq!(e.opening_key(&wire), Err(CodecError::MissingSessionKey));
    e.apply_login_response(&success());
    assert_eq!(e.opening_key(&wire), Ok(Some(vec![7; 16])));
    wire[4] = 0;
    assert_eq!(e.opening_key(&wire), Ok(None));
}

#[test]
fn login_success_sets_the_account() {
    let mut e = Engine::new(device(), Protocol::IPad);
    e.apply_qrcode_state(&confirmed(1));
    e.apply_login_response(&LoginResponse::Success {
        uin: 2,
        account_info: AccountInfo { nick: String::new(), age: 0, gender: 0 },
        session: Session { d2: vec![], d2key: vec![3], tgt: vec![], tgt_key: vec![] },
    });
    assert_eq!(e.uin(), 2);
    assert_eq!(e.sealing_key(EncryptType::D2Key), Ok(Some(vec![3])));
}
