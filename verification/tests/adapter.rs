use keyring_macos::credential::{MacCredential, MacKeychainDomain, Platform, PlatformCredential};
use keyring_macos::error::{decode_error, Error, ErrorCode, NativeStatus};
use keyring_macos::macos::{decode_password, delete_password, get_password, platform, set_password};

fn mac_credential() -> PlatformCredential {
    PlatformCredential::Mac(MacCredential {
        domain: MacKeychainDomain::User,
        service: "svc".to_string(),
        account: "acct".to_string(),
    })
}

#[test]
fn platform_is_macos() {
    assert_eq!(platform(), Platform::MacOs);
}

#[test]
fn store_resolves_request() {
    let req = set_password(&mac_credential(), "hunter2").unwrap();
    assert_eq!(req.domain, MacKeychainDomain::User);
    assert_eq!(req.service, "svc");
    assert_eq!(req.account, "acct");
    assert_eq!(req.secret, "hunter2".as_bytes().to_vec());
}

#[test]
fn store_then_fetch_round_trip() {
    let req = set_password(&mac_credential(), "p\u{00e4}ssword \u{2764}").unwrap();
    let fetched = decode_password(req.secret).unwrap();
    assert_eq!(fetched, "p\u{00e4}ssword \u{2764}");
}

#[test]
fn second_store_wins_round_trip() {
    let first = set_password(&mac_credential(), "first").unwrap();
    let second = set_password(&mac_credential(), "second").unwrap();
    assert_eq!(first.service, second.service);
    assert_eq!(first.account, second.account);
    assert_eq!(first.domain, second.domain);
    let fetched = decode_password(second.secret).unwrap();
    assert_eq!(fetched, "second");
    assert_ne!(fetched, "first");
}

#[test]
fn fetch_resolves_request() {
    let req = get_password(&mac_credential()).unwrap();
    assert_eq!(req.domain, MacKeychainDomain::User);
    assert_eq!(req.service, "svc");
    assert_eq!(req.account, "acct");
}

#[test]
fn delete_resolves_request() {
    let req = delete_password(&mac_credential()).unwrap();
    assert_eq!(req.domain, MacKeychainDomain::User);
    assert_eq!(req.service, "svc");
    assert_eq!(req.account, "acct");
}

#[test]
fn store_rejects_foreign_descriptor() {
    let err = set_password(&PlatformCredential::Linux, "pw").unwrap_err();
    assert!(matches!(err.code, ErrorCode::BadCredentialMapPlatform));
    assert!(err.platform.is_none());
}

#[test]
fn fetch_rejects_foreign_descriptor() {
    let err = get_password(&PlatformCredential::Win).unwrap_err();
    assert!(matches!(err.code, ErrorCode::BadCredentialMapPlatform));
    assert!(err.platform.is_none());
}

#[test]
fn delete_rejects_foreign_descriptor() {
    let err = delete_password(&PlatformCredential::Linux).unwrap_err();
    assert!(matches!(err.code, ErrorCode::BadCredentialMapPlatform));
    assert!(err.platform.is_none());
}

#[test]
fn decode_valid_secret() {
    assert_eq!(decode_password("secret".as_bytes().to_vec()).unwrap(), "secret");
}

#[test]
fn decode_empty_secret() {
    assert_eq!(decode_password(Vec::new()).unwrap(), "");
}

#[test]
fn decode_invalid_secret_keeps_bytes() {
    let bytes = vec![0xff, 0xfe, 0x01, 0x62];
    let err = decode_password(bytes.clone()).unwrap_err();
    assert!(err.platform.is_none());
    match err.code {
        ErrorCode::BadEncoding(label, raw) => {
            assert_eq!(label, "password");
            assert_eq!(raw, bytes);
        }
        other => panic!("expected BadEncoding, got {:?}", other),
    }
}

fn status(code: i32) -> NativeStatus {
    NativeStatus {
        code,
        message: format!("status {}", code),
    }
}

#[test]
fn not_available_means_no_storage_access() {
    let err = decode_error(status(-25291));
    assert!(matches!(err.code, ErrorCode::NoStorageAccess));
    assert_eq!(err.platform.unwrap().code, -25291);
}

#[test]
fn read_only_means_no_storage_access() {
    let err = decode_error(status(-25292));
    assert!(matches!(err.code, ErrorCode::NoStorageAccess));
}

#[test]
fn no_such_keychain_means_no_storage_access() {
    let err = decode_error(status(-25294));
    assert!(matches!(err.code, ErrorCode::NoStorageAccess));
}

#[test]
fn invalid_keychain_means_no_storage_access() {
    let err = decode_error(status(-25295));
    assert!(matches!(err.code, ErrorCode::NoStorageAccess));
}

#[test]
fn item_not_found_means_no_entry() {
    let err = decode_error(status(-25300));
    assert!(matches!(err.code, ErrorCode::NoEntry));
    let native = err.platform.unwrap();
    assert_eq!(native.code, -25300);
    assert_eq!(native.message, "status -25300");
}

#[test]
fn unlisted_codes_mean_platform_failure() {
    for code in [-25293, -25296, -25299, -25301, 0, 1, 42, i32::MIN, i32::MAX] {
        let err = decode_error(status(code));
        assert!(matches!(err.code, ErrorCode::PlatformFailure));
        assert_eq!(err.platform.unwrap().code, code);
    }
}

#[test]
fn error_constructors() {
    let plain = Error::new(ErrorCode::NoEntry);
    assert!(matches!(plain.code, ErrorCode::NoEntry));
    assert!(plain.platform.is_none());
    let native = Error::new_from_platform(ErrorCode::PlatformFailure, status(3));
    assert!(matches!(native.code, ErrorCode::PlatformFailure));
    assert_eq!(native.platform.unwrap().code, 3);
}
