use biometric_gate::error::BiometricError;
use biometric_gate::gate::AuthorizationReply;
use biometric_gate::gate::Biometric;
use biometric_gate::gate::CheckSession;
use biometric_gate::gate::EnumerationSession;
use biometric_gate::gate::KeyMaterial;

fn granted() -> CheckSession {
    CheckSession::Completed(AuthorizationReply { is_authorized: true, is_challenge: false })
}

fn denied() -> CheckSession {
    CheckSession::Completed(AuthorizationReply { is_authorized: false, is_challenge: true })
}

#[test]
fn prompt_grants_when_daemon_authorizes() {
    let r = Biometric::prompt(Vec::new(), String::from("Unlock vault"), granted());
    assert_eq!(r, Ok(true));
}

#[test]
fn prompt_denies_when_daemon_denies() {
    let r = Biometric::prompt(Vec::new(), String::from("Unlock vault"), denied());
    assert_eq!(r, Ok(false));
}

#[test]
fn prompt_ignores_message_and_window_handle() {
    let a = Biometric::prompt(Vec::new(), String::from("Unlock vault"), granted());
    let b = Biometric::prompt(vec![1u8, 2, 3], String::from("something else"), granted());
    let c = Biometric::prompt(Vec::new(), String::new(), granted());
    assert_eq!(a, Ok(true));
    assert_eq!(b, Ok(true));
    assert_eq!(c, Ok(true));
}

#[test]
fn prompt_fails_closed_on_protocol_error() {
    let r = Biometric::prompt(Vec::new(), String::from("Unlock vault"), CheckSession::CheckFailed);
    assert_eq!(r, Ok(false));
}

#[test]
fn prompt_propagates_connection_error() {
    let r = Biometric::prompt(Vec::new(), String::from("Unlock vault"), CheckSession::ConnectFailed);
    assert_eq!(r, Err(BiometricError::Connection));
    assert_ne!(r, Ok(false));
}

#[test]
fn available_false_when_unlock_not_registered() {
    let actions = vec![String::from("com.other.Action")];
    let r = Biometric::available(EnumerationSession::Enumerated(actions));
    assert_eq!(r, Ok(false));
}

#[test]
fn available_true_when_unlock_registered() {
    let actions = vec![
        String::from("com.bitwarden.Bitwarden.unlock"),
        String::from("com.other.Action"),
    ];
    let r = Biometric::available(EnumerationSession::Enumerated(actions));
    assert_eq!(r, Ok(true));
}

#[test]
fn available_true_when_unlock_registered_last() {
    let actions = vec![
        String::from("com.other.Action"),
        String::from("com.bitwarden.Bitwarden.unlock"),
    ];
    let r = Biometric::available(EnumerationSession::Enumerated(actions));
    assert_eq!(r, Ok(true));
}

#[test]
fn available_false_for_empty_registry() {
    let r = Biometric::available(EnumerationSession::Enumerated(Vec::new()));
    assert_eq!(r, Ok(false));
}

#[test]
fn available_rejects_inexact_matches() {
    let actions = vec![
        String::from("com.bitwarden.Bitwarden"),
        String::from("com.bitwarden.Bitwarden.unlock.extra"),
        String::from("COM.BITWARDEN.BITWARDEN.UNLOCK"),
    ];
    let r = Biometric::available(EnumerationSession::Enumerated(actions));
    assert_eq!(r, Ok(false));
}

#[test]
fn available_propagates_enumeration_error() {
    let r = Biometric::available(EnumerationSession::EnumerateFailed);
    assert_eq!(r, Err(BiometricError::Protocol));
}

#[test]
fn available_propagates_connection_error() {
    let r = Biometric::available(EnumerationSession::ConnectFailed);
    assert_eq!(r, Err(BiometricError::Connection));
}

#[test]
fn unlock_action_is_fixed() {
    assert_eq!(biometric_gate::gate::unlock_action(), "com.bitwarden.Bitwarden.unlock");
}

#[test]
fn derive_key_material_is_unimplemented() {
    let r = Biometric::derive_key_material(None);
    assert!(matches!(r, Err(BiometricError::Unimplemented)));
    let r = Biometric::derive_key_material(Some("challenge"));
    assert!(matches!(r, Err(BiometricError::Unimplemented)));
}

#[test]
fn set_biometric_secret_is_unimplemented() {
    let r = Biometric::set_biometric_secret("svc", "acct", "secret", None, "iv");
    assert!(matches!(r, Err(BiometricError::Unimplemented)));
    let km = KeyMaterial { os_key_part_b64: String::from("os"), client_key_part_b64: None };
    let r = Biometric::set_biometric_secret("", "", "", Some(km), "");
    assert!(matches!(r, Err(BiometricError::Unimplemented)));
}

#[test]
fn get_biometric_secret_is_unimplemented() {
    let r = Biometric::get_biometric_secret("svc", "acct", None);
    assert!(matches!(r, Err(BiometricError::Unimplemented)));
    let km = KeyMaterial {
        os_key_part_b64: String::from("os"),
        client_key_part_b64: Some(String::from("client")),
    };
    let r = Biometric::get_biometric_secret("", "", Some(km));
    assert!(matches!(r, Err(BiometricError::Unimplemented)));
}

#[test]
fn error_messages_are_distinct() {
    let connection = BiometricError::Connection.message();
    let protocol = BiometricError::Protocol.message();
    let unimplemented = BiometricError::Unimplemented.message();
    assert_eq!(connection, "could not reach the authorization service");
    assert_eq!(protocol, "the authorization service rejected the request");
    assert_eq!(unimplemented, "not supported on this platform");
    assert_ne!(connection, protocol);
    assert_ne!(protocol, unimplemented);
}
