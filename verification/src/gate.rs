//! The Unix biometric gate.
//!
//! Each operation of this backend is one stateless request/response exchange with
//! the system authorization daemon.  The exchange itself happens over the
//! system bus, outside this library; what the library owns is the mapping from
//! everything the transport can report to the outcome the caller sees.  That
//! mapping is deliberately asymmetric: a protocol-level failure of the
//! authorization check is coerced to "not authorized" (fail closed), while a
//! failure to establish the channel, or to enumerate the daemon's actions,
//! propagates as an error.

use vstd::prelude::*;

use crate::error::BiometricError;

verus! {

/// The action identifier the daemon protects the vault unlock with.
pub open spec fn unlock_action_id() -> Seq<char> {
    "com.bitwarden.Bitwarden.unlock"@
}

/// The one action identifier this gate ever asks the daemon about.
pub fn unlock_action() -> (s: &'static str)
    ensures
        s@ == unlock_action_id(),
{
    "com.bitwarden.Bitwarden.unlock"
}

/// What the daemon replied to an authorization check.  Of the daemon's full
/// reply this backend reads only these two booleans; any further detail it carries
/// is ignored.
#[derive(Clone, Copy, Debug, PartialEq, Eq, Structural)]
pub struct AuthorizationReply {
    /// Whether the subject is authorized for the action.
    pub is_authorized: bool,
    /// Whether the subject could be authorized if more information were given.
    pub is_challenge: bool,
}

/// Everything the transport layer can report about one authorization-check
/// exchange: the channel never came up, the channel came up but the check
/// itself failed at the protocol level, or the daemon replied.
#[derive(Clone, Copy, Debug, PartialEq, Eq, Structural)]
pub enum CheckSession {
    /// The channel to the daemon could not be established.
    ConnectFailed,
    /// The channel was up, but the check call failed at the protocol level.
    CheckFailed,
    /// The daemon replied to the check.
    Completed(AuthorizationReply),
}

/// Everything the transport layer can report about one action-enumeration
/// exchange: the channel never came up, the enumeration call failed, or the
/// daemon returned its registry of action identifiers.
#[derive(Clone, Debug)]
pub enum EnumerationSession {
    /// The channel to the daemon could not be established.
    ConnectFailed,
    /// The channel was up, but the enumeration call failed.
    EnumerateFailed,
    /// The daemon returned the identifiers of every action it knows.
    Enumerated(Vec<String>),
}

/// Whether `id` occurs, character for character, among `actions`.
pub open spec fn action_id_listed(actions: Seq<String>, id: Seq<char>) -> bool {
    exists|i: int| 0 <= i < actions.len() && actions[i]@ == id
}

/// The outcome `prompt` owes the caller for each way the exchange can go:
/// a channel failure is an error, a failed check is a denial (fail closed),
/// and a completed check follows the daemon's verdict.
pub open spec fn prompt_outcome(session: CheckSession) -> Result<bool, BiometricError> {
    match session {
        CheckSession::ConnectFailed => Err(BiometricError::Connection),
        CheckSession::CheckFailed => Ok(false),
        CheckSession::Completed(reply) => Ok(reply.is_authorized),
    }
}

/// The outcome `available` owes the caller: channel and enumeration failures
/// both propagate as errors, and a returned registry answers whether the
/// unlock action is listed in it.
pub open spec fn available_outcome(session: EnumerationSession) -> Result<bool, BiometricError> {
    match session {
        EnumerationSession::ConnectFailed => Err(BiometricError::Connection),
        EnumerationSession::EnumerateFailed => Err(BiometricError::Protocol),
        EnumerationSession::Enumerated(actions) => Ok(
            action_id_listed(actions@, unlock_action_id()),
        ),
    }
}

/// Key material derived from a platform challenge, used to protect a locally
/// stored secret.
#[derive(Clone, Debug)]
pub struct KeyMaterial {
    /// The part of the key held by the operating system, base64-encoded.
    pub os_key_part_b64: String,
    /// The part of the key held by the client, base64-encoded, if any.
    pub client_key_part_b64: Option<String>,
}

/// A key and initialization vector derived by the operating system.
#[derive(Clone, Debug)]
pub struct OsDerivedKey {
    /// The derived key, base64-encoded.
    pub key_b64: String,
    /// The initialization vector, base64-encoded.
    pub iv_b64: String,
}

/// The Unix backend of the biometric gate.
pub struct Biometric {}

impl Biometric {
    /// Whether `actions` lists the unlock action identifier.
    pub fn contains_unlock_action(actions: &Vec<String>) -> (r: bool)
        ensures
            r == action_id_listed(actions@, unlock_action_id()),
    {
        let needle: String = unlock_action().to_owned();
        let mut i: usize = 0;
        while i < actions.len()
            invariant
                i <= actions@.len(),
                needle@ == unlock_action_id(),
                forall|j: int| 0 <= j < i ==> actions@[j]@ != unlock_action_id(),
            decreases actions@.len() - i,
        {
            if actions[i] == needle {
                return true;
            }
            i = i + 1;
        }
        false
    }

    /// Gate an operation behind the daemon's authorization check for the
    /// unlock action.
    ///
    /// `_hwnd` anchors the consent UI on platforms that need it and `_message`
    /// is advisory prompt text; this backend transmits neither — the daemon
    /// supplies its own prompt — so the result depends on the exchange alone.
    /// A channel-establishment failure propagates as an error; a check that
    /// failed at the protocol level is indistinguishable from a denial and is
    /// reported as `Ok(false)`, never as an error.
    pub fn prompt(_hwnd: Vec<u8>, _message: String, session: CheckSession) -> (r: Result<
        bool,
        BiometricError,
    >)
        ensures
            r == prompt_outcome(session),
    {
        match session {
            CheckSession::ConnectFailed => Err(BiometricError::Connection),
            CheckSession::CheckFailed => Ok(false),
            CheckSession::Completed(reply) => Ok(reply.is_authorized),
        }
    }

    /// Report whether the daemon offers the unlock action at all.
    ///
    /// Unlike `prompt`, every transport failure propagates as an error here:
    /// the caller must be able to tell "the daemon is unreachable" from "the
    /// action is not registered".
    pub fn available(session: EnumerationSession) -> (r: Result<bool, BiometricError>)
        ensures
            r == available_outcome(session),
    {
        match session {
            EnumerationSession::ConnectFailed => Err(BiometricError::Connection),
            EnumerationSession::EnumerateFailed => Err(BiometricError::Protocol),
            EnumerationSession::Enumerated(actions) => Ok(
                Self::contains_unlock_action(&actions),
            ),
        }
    }

    /// Derive key material from a platform challenge.  Not supported by this
    /// backend: it fails for every input.
    pub fn derive_key_material(_challenge_str: Option<&str>) -> (r: Result<
        OsDerivedKey,
        BiometricError,
    >)
        ensures
            r == Err::<OsDerivedKey, BiometricError>(BiometricError::Unimplemented),
    {
        Err(BiometricError::Unimplemented)
    }

    /// Store a secret bound to biometric unlock.  Not supported by this
    /// backend: it fails for every input.
    pub fn set_biometric_secret(
        _service: &str,
        _account: &str,
        _secret: &str,
        _key_material: Option<KeyMaterial>,
        _iv_b64: &str,
    ) -> (r: Result<String, BiometricError>)
        ensures
            r == Err::<String, BiometricError>(BiometricError::Unimplemented),
    {
        Err(BiometricError::Unimplemented)
    }

    /// Retrieve a secret bound to biometric unlock.  Not supported by this
    /// backend: it fails for every input.
    pub fn get_biometric_secret(
        _service: &str,
        _account: &str,
        _key_material: Option<KeyMaterial>,
    ) -> (r: Result<String, BiometricError>)
        ensures
            r == Err::<String, BiometricError>(BiometricError::Unimplemented),
    {
        Err(BiometricError::Unimplemented)
    }
}

/// A completed check follows the daemon's verdict exactly: `prompt` grants
/// if and only if the daemon reported the subject authorized.
pub proof fn lemma_prompt_follows_daemon(reply: AuthorizationReply)
    ensures
        prompt_outcome(CheckSession::Completed(reply)) == Ok::<bool, BiometricError>(
            reply.is_authorized,
        ),
{
}

/// A check that fails at the protocol level is reported as a denial, never
/// as an error: the backend fails closed.
pub proof fn lemma_prompt_fails_closed()
    ensures
        prompt_outcome(CheckSession::CheckFailed) == Ok::<bool, BiometricError>(false),
{
}

/// A channel-establishment failure before any check propagates as an error,
/// and that error is distinct from a denial.
pub proof fn lemma_prompt_propagates_connection_error()
    ensures
        prompt_outcome(CheckSession::ConnectFailed) == Err::<bool, BiometricError>(
            BiometricError::Connection,
        ),
        prompt_outcome(CheckSession::ConnectFailed) != Ok::<bool, BiometricError>(false),
{
}

/// An enumeration that the daemon answered makes `available` report exactly
/// whether the unlock action identifier is listed; in particular an empty
/// registry reports `false`.  A transport failure, by contrast, is an error.
pub proof fn lemma_available_iff_listed(actions: Vec<String>)
    ensures
        available_outcome(EnumerationSession::Enumerated(actions)) == Ok::<
            bool,
            BiometricError,
        >(action_id_listed(actions@, unlock_action_id())),
        actions@.len() == 0 ==> available_outcome(EnumerationSession::Enumerated(actions))
            == Ok::<bool, BiometricError>(false),
        available_outcome(EnumerationSession::ConnectFailed) is Err,
        available_outcome(EnumerationSession::EnumerateFailed) is Err,
{
}

} // verus!
