//! The error channel between the lifecycle service and its remote callers.
//!
//! A failure of a vault operation crosses the process boundary inside a
//! transport status: the status code `Internal`, a message for people, and,
//! under a fixed metadata key, the kind of the failure in a fixed textual form.
//! The caller recovers the kind from that entry instead of reading the
//! message. A status without the entry, with another code, or with an entry
//! that is no such text names no kind; it is an opaque transport failure.

use vstd::prelude::*;
use crate::vault_handler_error::VaultHandlerError;

verus! {

/// A failure as the lifecycle service reports it.
#[derive(Clone, Copy, Debug, PartialEq, Eq, Structural)]
pub enum VaultServiceError {
    /// An operation of a vault handler failed.
    VaultHandlerError(VaultHandlerError),
}

impl From<VaultHandlerError> for VaultServiceError {
    fn from(error: VaultHandlerError) -> (wrapped: VaultServiceError) {
        VaultServiceError::VaultHandlerError(error)
    }
}

impl vstd::std_specs::convert::FromSpecImpl<VaultHandlerError> for VaultServiceError {
    open spec fn obeys_from_spec() -> bool {
        true
    }

    open spec fn from_spec(error: VaultHandlerError) -> VaultServiceError {
        VaultServiceError::VaultHandlerError(error)
    }
}

/// The status codes of the transport.
#[derive(Clone, Copy, Debug, PartialEq, Eq, Structural)]
pub enum Code {
    /// The call succeeded.
    Success,
    Cancelled,
    Unknown,
    InvalidArgument,
    DeadlineExceeded,
    NotFound,
    AlreadyExists,
    PermissionDenied,
    ResourceExhausted,
    FailedPrecondition,
    Aborted,
    OutOfRange,
    Unimplemented,
    Internal,
    Unavailable,
    DataLoss,
    Unauthenticated,
}

/// A status of the transport: what a failed call hands to its caller.
#[derive(Debug, PartialEq, Eq)]
pub struct RpcStatus {
    pub code: Code,
    /// The message for people.
    pub message: String,
    /// The metadata entries, key and value, in the order in which they were
    /// added.
    pub metadata: Vec<(String, String)>,
}

/// An [`RpcStatus`] as mathematical values.
pub struct RpcStatusView {
    pub code: Code,
    pub message: Seq<char>,
    pub metadata: Seq<(Seq<char>, Seq<char>)>,
}

/// The views of a list of metadata entries.
pub open spec fn entries_view(entries: Seq<(String, String)>) -> Seq<(Seq<char>, Seq<char>)> {
    entries.map_values(|entry: (String, String)| (entry.0@, entry.1@))
}

impl View for RpcStatus {
    type V = RpcStatusView;

    open spec fn view(&self) -> RpcStatusView {
        RpcStatusView {
            code: self.code,
            message: self.message@,
            metadata: entries_view(self.metadata@),
        }
    }
}

/// The metadata key under which the kind of a failure travels.
pub open spec fn custom_error_key() -> Seq<char> {
    "x-custom-tonic-error-vault_service_error"@
}

/// The name under which a kind of handler failure is written.
pub open spec fn kind_name(kind: VaultHandlerError) -> Seq<char> {
    match kind {
        VaultHandlerError::CannotLockVault => "CannotLockVault"@,
        VaultHandlerError::CannotUnlockVault => "CannotUnlockVault"@,
        VaultHandlerError::CannotChangeMountPoint => "CannotChangeMountPoint"@,
        VaultHandlerError::CannotChangeDataDir => "CannotChangeDataDir"@,
    }
}

/// The textual form of a failure: a JSON object with one member, named after
/// the variant of the failure, whose value is the name of the kind, written
/// without any white space.
pub open spec fn encoded(error: VaultServiceError) -> Seq<char> {
    match error {
        VaultServiceError::VaultHandlerError(kind) => "{\"VaultHandlerError\":\""@ + kind_name(kind)
            + "\"}"@,
    }
}

/// The failure that `text` is the textual form of, if it is one.
pub open spec fn decoded(text: Seq<char>) -> Option<VaultServiceError> {
    if exists|error: VaultServiceError| encoded(error) == text {
        Some(choose|error: VaultServiceError| encoded(error) == text)
    } else {
        None
    }
}

/// The message for people that a failure carries.
pub open spec fn error_message(error: VaultServiceError) -> Seq<char> {
    match error {
        VaultServiceError::VaultHandlerError(kind) => kind.message_spec(),
    }
}

/// A character that the value of a metadata entry can carry: a tab, or any
/// character from the space on but the delete character.
pub open spec fn carriable_char(c: char) -> bool {
    c == '\t' || (c as u32 >= 32 && c as u32 != 127)
}

/// A text that the value of a metadata entry can carry.
pub open spec fn carriable(text: Seq<char>) -> bool {
    forall|i: int| 0 <= i < text.len() ==> carriable_char(#[trigger] text[i])
}

/// What stands in the place of a value that a metadata entry cannot carry.
pub open spec fn uncarriable_note() -> Seq<char> {
    "unable to create metadata value"@
}

/// The value of a metadata entry that is to hold `text`: the text itself,
/// where the entry can carry it.
pub open spec fn metadata_value(text: Seq<char>) -> Seq<char> {
    if carriable(text) {
        text
    } else {
        uncarriable_note()
    }
}

/// The status that reports `error`.
pub open spec fn status_of(error: VaultServiceError) -> RpcStatusView {
    RpcStatusView {
        code: Code::Internal,
        message: "internal error: "@ + error_message(error),
        metadata: seq![(custom_error_key(), metadata_value(encoded(error)))],
    }
}

/// The value of the first metadata entry whose key is `key`.
pub open spec fn first_value(entries: Seq<(Seq<char>, Seq<char>)>, key: Seq<char>) -> Option<
    Seq<char>,
>
    decreases entries.len(),
{
    if entries.len() == 0 {
        None
    } else if entries[0].0 == key {
        Some(entries[0].1)
    } else {
        first_value(entries.drop_first(), key)
    }
}

/// The failure that a status reports: its code is `Internal`, it has an entry
/// under the key, and the first such entry holds the textual form of a
/// failure. Of every other status nothing is recovered.
pub open spec fn recovered(status: RpcStatusView) -> Result<VaultServiceError, ()> {
    if status.code == Code::Internal {
        match first_value(status.metadata, custom_error_key()) {
            Some(text) => match decoded(text) {
                Some(error) => Ok(error),
                None => Err(()),
            },
            None => Err(()),
        }
    } else {
        Err(())
    }
}

/// The four names differ in length, so no two failures share a textual form.
pub proof fn lemma_encoded_is_injective(a: VaultServiceError, b: VaultServiceError)
    requires
        encoded(a) == encoded(b),
    ensures
        a == b,
{
    reveal_strlit("CannotLockVault");
    reveal_strlit("CannotUnlockVault");
    reveal_strlit("CannotChangeMountPoint");
    reveal_strlit("CannotChangeDataDir");
    assert("CannotLockVault"@.len() == 15);
    assert("CannotUnlockVault"@.len() == 17);
    assert("CannotChangeMountPoint"@.len() == 22);
    assert("CannotChangeDataDir"@.len() == 19);
    let frame = "{\"VaultHandlerError\":\""@.len() + "\"}"@.len();
    assert(encoded(a).len() == frame + kind_name(a->0).len());
    assert(encoded(b).len() == frame + kind_name(b->0).len());
}

/// A failure is read back from its textual form unchanged.
pub proof fn law_decoding_inverts_encoding(error: VaultServiceError)
    ensures
        decoded(encoded(error)) == Some(error),
{
    let found = choose|other: VaultServiceError| encoded(other) == encoded(error);
    lemma_encoded_is_injective(found, error);
}

/// A text made of carriable parts is carriable.
proof fn lemma_carriable_concat(a: Seq<char>, b: Seq<char>)
    requires
        carriable(a),
        carriable(b),
    ensures
        carriable(a + b),
{
    assert forall|i: int| 0 <= i < (a + b).len() implies carriable_char(#[trigger] (a + b)[i]) by {
        if i < a.len() {
            assert((a + b)[i] == a[i]);
        } else {
            assert((a + b)[i] == b[i - a.len()]);
        }
    }
}

/// The textual form of every failure is a text that a metadata entry can
/// carry, so the note never stands in its place.
pub proof fn lemma_encoded_is_carriable(error: VaultServiceError)
    ensures
        carriable(encoded(error)),
        metadata_value(encoded(error)) == encoded(error),
{
    reveal_strlit("{\"VaultHandlerError\":\"");
    reveal_strlit("\"}");
    reveal_strlit("CannotLockVault");
    reveal_strlit("CannotUnlockVault");
    reveal_strlit("CannotChangeMountPoint");
    reveal_strlit("CannotChangeDataDir");
    assert(carriable("{\"VaultHandlerError\":\""@));
    assert(carriable("\"}"@));
    assert(carriable("CannotLockVault"@));
    assert(carriable("CannotUnlockVault"@));
    assert(carriable("CannotChangeMountPoint"@));
    assert(carriable("CannotChangeDataDir"@));
    let kind = error->0;
    lemma_carriable_concat("{\"VaultHandlerError\":\""@, kind_name(kind));
    lemma_carriable_concat("{\"VaultHandlerError\":\""@ + kind_name(kind), "\"}"@);
}

/// A failure that is reported in a status is recovered from that status
/// unchanged: the kind survives the crossing.
pub proof fn law_status_round_trip(error: VaultServiceError)
    ensures
        recovered(status_of(error)) == Ok::<VaultServiceError, ()>(error),
{
    law_decoding_inverts_encoding(error);
    lemma_encoded_is_carriable(error);
    let entries = status_of(error).metadata;
    assert(entries[0].0 == custom_error_key());
    assert(first_value(entries, custom_error_key()) == Some(encoded(error)));
}

/// Writes the name of a kind of handler failure.
fn name_of(kind: VaultHandlerError) -> (name: &'static str)
    ensures
        name@ == kind_name(kind),
{
    match kind {
        VaultHandlerError::CannotLockVault => "CannotLockVault",
        VaultHandlerError::CannotUnlockVault => "CannotUnlockVault",
        VaultHandlerError::CannotChangeMountPoint => "CannotChangeMountPoint",
        VaultHandlerError::CannotChangeDataDir => "CannotChangeDataDir",
    }
}

/// Tests whether the value of a metadata entry can carry `text`.
///
/// Trusted: parsing a text as a `tonic::metadata::AsciiMetadataValue`
/// succeeds if and only if each of its bytes is a tab, or is at least 32 and
/// not 127. The bytes of a character beyond ASCII are all above 127.
#[verifier::external_body]
fn wire_carries(text: &str) -> (accepted: bool)
    ensures
        accepted == carriable(text@),
{
    text.parse::<tonic::metadata::AsciiMetadataValue>().is_ok()
}

/// Looks up the value of the first metadata entry whose key is `key`.
fn lookup<'a>(entries: &'a Vec<(String, String)>, key: &str) -> (value: Option<&'a String>)
    ensures
        match value {
            Some(text) => first_value(entries_view(entries@), key@) == Some(text@),
            None => first_value(entries_view(entries@), key@) is None,
        },
{
    let wanted: String = String::from_str(key);
    let mut i: usize = 0;
    assert(entries_view(entries@).skip(0) =~= entries_view(entries@));
    while i < entries.len()
        invariant
            wanted@ == key@,
            i <= entries.len(),
            first_value(entries_view(entries@), key@) == first_value(
                entries_view(entries@).skip(i as int),
                key@,
            ),
        decreases entries.len() - i,
    {
        let ghost rest = entries_view(entries@).skip(i as int);
        assert(rest[0] == (entries@[i as int].0@, entries@[i as int].1@));
        assert(rest.drop_first() =~= entries_view(entries@).skip(i + 1));
        if entries[i].0 == wanted {
            return Some(&entries[i].1);
        }
        i = i + 1;
    }
    assert(entries_view(entries@).skip(i as int).len() == 0);
    None
}

impl VaultServiceError {
    /// The message for people.
    pub fn message(&self) -> (text: String)
        ensures
            text@ == error_message(*self),
    {
        match self {
            VaultServiceError::VaultHandlerError(kind) => kind.message(),
        }
    }

    /// Writes this failure in its textual form.
    pub fn encode(&self) -> (text: String)
        ensures
            text@ == encoded(*self),
    {
        match self {
            VaultServiceError::VaultHandlerError(kind) => {
                let mut text: String = String::from_str("{\"VaultHandlerError\":\"");
                text.append(name_of(*kind));
                text.append("\"}");
                text
            },
        }
    }

    /// Reads a failure from its textual form; `None` where `text` is the
    /// textual form of no failure.
    pub fn decode(text: &str) -> (error: Option<VaultServiceError>)
        ensures
            error == decoded(text@),
    {
        let given: String = String::from_str(text);
        let kinds: [VaultHandlerError; 4] = [
            VaultHandlerError::CannotLockVault,
            VaultHandlerError::CannotUnlockVault,
            VaultHandlerError::CannotChangeMountPoint,
            VaultHandlerError::CannotChangeDataDir,
        ];
        let mut i: usize = 0;
        while i < 4
            invariant
                given@ == text@,
                i <= 4,
                kinds@ == seq![
                    VaultHandlerError::CannotLockVault,
                    VaultHandlerError::CannotUnlockVault,
                    VaultHandlerError::CannotChangeMountPoint,
                    VaultHandlerError::CannotChangeDataDir,
                ],
                forall|k: int|
                    0 <= k < i ==> encoded(VaultServiceError::VaultHandlerError(kinds@[k]))
                        != text@,
            decreases 4 - i,
        {
            let candidate: VaultServiceError = VaultServiceError::VaultHandlerError(kinds[i]);
            if candidate.encode() == given {
                proof {
                    let found = choose|other: VaultServiceError| encoded(other) == text@;
                    lemma_encoded_is_injective(found, candidate);
                }
                return Some(candidate);
            }
            i = i + 1;
        }
        assert forall|other: VaultServiceError| encoded(other) != text@ by {
            match other {
                VaultServiceError::VaultHandlerError(kind) => {
                    assert(kind == kinds@[0] || kind == kinds@[1] || kind == kinds@[2] || kind
                        == kinds@[3]);
                },
            }
        }
        None
    }

    /// Recovers the failure that `status` reports. `Err` where the status
    /// reports none: it is an opaque transport failure.
    pub fn try_from(status: &RpcStatus) -> (outcome: Result<VaultServiceError, ()>)
        ensures
            outcome == recovered(status@),
    {
        match status.code {
            Code::Internal => match lookup(&status.metadata, "x-custom-tonic-error-vault_service_error") {
                Some(text) => match VaultServiceError::decode(text.as_str()) {
                    Some(error) => Ok(error),
                    None => Err(()),
                },
                None => Err(()),
            },
            _ => Err(()),
        }
    }
}

impl RpcStatus {
    /// The status that reports `error` to a remote caller.
    pub fn from(error: VaultServiceError) -> (status: RpcStatus)
        ensures
            status@ == status_of(error),
    {
        let mut message: String = String::from_str("internal error: ");
        let detail: String = error.message();
        message.append(detail.as_str());
        let encoded: String = error.encode();
        let value: String = if wire_carries(encoded.as_str()) {
            encoded
        } else {
            String::from_str("unable to create metadata value")
        };
        let mut metadata: Vec<(String, String)> = Vec::new();
        metadata.push((String::from_str("x-custom-tonic-error-vault_service_error"), value));
        assert(entries_view(metadata@) =~= status_of(error).metadata);
        RpcStatus { code: Code::Internal, message, metadata }
    }
}

/// What a remote caller makes of the answer to a call.
#[derive(Debug, PartialEq, Eq)]
pub enum ReplyOutcome {
    /// The call succeeded.
    Acknowledged,
    /// The call failed, and the status names the failure.
    ServiceError(VaultServiceError),
    /// The call failed, and all that is known is the status's message.
    TransportError(String),
}

/// A [`ReplyOutcome`] as mathematical values.
pub enum ReplyOutcomeView {
    Acknowledged,
    ServiceError(VaultServiceError),
    TransportError(Seq<char>),
}

impl View for ReplyOutcome {
    type V = ReplyOutcomeView;

    open spec fn view(&self) -> ReplyOutcomeView {
        match *self {
            ReplyOutcome::Acknowledged => ReplyOutcomeView::Acknowledged,
            ReplyOutcome::ServiceError(error) => ReplyOutcomeView::ServiceError(error),
            ReplyOutcome::TransportError(message) => ReplyOutcomeView::TransportError(message@),
        }
    }
}

/// How an answer is read: a status that names a failure yields that failure,
/// any other status only its message.
pub open spec fn reply_outcome(answer: Option<RpcStatusView>) -> ReplyOutcomeView {
    match answer {
        None => ReplyOutcomeView::Acknowledged,
        Some(status) => match recovered(status) {
            Ok(error) => ReplyOutcomeView::ServiceError(error),
            Err(_) => ReplyOutcomeView::TransportError(status.message),
        },
    }
}

/// Reads the answer to a call: `Ok` for an acknowledgement, `Err` with the
/// status for a failure.
pub fn read_reply(answer: Result<(), RpcStatus>) -> (outcome: ReplyOutcome)
    ensures
        outcome@ == reply_outcome(
            match answer {
                Ok(_) => None,
                Err(status) => Some(status@),
            },
        ),
{
    match answer {
        Ok(_) => ReplyOutcome::Acknowledged,
        Err(status) => match VaultServiceError::try_from(&status) {
            Ok(error) => ReplyOutcome::ServiceError(error),
            Err(_) => ReplyOutcome::TransportError(status.message),
        },
    }
}

} // verus!
