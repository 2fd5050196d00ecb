//! Relationship credentials: issued, read and printed through `dtg_credentials`.

use crate::clock::{clock_read, unix_now};
use crate::codec::{hex_encode, hex_view, sha256, sha256_view};
use crate::config::Config;
use crate::didcomm::InboundMessage;
use crate::inbox_actions::{asked_over, vrc_terms, VrcTerms};
use crate::keyed::lookup;
use crate::ledger::{Relationship, TaskType, Vrc};
use crate::main_page::ErrorText;
use crate::message_dispatch::{InboundKind, IssuedBody};
use crate::text::{opt_view, owned};
use vstd::prelude::*;
use vstd::string::StringSliceAdditionalSpecFns;

verus! {

broadcast use crate::clock::lemma_call_reads_clock;

// ---------------------------------------------------------------------------
// Reading
// ---------------------------------------------------------------------------

/// What a credential says: its issuer, its subject, from when and until when it
/// is valid, and the value of its proof, if it carries one.
pub struct VrcFields {
    pub issuer: String,
    pub subject: String,
    /// In seconds since the epoch.
    pub valid_from: i64,
    pub valid_until: Option<i64>,
    pub proof_value: Option<String>,
}

impl View for VrcFields {
    type V = (Seq<char>, Seq<char>, i64, Option<i64>, Option<Seq<char>>);

    open spec fn view(&self) -> Self::V {
        (self.issuer@, self.subject@, self.valid_from, self.valid_until, opt_view(self.proof_value))
    }
}

/// What `dtg_credentials` reads out of the JSON text of a credential: its
/// issuer, its subject, from when and until when it is valid, and the value of
/// its proof; or the text of the error.
pub uninterp spec fn vrc_read(text: Seq<char>) -> Result<
    (Seq<char>, Seq<char>, i64, Option<i64>, Option<Seq<char>>),
    Seq<char>,
>;

/// What a reading says.
pub open spec fn fields_view(r: Result<VrcFields, String>) -> Result<
    (Seq<char>, Seq<char>, i64, Option<i64>, Option<Seq<char>>),
    Seq<char>,
> {
    match r {
        Ok(f) => Ok(f@),
        Err(e) => Err(e@),
    }
}

/// `dtg_credentials::DTGCredential`, deserialized with `serde_json` from a text:
/// its `issuer`, `subject`, `valid_from`, `valid_until` and `proof_value`, or the
/// display form of the error. The text alone decides.
#[verifier::external_body]
pub(crate) fn dtg_read(text: &str) -> (r: Result<VrcFields, String>)
    ensures
        fields_view(r) == vrc_read(text@),
{
    let value: serde_json::Value = serde_json::from_str(text).map_err(|e| e.to_string())?;
    let vrc: dtg_credentials::DTGCredential =
        serde_json::from_value(value).map_err(|e| e.to_string())?;
    Ok(VrcFields {
        issuer: vrc.issuer().to_string(),
        subject: vrc.subject().to_string(),
        valid_from: vrc.valid_from().timestamp(),
        valid_until: vrc.valid_until().map(|t| t.timestamp()),
        proof_value: vrc.proof_value().map(str::to_string),
    })
}

/// The id that a credential is filed under: the SHA-256 digest of its proof in
/// hexadecimal digits; empty without a proof.
pub open spec fn vrc_id_view(proof_value: Option<Seq<char>>) -> Seq<char> {
    match proof_value {
        Some(p) => hex_view(sha256_view(vstd::utf8::encode_utf8(p))),
        None => Seq::empty(),
    }
}

/// The id that a credential with this proof is filed under.
pub fn vrc_id(proof_value: &Option<String>) -> (r: String)
    ensures
        r@ == vrc_id_view(opt_view(*proof_value)),
{
    match proof_value {
        Some(p) => {
            let digest = sha256(p.as_str().as_bytes());
            hex_encode(digest.as_slice())
        },
        None => {
            proof {
                reveal_strlit("");
                assert(""@ =~= Seq::<char>::empty());
            }
            owned("")
        },
    }
}

/// `vrc` is the credential of this text, which says what `fields` holds.
pub open spec fn says_fields(
    vrc: Vrc,
    fields: (Seq<char>, Seq<char>, i64, Option<i64>, Option<Seq<char>>),
    text: Seq<char>,
) -> bool {
    &&& vrc.id@ == vrc_id_view(fields.4)
    &&& vrc.issuer@ == fields.0
    &&& vrc.subject@ == fields.1
    &&& vrc.valid_from == fields.2
    &&& vrc.valid_until == fields.3
    &&& vrc.credential@ == text
}

/// The credential of a text, which says what `fields` holds.
pub fn vrc_of(fields: VrcFields, text: &str) -> (r: Vrc)
    ensures
        says_fields(r, fields@, text@),
{
    let id = vrc_id(&fields.proof_value);
    Vrc {
        id,
        issuer: fields.issuer,
        subject: fields.subject,
        valid_from: fields.valid_from,
        valid_until: fields.valid_until,
        credential: owned(text),
    }
}

/// Reads a credential from its JSON text.
pub fn read_vrc(text: &str) -> (r: Result<Vrc, String>)
    ensures
        match vrc_read(text@) {
            Ok(fields) => r matches Ok(vrc) && says_fields(vrc, fields, text@),
            Err(why) => r matches Err(e) && e@ == why,
        },
{
    match dtg_read(text) {
        Ok(fields) => Ok(vrc_of(fields, text)),
        Err(e) => Err(e),
    }
}

/// Reads the credential that a message brings; `proof_valid` says whether its
/// proof holds.
pub fn read_issued(message: &InboundMessage, proof_valid: bool) -> (r: InboundKind)
    ensures
        match vrc_read(message.body@) {
            Ok(fields) => r matches InboundKind::VrcIssued { body: Ok(body) } && says_fields(
                body.vrc,
                fields,
                message.body@,
            ) && body.proof_valid == proof_valid,
            Err(why) => r matches InboundKind::VrcIssued { body: Err(e) } && e@ == why,
        },
{
    match read_vrc(message.body.as_str()) {
        Ok(vrc) => InboundKind::VrcIssued { body: Ok(IssuedBody { vrc, proof_valid }) },
        Err(e) => InboundKind::VrcIssued { body: Err(e) },
    }
}

// ---------------------------------------------------------------------------
// Printing
// ---------------------------------------------------------------------------

/// A credential as `dtg_credentials` and `serde_json` print it; `None` where the
/// text is no credential.
pub uninterp spec fn vrc_pretty(text: Seq<char>) -> Option<Seq<char>>;

/// `serde_json::to_string_pretty` on the `credential` of the
/// `dtg_credentials::DTGCredential` that a text holds.
#[verifier::external_body]
pub(crate) fn dtg_pretty(text: &str) -> (r: Option<String>)
    ensures
        opt_view(r) == vrc_pretty(text@),
{
    let value: serde_json::Value = serde_json::from_str(text).ok()?;
    let vrc: dtg_credentials::DTGCredential = serde_json::from_value(value).ok()?;
    serde_json::to_string_pretty(vrc.credential()).ok()
}

// ---------------------------------------------------------------------------
// Issuing
// ---------------------------------------------------------------------------

/// The first second of the year 10000, from which on times have no common form.
pub const YEAR_10000: i64 = 253402300800;

/// The JSON text of an unsigned relationship credential as `dtg_credentials`
/// builds it, valid from a time in seconds on; `None` where there is no such
/// time.
pub uninterp spec fn vrc_unsigned(
    issuer: Seq<char>,
    subject: Seq<char>,
    valid_from: i64,
) -> Option<Seq<char>>;

/// From the epoch to the year 9999 there is a text, and it reads as a credential
/// of this issuer and subject, valid from this time on, without an end or a
/// proof.
pub open spec fn reads_back(
    text: Option<Seq<char>>,
    issuer: Seq<char>,
    subject: Seq<char>,
    valid_from: i64,
) -> bool {
    0 <= valid_from < YEAR_10000 ==> {
        &&& text is Some
        &&& vrc_read(text->0) matches Ok(fields) && fields == (
            issuer,
            subject,
            valid_from,
            None::<i64>,
            None::<Seq<char>>,
        )
    }
}

/// `dtg_credentials::DTGCredential::new_vrc` without an end of validity,
/// serialized with `serde_json`: a function of issuer, subject and time. For
/// every time from the epoch to the year 9999 there is such a text, and reading
/// it gives back what it was built of, without a proof.
#[verifier::external_body]
pub(crate) fn dtg_new_vrc(issuer: &str, subject: &str, valid_from: i64) -> (r: Option<String>)
    ensures
        opt_view(r) == vrc_unsigned(issuer@, subject@, valid_from),
        reads_back(opt_view(r), issuer@, subject@, valid_from),
{
    let from = chrono::DateTime::from_timestamp(valid_from, 0)?;
    let vrc = dtg_credentials::DTGCredential::new_vrc(
        issuer.to_string(),
        subject.to_string(),
        from,
        None,
    );
    serde_json::to_string(&vrc).ok()
}

/// What drafting a credential comes to: its text, or an error where there is no
/// such time.
pub open spec fn drafted(
    issuer: Seq<char>,
    subject: Seq<char>,
    valid_from: i64,
    r: Result<String, ErrorText>,
) -> bool {
    match vrc_unsigned(issuer, subject, valid_from) {
        Some(text) => r matches Ok(t) && t@ == text,
        None => r matches Err(e) && e.says("the clock is out of range"@),
    }
}

/// Drafts the credential that is asked for on these terms, valid from a time on:
/// its text, which is still to be signed. The text reads as what it was drafted
/// from.
pub fn draft_vrc(terms: &VrcTerms, valid_from: i64) -> (r: Result<String, ErrorText>)
    ensures
        drafted(terms.issuer@, terms.their_r_did@, valid_from, r),
        reads_back(
            match r {
                Ok(t) => Some(t@),
                Err(_) => None,
            },
            terms.issuer@,
            terms.their_r_did@,
            valid_from,
        ),
{
    match dtg_new_vrc(terms.issuer.as_str(), terms.their_r_did.as_str(), valid_from) {
        Some(text) => Ok(text),
        None => Err(ErrorText::plain(owned("the clock is out of range"))),
    }
}

/// What issuing the credential that a task asks for comes to: the reason why none
/// is due, or its text, valid from the moment that the clock gives while issuing.
pub open spec fn issued_now(config: Config, task_id: Seq<char>, r: Result<String, ErrorText>) -> bool {
    match asked_over(config, task_id) {
        Err(why) => r matches Err(e) && e.says(why),
        Ok(rel) => exists|now: i64| #[trigger]
            clock_read(now) && drafted(config.persona_did_view(), rel.remote_did@, now, r)
                && reads_back(drafted_text(r), config.persona_did_view(), rel.remote_did@, now),
    }
}

/// The text that drafting gave.
pub open spec fn drafted_text(r: Result<String, ErrorText>) -> Option<Seq<char>> {
    match r {
        Ok(t) => Some(t@),
        Err(_) => None,
    }
}

/// Issues the credential that a task asks for: its text, valid from now on and
/// still to be signed by the persona.
pub fn issue_vrc(config: &Config, task_id: &str) -> (r: Result<String, ErrorText>)
    ensures
        match asked_over(*config, task_id@) {
            Err(why) => r matches Err(e) && e.says(why),
            Ok(rel) => exists|now: i64|
                #[trigger] drafted(config.persona_did_view(), rel.remote_did@, now, r),
        },
        issued_now(*config, task_id@, r),
{
    let terms = match vrc_terms(config, task_id) {
        Ok(t) => t,
        Err(e) => {
            return Err(e);
        },
    };
    let now: i64 = unix_now();
    draft_vrc(&terms, now)
}

/// The credential that is issued says who issues it to whom and since when: our
/// persona, to the DID that the asking party uses with us, from the reading that
/// the clock gave while it was issued. It has no end, and no proof yet.
pub proof fn law_issued_credential_is_valid_from_now(
    config: &Config,
    task_id: &str,
    r: Result<String, ErrorText>,
    reason: Option<String>,
    party: String,
    rel: Relationship,
)
    requires
        call_ensures(issue_vrc, (config, task_id), r),
        lookup(config.private.tasks@, task_id@) matches Some(task) && task.type_ == (
        TaskType::VRCRequestInbound { reason, remote_p_did: party }),
        lookup(config.private.relationships@, party@) == Some(rel),
    ensures
        exists|t: i64| #[trigger]
            clock_read(t) && (0 <= t < 253402300800 ==> r is Ok && vrc_read(r->Ok_0@) == Ok::<
                (Seq<char>, Seq<char>, i64, Option<i64>, Option<Seq<char>>),
                Seq<char>,
            >((config.persona_did_view(), rel.remote_did@, t, None, None))),
{
}

/// No credential is issued without a request for one over a relationship.
pub proof fn law_nothing_is_issued_unasked(config: &Config, task_id: &str, r: Result<String, ErrorText>)
    requires
        call_ensures(issue_vrc, (config, task_id), r),
        r is Ok,
    ensures
        lookup(config.private.tasks@, task_id@) matches Some(task) && (task.type_ matches TaskType::VRCRequestInbound {
            reason: _,
            remote_p_did,
        } && lookup(config.private.relationships@, remote_p_did@) is Some),
{
}

/// A drafted credential reads as what it was drafted from: drafting and reading
/// are each other's inverse, and the reading is without an end and without an id,
/// for it carries no proof.
pub proof fn law_draft_reads_back(
    terms: &VrcTerms,
    valid_from: i64,
    r: Result<String, ErrorText>,
    text: &str,
    again: Result<Vrc, String>,
)
    requires
        call_ensures(draft_vrc, (terms, valid_from), r),
        0 <= valid_from < 253402300800,
        r matches Ok(t) && text@ == t@,
        call_ensures(read_vrc, (text,), again),
    ensures
        again matches Ok(vrc) && vrc.issuer@ == terms.issuer@ && vrc.subject@
            == terms.their_r_did@ && vrc.valid_from == valid_from && vrc.valid_until is None
            && vrc.id@.len() == 0 && vrc.credential@ == text@,
{
}

/// What is read of a credential is what it says, and it keeps its text; what a
/// message brings is read the same way, with the verdict on its proof as given.
pub proof fn law_reading_keeps_what_is_said(
    message: &InboundMessage,
    proof_valid: bool,
    kind: InboundKind,
    fields: (Seq<char>, Seq<char>, i64, Option<i64>, Option<Seq<char>>),
)
    requires
        call_ensures(read_issued, (message, proof_valid), kind),
        vrc_read(message.body@) == Ok::<
            (Seq<char>, Seq<char>, i64, Option<i64>, Option<Seq<char>>),
            Seq<char>,
        >(fields),
    ensures
        kind matches InboundKind::VrcIssued { body: Ok(body) } && body.proof_valid == proof_valid
            && body.vrc.issuer@ == fields.0 && body.vrc.subject@ == fields.1 && body.vrc.valid_from
            == fields.2 && body.vrc.valid_until == fields.3 && body.vrc.credential@ == message.body@
            && (body.vrc.id@.len() == 0 || fields.4 is Some),
{
}

} // verus!
