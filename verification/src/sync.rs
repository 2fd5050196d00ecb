//! Rebuilding what the panels show from the configuration.

use crate::account::{
    bound_count, community_status_label, display_order, held_by, held_position, positions,
    CommunityRecord, CommunityStatus, PersonaRecord,
};
use crate::clock::{day_text, day_view, minute_text, minute_view};
use crate::config::{Config, KeyBackend, ProtectionType};
use crate::content::{
    ActiveDid, CommunitiesState, CommunityLine, CommunitySummary, ContentPanelState,
    CredentialLine, CredentialsState, InboxState, KindView, ManagedDid, ManagedLine,
    RelationshipLine, RelationshipSummary, RelationshipVrc, RelationshipsState, SettingsState,
    TaskKind, TaskLine, TaskSummary, VrcLine, VrcSummary, VtaState,
};
use crate::display::{sanitize_display, sanitized, shorten_did, shortened};
use crate::git_sign::{detect_did_git_sign_info, install_of, GitSignFiles};
use crate::json::{json_pretty, json_pretty_of, json_str, json_str_at};
use crate::keyed::lookup;
use crate::ledger::{alias_of, KeyEntry, Relationship, Task, TaskType, Vrc, VrcEntry, Vrcs};
use crate::main_page::{header_of, MainMenuConfigState, MainPageState};
use crate::sort::{is_stable_sort_of, stable_sort, Ranked};
use crate::text::{
    begins_with, cat3, chars_of, copy_opt, lemma_lex_total, lemma_lex_trans, lex_le, opt_view,
    owned, same, starts_with, text_le, text_of,
};
use crate::vrc::{dtg_pretty, vrc_pretty};
use vstd::prelude::*;

verus! {

/// What the library learns from the machine around it.
#[derive(Clone, Debug)]
pub struct Host {
    /// Milliseconds on a clock that never goes back.
    pub now: u64,
    /// The files of a git-signing install, where there are any.
    pub git_sign: Option<GitSignFiles>,
}

/// An optional text, sanitized.
pub open spec fn sanitized_opt(o: Option<String>, max: nat) -> Option<Seq<char>> {
    match o {
        Some(s) => Some(sanitized(s@, max)),
        None => None,
    }
}

fn sanitize_opt(o: &Option<String>, max: usize) -> (r: Option<String>)
    ensures
        opt_view(r) == sanitized_opt(*o, max as nat),
{
    match o {
        Some(s) => Some(sanitize_display(s.as_str(), max)),
        None => None,
    }
}

// ---------------------------------------------------------------------------
// Inbox
// ---------------------------------------------------------------------------

/// The kind that a task is listed as.
pub open spec fn kind_of(config: Config, t: TaskType) -> KindView {
    match t {
        TaskType::RelationshipRequestInbound { from, to: _, request } =>
            KindView::RelationshipRequestInbound {
            from_did: sanitized(from@, 256),
            their_did: sanitized(request.did@, 256),
            reason: sanitized_opt(request.reason, 256),
            name: sanitized_opt(request.name, 256),
        },
        TaskType::RelationshipRequestOutbound { to } => KindView::RelationshipRequestOutbound {
            our_did: match lookup(config.private.relationships@, to@) {
                Some(rel) => rel.our_did@,
                None => Seq::empty(),
            },
        },
        TaskType::VRCRequestInbound { reason, remote_p_did: _ } => KindView::VRCRequestInbound {
            reason: sanitized_opt(reason, 256),
        },
        TaskType::VRCRequestOutbound { .. } => KindView::VRCRequestOutbound,
        TaskType::VRCIssued { .. } => KindView::VRCIssued,
        TaskType::TrustPing { .. } => KindView::TrustPing,
        TaskType::RelationshipRequestAccepted => KindView::Informational("Accepted"@),
        TaskType::RelationshipRequestRejected => KindView::Informational("Rejected"@),
        TaskType::RelationshipRequestFinalized => KindView::Informational("Finalized"@),
        TaskType::TrustPong => KindView::Informational("Pong received"@),
        TaskType::VRCRequestRejected => KindView::Informational("VRC Rejected"@),
        TaskType::Other => KindView::Informational("Unknown"@),
    }
}

/// The party that a task is listed under.
pub open spec fn party_of(t: TaskType) -> Seq<char> {
    match t {
        TaskType::RelationshipRequestInbound { from, to: _, request } => match request.name {
            Some(name) => sanitized(name@, 40),
            None => shortened(from@, 60),
        },
        TaskType::RelationshipRequestOutbound { to } => shortened(to@, 60),
        TaskType::TrustPing { from: _, to, remote_p_did: _ } => shortened(to@, 60),
        TaskType::VRCRequestInbound { reason: _, remote_p_did } => shortened(remote_p_did@, 60),
        TaskType::VRCRequestOutbound { remote_p_did } => shortened(remote_p_did@, 60),
        TaskType::VRCIssued { vrc } => sanitized(vrc.issuer@, 40),
        _ => Seq::empty(),
    }
}

/// How a task is listed.
pub open spec fn task_line(config: Config, t: Task) -> TaskLine {
    TaskLine {
        id: t.id@,
        type_display: t.type_.title_view(),
        kind: kind_of(config, t.type_),
        remote_did: sanitized(party_of(t.type_), 256),
        created: minute_view(t.created),
    }
}

/// The lines of a list of tasks.
pub open spec fn task_lines(config: Config, s: Seq<Task>) -> Seq<TaskLine> {
    s.map_values(|t: Task| task_line(config, t))
}

/// What a list of summaries shows.
pub open spec fn shown_tasks(s: Seq<TaskSummary>) -> Seq<TaskLine> {
    s.map_values(|t: TaskSummary| t@)
}

/// Newer tasks stand first.
impl Ranked for TaskSummary {
    open spec fn le(self, other: Self) -> bool {
        lex_le(other.created@, self.created@)
    }

    proof fn le_total(a: Self, b: Self) {
        lemma_lex_total(a.created@, b.created@);
    }

    proof fn le_trans(a: Self, b: Self, c: Self) {
        lemma_lex_trans(c.created@, b.created@, a.created@);
    }

    fn ranks(&self, other: &Self) -> bool {
        text_le(other.created.as_str(), self.created.as_str())
    }
}

/// The inbox shows every task once, the newest first.
pub open spec fn inbox_shows(shown: Seq<TaskSummary>, config: Config) -> bool {
    exists|raw: Seq<TaskSummary>| #[trigger]
        is_stable_sort_of(shown, raw) && shown_tasks(raw) == task_lines(
            config,
            config.private.tasks@,
        )
}

fn kind_for(config: &Config, t: &TaskType) -> (r: TaskKind)
    ensures
        r@ == kind_of(*config, *t),
{
    match t {
        TaskType::RelationshipRequestInbound { from, to: _, request } =>
            TaskKind::RelationshipRequestInbound {
            from_did: sanitize_display(from.as_str(), 256),
            their_did: sanitize_display(request.did.as_str(), 256),
            reason: sanitize_opt(&request.reason, 256),
            name: sanitize_opt(&request.name, 256),
        },
        TaskType::RelationshipRequestOutbound { to } => {
            let our_did = match config.private.relationships.get(to.as_str()) {
                Some(rel) => rel.our_did.clone(),
                None => String::new(),
            };
            TaskKind::RelationshipRequestOutbound { our_did }
        },
        TaskType::VRCRequestInbound { reason, remote_p_did: _ } => TaskKind::VRCRequestInbound {
            reason: sanitize_opt(reason, 256),
        },
        TaskType::VRCRequestOutbound { .. } => TaskKind::VRCRequestOutbound,
        TaskType::VRCIssued { .. } => TaskKind::VRCIssued,
        TaskType::TrustPing { .. } => TaskKind::TrustPing,
        TaskType::RelationshipRequestAccepted => TaskKind::Informational(owned("Accepted")),
        TaskType::RelationshipRequestRejected => TaskKind::Informational(owned("Rejected")),
        TaskType::RelationshipRequestFinalized => TaskKind::Informational(owned("Finalized")),
        TaskType::TrustPong => TaskKind::Informational(owned("Pong received")),
        TaskType::VRCRequestRejected => TaskKind::Informational(owned("VRC Rejected")),
        TaskType::Other => TaskKind::Informational(owned("Unknown")),
    }
}

fn party_for(t: &TaskType) -> (r: String)
    ensures
        r@ == party_of(*t),
{
    match t {
        TaskType::RelationshipRequestInbound { from, to: _, request } => match &request.name {
            Some(name) => sanitize_display(name.as_str(), 40),
            None => shorten_did(from.as_str(), 60),
        },
        TaskType::RelationshipRequestOutbound { to } => shorten_did(to.as_str(), 60),
        TaskType::TrustPing { from: _, to, remote_p_did: _ } => shorten_did(to.as_str(), 60),
        TaskType::VRCRequestInbound { reason: _, remote_p_did } => shorten_did(
            remote_p_did.as_str(),
            60,
        ),
        TaskType::VRCRequestOutbound { remote_p_did } => shorten_did(remote_p_did.as_str(), 60),
        TaskType::VRCIssued { vrc } => sanitize_display(vrc.issuer.as_str(), 40),
        _ => String::new(),
    }
}

fn summarize_tasks(config: &Config) -> (r: Vec<TaskSummary>)
    ensures
        inbox_shows(r@, *config),
{
    let mut out: Vec<TaskSummary> = Vec::new();
    let mut i: usize = 0;
    let ghost all = config.private.tasks@;
    while i < config.private.tasks.tasks.len()
        invariant
            all == config.private.tasks.tasks@,
            i <= all.len(),
            shown_tasks(out@) == task_lines(*config, all.take(i as int)),
        decreases all.len() - i,
    {
        let t = &config.private.tasks.tasks[i];
        let party = party_for(&t.type_);
        let ghost before = out@;
        out.push(
            TaskSummary {
                id: t.id.clone(),
                type_display: owned(t.type_.title()),
                kind: kind_for(config, &t.type_),
                remote_did: sanitize_display(party.as_str(), 256),
                created: minute_text(t.created),
            },
        );
        proof {
            assert(all.take(i + 1) =~= all.take(i as int).push(all[i as int]));
            assert(shown_tasks(out@) =~= shown_tasks(before).push(out@.last()@));
            assert(task_lines(*config, all.take(i + 1)) =~= task_lines(
                *config,
                all.take(i as int),
            ).push(task_line(*config, all[i as int])));
        }
        i = i + 1;
    }
    assert(all.take(i as int) =~= all);
    stable_sort(out)
}

// ---------------------------------------------------------------------------
// Relationships and their credentials
// ---------------------------------------------------------------------------

/// The end of validity as it is shown.
pub open spec fn until_view(t: Option<i64>) -> Option<Seq<char>> {
    match t {
        Some(secs) => Some(day_view(secs)),
        None => None,
    }
}

fn until_text(t: &Option<i64>) -> (r: Option<String>)
    ensures
        opt_view(r) == until_view(*t),
{
    match t {
        Some(secs) => Some(day_text(*secs)),
        None => None,
    }
}

/// A credential in its printed form, or what stands in for it.
pub open spec fn printed(doc: Seq<char>, otherwise: Seq<char>) -> Seq<char> {
    match vrc_pretty(doc) {
        Some(t) => t,
        None => otherwise,
    }
}

fn print_vrc(doc: &str, otherwise: &str) -> (r: String)
    ensures
        r@ == printed(doc@, otherwise@),
{
    match dtg_pretty(doc) {
        Some(t) => t,
        None => owned(otherwise),
    }
}

/// A credential as the relationship detail shows it.
pub open spec fn vrc_line(v: Vrc) -> VrcLine {
    VrcLine {
        issuer: shortened(v.issuer@, 40),
        issuer_full: v.issuer@,
        subject: shortened(v.subject@, 40),
        subject_full: v.subject@,
        valid_from: day_view(v.valid_from),
        valid_until: until_view(v.valid_until),
        raw_json: printed(v.credential@, ""@),
    }
}

/// The credentials filed under a party, as the relationship detail shows them.
pub open spec fn vrc_lines_of(s: Seq<VrcEntry>, party: Seq<char>) -> Seq<VrcLine>
    decreases s.len(),
{
    if s.len() == 0 {
        Seq::empty()
    } else if s.last().remote_p_did@ == party {
        vrc_lines_of(s.drop_last(), party).push(vrc_line(s.last().vrc))
    } else {
        vrc_lines_of(s.drop_last(), party)
    }
}

fn vrcs_of(vrcs: &Vrcs, party: &str) -> (r: Vec<RelationshipVrc>)
    ensures
        r@.map_values(|v: RelationshipVrc| v@) == vrc_lines_of(vrcs.entries@, party@),
{
    let mut out: Vec<RelationshipVrc> = Vec::new();
    let mut i: usize = 0;
    let ghost all = vrcs.entries@;
    assert(out@.map_values(|v: RelationshipVrc| v@) =~= vrc_lines_of(all.take(0), party@));
    while i < vrcs.entries.len()
        invariant
            all == vrcs.entries@,
            i <= all.len(),
            out@.map_values(|v: RelationshipVrc| v@) == vrc_lines_of(all.take(i as int), party@),
        decreases all.len() - i,
    {
        proof {
            assert(all.take(i + 1).drop_last() =~= all.take(i as int));
        }
        let e = &vrcs.entries[i];
        if same(e.remote_p_did.as_str(), party) {
            let ghost before = out@;
            out.push(
                RelationshipVrc {
                    issuer: shorten_did(e.vrc.issuer.as_str(), 40),
                    issuer_full: e.vrc.issuer.clone(),
                    subject: shorten_did(e.vrc.subject.as_str(), 40),
                    subject_full: e.vrc.subject.clone(),
                    valid_from: day_text(e.vrc.valid_from),
                    valid_until: until_text(&e.vrc.valid_until),
                    raw_json: print_vrc(e.vrc.credential.as_str(), ""),
                },
            );
            assert(out@.map_values(|v: RelationshipVrc| v@) =~= before.map_values(
                |v: RelationshipVrc| v@,
            ).push(out@.last()@));
        }
        i = i + 1;
    }
    assert(all.take(i as int) =~= all);
    out
}

/// An alias as it is shown.
pub open spec fn alias_shown(config: Config, did: Seq<char>) -> Option<Seq<char>> {
    match alias_of(config.private.contacts.contacts@, did) {
        Some(a) => Some(sanitized(a, 256)),
        None => None,
    }
}

fn show_alias(config: &Config, did: &str) -> (r: Option<String>)
    ensures
        opt_view(r) == alias_shown(*config, did@),
{
    match config.private.contacts.alias(did) {
        Some(a) => Some(sanitize_display(a.as_str(), 256)),
        None => None,
    }
}

/// How a relationship is listed.
pub open spec fn relationship_line(config: Config, rel: Relationship) -> RelationshipLine {
    RelationshipLine {
        remote_p_did: sanitized(rel.remote_p_did@, 256),
        alias: alias_shown(config, rel.remote_p_did@),
        state: rel.state.label_view(),
        our_did: rel.our_did@,
        remote_did: sanitized(rel.remote_did@, 256),
        created: minute_view(rel.created),
        vrcs_issued: vrc_lines_of(config.private.vrcs_issued.entries@, rel.remote_p_did@),
        vrcs_received: vrc_lines_of(config.private.vrcs_received.entries@, rel.remote_p_did@),
    }
}

/// The lines of a list of relationships.
pub open spec fn relationship_lines(config: Config, s: Seq<Relationship>) -> Seq<RelationshipLine> {
    s.map_values(|r: Relationship| relationship_line(config, r))
}

/// What a list of summaries shows.
pub open spec fn shown_relationships(s: Seq<RelationshipSummary>) -> Seq<RelationshipLine> {
    s.map_values(|r: RelationshipSummary| r@)
}

fn summarize_relationships(config: &Config) -> (r: Vec<RelationshipSummary>)
    ensures
        shown_relationships(r@) == relationship_lines(*config, config.private.relationships@),
{
    let mut out: Vec<RelationshipSummary> = Vec::new();
    let mut i: usize = 0;
    let ghost all = config.private.relationships@;
    while i < config.private.relationships.relationships.len()
        invariant
            all == config.private.relationships.relationships@,
            i <= all.len(),
            shown_relationships(out@) == relationship_lines(*config, all.take(i as int)),
        decreases all.len() - i,
    {
        let rel = &config.private.relationships.relationships[i];
        let ghost before = out@;
        out.push(
            RelationshipSummary {
                remote_p_did: sanitize_display(rel.remote_p_did.as_str(), 256),
                alias: show_alias(config, rel.remote_p_did.as_str()),
                state: owned(rel.state.label()),
                our_did: rel.our_did.clone(),
                remote_did: sanitize_display(rel.remote_did.as_str(), 256),
                created: minute_text(rel.created),
                vrcs_issued: vrcs_of(&config.private.vrcs_issued, rel.remote_p_did.as_str()),
                vrcs_received: vrcs_of(&config.private.vrcs_received, rel.remote_p_did.as_str()),
            },
        );
        proof {
            assert(all.take(i + 1) =~= all.take(i as int).push(all[i as int]));
            assert(shown_relationships(out@) =~= shown_relationships(before).push(out@.last()@));
            assert(relationship_lines(*config, all.take(i + 1)) =~= relationship_lines(
                *config,
                all.take(i as int),
            ).push(relationship_line(*config, all[i as int])));
        }
        i = i + 1;
    }
    assert(all.take(i as int) =~= all);
    out
}

// ---------------------------------------------------------------------------
// Credentials
// ---------------------------------------------------------------------------

/// How a filed credential is listed.
pub open spec fn credential_line(config: Config, e: VrcEntry) -> CredentialLine {
    CredentialLine {
        vrc_id: e.vrc.id@,
        remote_p_did: sanitized(e.remote_p_did@, 256),
        raw_json: printed(e.vrc.credential@, "Failed to serialize credential"@),
        alias: alias_shown(config, e.remote_p_did@),
        issuer: sanitized(e.vrc.issuer@, 256),
        subject: sanitized(e.vrc.subject@, 256),
        valid_from: day_view(e.vrc.valid_from),
        valid_until: until_view(e.vrc.valid_until),
    }
}

/// The lines of a list of filed credentials.
pub open spec fn credential_lines(config: Config, s: Seq<VrcEntry>) -> Seq<CredentialLine> {
    s.map_values(|e: VrcEntry| credential_line(config, e))
}

/// What a list of summaries shows.
pub open spec fn shown_credentials(s: Seq<VrcSummary>) -> Seq<CredentialLine> {
    s.map_values(|v: VrcSummary| v@)
}

/// Lists the credentials of a collection.
pub fn collect_vrcs(vrcs: &Vrcs, config: &Config) -> (r: Vec<VrcSummary>)
    ensures
        shown_credentials(r@) == credential_lines(*config, vrcs.entries@),
{
    let mut out: Vec<VrcSummary> = Vec::new();
    let mut i: usize = 0;
    let ghost all = vrcs.entries@;
    while i < vrcs.entries.len()
        invariant
            all == vrcs.entries@,
            i <= all.len(),
            shown_credentials(out@) == credential_lines(*config, all.take(i as int)),
        decreases all.len() - i,
    {
        let e = &vrcs.entries[i];
        let ghost before = out@;
        out.push(
            VrcSummary {
                vrc_id: e.vrc.id.clone(),
                remote_p_did: sanitize_display(e.remote_p_did.as_str(), 256),
                raw_json: print_vrc(
                    e.vrc.credential.as_str(),
                    "Failed to serialize credential",
                ),
                alias: show_alias(config, e.remote_p_did.as_str()),
                issuer: sanitize_display(e.vrc.issuer.as_str(), 256),
                subject: sanitize_display(e.vrc.subject.as_str(), 256),
                valid_from: day_text(e.vrc.valid_from),
                valid_until: until_text(&e.vrc.valid_until),
            },
        );
        proof {
            assert(all.take(i + 1) =~= all.take(i as int).push(all[i as int]));
            assert(shown_credentials(out@) =~= shown_credentials(before).push(out@.last()@));
            assert(credential_lines(*config, all.take(i + 1)) =~= credential_lines(
                *config,
                all.take(i as int),
            ).push(credential_line(*config, all[i as int])));
        }
        i = i + 1;
    }
    assert(all.take(i as int) =~= all);
    out
}

/// The fields of a community credential that are shown, as they stand in it.
pub struct CredentialFields {
    pub issuer: Option<Seq<char>>,
    pub issuer_id: Option<Seq<char>>,
    pub subject: Option<Seq<char>>,
    pub valid_from: Option<Seq<char>>,
    pub valid_until: Option<Seq<char>>,
    pub id: Option<Seq<char>>,
    pub printed: Option<Seq<char>>,
}

/// The fields of a community credential.
pub open spec fn fields_of(doc: Seq<char>) -> CredentialFields {
    CredentialFields {
        issuer: json_str(doc, "/issuer"@),
        issuer_id: json_str(doc, "/issuer/id"@),
        subject: json_str(doc, "/credentialSubject/id"@),
        valid_from: json_str(doc, "/validFrom"@),
        valid_until: json_str(doc, "/validUntil"@),
        id: json_str(doc, "/id"@),
        printed: json_pretty(doc),
    }
}

/// The fields of a community credential, as they were read.
pub struct ReadFields {
    /// The issuer, where it is a bare string.
    pub issuer: Option<String>,
    /// The id of the issuer, where it is an object.
    pub issuer_id: Option<String>,
    pub subject: Option<String>,
    pub valid_from: Option<String>,
    pub valid_until: Option<String>,
    pub id: Option<String>,
    pub printed: Option<String>,
}

impl View for ReadFields {
    type V = CredentialFields;

    open spec fn view(&self) -> CredentialFields {
        CredentialFields {
            issuer: opt_view(self.issuer),
            issuer_id: opt_view(self.issuer_id),
            subject: opt_view(self.subject),
            valid_from: opt_view(self.valid_from),
            valid_until: opt_view(self.valid_until),
            id: opt_view(self.id),
            printed: opt_view(self.printed),
        }
    }
}

/// A text, or nothing in its place.
pub open spec fn or_empty(o: Option<Seq<char>>) -> Seq<char> {
    match o {
        Some(s) => s,
        None => Seq::empty(),
    }
}

/// How a community credential is listed: under the community and its kind.
pub open spec fn membership_line(
    community: Seq<char>,
    vtc_did: Seq<char>,
    kind: Seq<char>,
    f: CredentialFields,
) -> CredentialLine {
    CredentialLine {
        vrc_id: or_empty(f.id),
        remote_p_did: sanitized(vtc_did, 256),
        raw_json: match f.printed {
            Some(t) => t,
            None => "Failed to serialize credential"@,
        },
        alias: Some(community + " — "@ + kind),
        issuer: sanitized(
            match f.issuer {
                Some(i) => i,
                None => or_empty(f.issuer_id),
            },
            256,
        ),
        subject: sanitized(or_empty(f.subject), 256),
        valid_from: or_empty(f.valid_from),
        valid_until: f.valid_until,
    }
}

fn take_or_empty(o: Option<String>) -> (r: String)
    ensures
        r@ == or_empty(opt_view(o)),
{
    match o {
        Some(s) => s,
        None => String::new(),
    }
}

/// Lists a community credential from the fields that were read out of it.
pub fn membership_summary(community: &str, vtc_did: &str, kind: &str, f: ReadFields) -> (r:
    VrcSummary)
    ensures
        r@ == membership_line(community@, vtc_did@, kind@, f@),
{
    let issuer = match f.issuer {
        Some(i) => i,
        None => take_or_empty(f.issuer_id),
    };
    let subject = take_or_empty(f.subject);
    VrcSummary {
        vrc_id: take_or_empty(f.id),
        remote_p_did: sanitize_display(vtc_did, 256),
        raw_json: match f.printed {
            Some(t) => t,
            None => owned("Failed to serialize credential"),
        },
        alias: Some(cat3(community, " — ", kind)),
        issuer: sanitize_display(issuer.as_str(), 256),
        subject: sanitize_display(subject.as_str(), 256),
        valid_from: take_or_empty(f.valid_from),
        valid_until: f.valid_until,
    }
}

fn read_fields(doc: &str) -> (r: ReadFields)
    ensures
        r@ == fields_of(doc@),
{
    ReadFields {
        issuer: json_str_at(doc, "/issuer"),
        issuer_id: json_str_at(doc, "/issuer/id"),
        subject: json_str_at(doc, "/credentialSubject/id"),
        valid_from: json_str_at(doc, "/validFrom"),
        valid_until: json_str_at(doc, "/validUntil"),
        id: json_str_at(doc, "/id"),
        printed: json_pretty_of(doc),
    }
}

/// The name that a community's credentials are listed under.
pub open spec fn credential_heading(c: CommunityRecord) -> Seq<char> {
    match c.display_name {
        Some(n) => n@,
        None => sanitized(c.vtc_did@, 64),
    }
}

/// The lines of the credentials that a community issued to us.
pub open spec fn community_credentials(c: CommunityRecord) -> Seq<CredentialLine> {
    let heading = credential_heading(c);
    (match c.membership_credential {
        Some(doc) => seq![
            membership_line(heading, c.vtc_did@, "Membership"@, fields_of(doc@)),
        ],
        None => Seq::empty(),
    }) + (match c.role_credential {
        Some(doc) => seq![membership_line(heading, c.vtc_did@, "Role"@, fields_of(doc@))],
        None => Seq::empty(),
    })
}

/// The lines of the credentials that communities issued to us.
pub open spec fn membership_lines(s: Seq<CommunityRecord>) -> Seq<CredentialLine>
    decreases s.len(),
{
    if s.len() == 0 {
        Seq::empty()
    } else {
        membership_lines(s.drop_last()) + community_credentials(s.last())
    }
}

/// Lists the membership and role credentials that communities issued to us.
pub fn collect_membership_creds(config: &Config) -> (r: Vec<VrcSummary>)
    ensures
        shown_credentials(r@) == membership_lines(config.account.communities@),
{
    let mut out: Vec<VrcSummary> = Vec::new();
    let mut i: usize = 0;
    let ghost all = config.account.communities@;
    assert(shown_credentials(out@) =~= membership_lines(all.take(0)));
    while i < config.account.communities.len()
        invariant
            all == config.account.communities@,
            i <= all.len(),
            shown_credentials(out@) == membership_lines(all.take(i as int)),
        decreases all.len() - i,
    {
        let c = &config.account.communities[i];
        let heading = match &c.display_name {
            Some(n) => n.clone(),
            None => sanitize_display(c.vtc_did.as_str(), 64),
        };
        let ghost start = out@;
        match &c.membership_credential {
            Some(doc) => {
                out.push(
                    membership_summary(
                        heading.as_str(),
                        c.vtc_did.as_str(),
                        "Membership",
                        read_fields(doc.as_str()),
                    ),
                );
            },
            None => {},
        }
        let ghost middle = out@;
        match &c.role_credential {
            Some(doc) => {
                out.push(
                    membership_summary(
                        heading.as_str(),
                        c.vtc_did.as_str(),
                        "Role",
                        read_fields(doc.as_str()),
                    ),
                );
            },
            None => {},
        }
        proof {
            assert(all.take(i + 1).drop_last() =~= all.take(i as int));
            assert(shown_credentials(out@) =~= shown_credentials(start) + community_credentials(
                all[i as int],
            ));
        }
        i = i + 1;
    }
    assert(all.take(i as int) =~= all);
    out
}

// ---------------------------------------------------------------------------
// VTA panel
// ---------------------------------------------------------------------------

/// How many keys have an id that begins with this DID.
pub open spec fn keys_under(s: Seq<KeyEntry>, did: Seq<char>) -> nat
    decreases s.len(),
{
    if s.len() == 0 {
        0
    } else {
        keys_under(s.drop_last(), did) + (if begins_with(s.last().id@, did) {
            1nat
        } else {
            0nat
        })
    }
}

/// How many keys belong to the active persona: none without one.
pub open spec fn persona_keys(config: Config) -> nat {
    if config.persona_did_view().len() == 0 {
        0
    } else {
        keys_under(config.key_info@, config.persona_did_view())
    }
}

fn count_keys_under(keys: &Vec<KeyEntry>, did: &str) -> (r: usize)
    ensures
        r == keys_under(keys@, did@),
        r <= keys@.len(),
{
    let mut i: usize = 0;
    let mut n: usize = 0;
    assert(keys@.take(0).len() == 0);
    while i < keys.len()
        invariant
            i <= keys@.len(),
            n <= i,
            n == keys_under(keys@.take(i as int), did@),
        decreases keys@.len() - i,
    {
        assert(keys@.take(i + 1).drop_last() =~= keys@.take(i as int));
        if starts_with(keys[i].id.as_str(), did) {
            n = n + 1;
        }
        i = i + 1;
    }
    assert(keys@.take(i as int) =~= keys@);
    n
}

/// How a relationship DID of ours is labelled.
pub open spec fn r_did_label(config: Config, rel: Relationship) -> Seq<char> {
    "R-DID ("@ + (match alias_of(config.private.contacts.contacts@, rel.remote_p_did@) {
        Some(a) => a,
        None => shortened(rel.remote_p_did@, 30),
    }) + ")"@
}

/// The relationship DIDs of ours that are in use: those that are no persona's.
pub open spec fn r_dids(config: Config, s: Seq<Relationship>) -> Seq<(Seq<char>, Seq<char>)>
    decreases s.len(),
{
    if s.len() == 0 {
        Seq::empty()
    } else if config.owns_did(s.last().our_did@) {
        r_dids(config, s.drop_last())
    } else {
        r_dids(config, s.drop_last()).push((s.last().our_did@, r_did_label(config, s.last())))
    }
}

/// The DIDs in use: the persona's, where there is one, then relationship DIDs.
pub open spec fn dids_in_use(config: Config) -> Seq<(Seq<char>, Seq<char>)> {
    (if config.persona_did_view().len() == 0 {
        Seq::empty()
    } else {
        seq![(config.persona_did_view(), "Persona"@)]
    }) + r_dids(config, config.private.relationships@)
}

fn active_dids(config: &Config) -> (r: Vec<ActiveDid>)
    ensures
        r@.map_values(|d: ActiveDid| d@) == dids_in_use(*config),
{
    let mut out: Vec<ActiveDid> = Vec::new();
    let persona = owned(config.persona_did());
    if !persona.as_str().is_empty() {
        out.push(ActiveDid { did: persona, label: owned("Persona") });
    }
    let ghost head = out@.map_values(|d: ActiveDid| d@);
    assert(head =~= (if config.persona_did_view().len() == 0 {
        Seq::<(Seq<char>, Seq<char>)>::empty()
    } else {
        seq![(config.persona_did_view(), "Persona"@)]
    }));
    let mut i: usize = 0;
    let ghost all = config.private.relationships@;
    assert(head + r_dids(*config, all.take(0)) =~= head);
    while i < config.private.relationships.relationships.len()
        invariant
            all == config.private.relationships.relationships@,
            i <= all.len(),
            out@.map_values(|d: ActiveDid| d@) == head + r_dids(*config, all.take(i as int)),
        decreases all.len() - i,
    {
        let rel = &config.private.relationships.relationships[i];
        assert(all.take(i + 1).drop_last() =~= all.take(i as int));
        if !config.is_persona_did(rel.our_did.as_str()) {
            let name = match config.private.contacts.alias(rel.remote_p_did.as_str()) {
                Some(a) => a,
                None => shorten_did(rel.remote_p_did.as_str(), 30),
            };
            let ghost before = out@;
            out.push(
                ActiveDid { did: rel.our_did.clone(), label: cat3("R-DID (", name.as_str(), ")") },
            );
            proof {
                assert(out@.map_values(|d: ActiveDid| d@) =~= before.map_values(
                    |d: ActiveDid| d@,
                ).push(out@.last()@));
                assert((head + r_dids(*config, all.take(i as int))).push(out@.last()@) =~= head
                    + r_dids(*config, all.take(i as int)).push(out@.last()@));
            }
        }
        i = i + 1;
    }
    assert(all.take(i as int) =~= all);
    out
}

/// How a persona is listed in the DID manager.
pub open spec fn managed_line(config: Config, p: PersonaRecord) -> ManagedLine {
    ManagedLine {
        did: p.did@,
        label: or_empty(opt_view(p.label)),
        bound_communities: bound_count(config.account.communities@, p.persona_id),
        is_active: p.did@ == config.persona_did_view(),
    }
}

/// The lines of a list of personas.
pub open spec fn managed_lines(config: Config, s: Seq<PersonaRecord>) -> Seq<ManagedLine> {
    s.map_values(|p: PersonaRecord| managed_line(config, p))
}

/// What a list of entries shows.
pub open spec fn shown_managed(s: Seq<ManagedDid>) -> Seq<ManagedLine> {
    s.map_values(|m: ManagedDid| m@)
}

/// Entries stand in the order of their DIDs.
impl Ranked for ManagedDid {
    open spec fn le(self, other: Self) -> bool {
        lex_le(self.did@, other.did@)
    }

    proof fn le_total(a: Self, b: Self) {
        lemma_lex_total(a.did@, b.did@);
    }

    proof fn le_trans(a: Self, b: Self, c: Self) {
        lemma_lex_trans(a.did@, b.did@, c.did@);
    }

    fn ranks(&self, other: &Self) -> bool {
        text_le(self.did.as_str(), other.did.as_str())
    }
}

/// The DID manager shows every persona once, in the order of their DIDs.
pub open spec fn manager_shows(shown: Seq<ManagedDid>, config: Config) -> bool {
    exists|raw: Seq<ManagedDid>| #[trigger]
        is_stable_sort_of(shown, raw) && shown_managed(raw) == managed_lines(
            config,
            config.account.personas@,
        )
}

fn context_dids(config: &Config) -> (r: Vec<ManagedDid>)
    ensures
        manager_shows(r@, *config),
{
    let mut out: Vec<ManagedDid> = Vec::new();
    let active = owned(config.persona_did());
    let mut i: usize = 0;
    let ghost all = config.account.personas@;
    while i < config.account.personas.len()
        invariant
            all == config.account.personas@,
            active@ == config.persona_did_view(),
            i <= all.len(),
            shown_managed(out@) == managed_lines(*config, all.take(i as int)),
        decreases all.len() - i,
    {
        let p = &config.account.personas[i];
        let ghost before = out@;
        out.push(
            ManagedDid {
                did: p.did.clone(),
                label: take_or_empty(copy_opt(&p.label)),
                bound_communities: config.account.bound_communities(p.persona_id),
                is_active: same(p.did.as_str(), active.as_str()),
            },
        );
        proof {
            assert(all.take(i + 1) =~= all.take(i as int).push(all[i as int]));
            assert(shown_managed(out@) =~= shown_managed(before).push(out@.last()@));
            assert(managed_lines(*config, all.take(i + 1)) =~= managed_lines(
                *config,
                all.take(i as int),
            ).push(managed_line(*config, all[i as int])));
        }
        i = i + 1;
    }
    assert(all.take(i as int) =~= all);
    stable_sort(out)
}

// ---------------------------------------------------------------------------
// Settings
// ---------------------------------------------------------------------------

/// How many bytes a character takes in UTF-8.
pub open spec fn utf8_width(c: char) -> nat {
    if c as u32 <= 0x7F {
        1
    } else if c as u32 <= 0x7FF {
        2
    } else if c as u32 <= 0xFFFF {
        3
    } else {
        4
    }
}

fn char_width(c: char) -> (r: usize)
    ensures
        r == utf8_width(c),
{
    let n: u32 = c as u32;
    if n <= 0x7F {
        1
    } else if n <= 0x7FF {
        2
    } else if n <= 0xFFFF {
        3
    } else {
        4
    }
}

/// How many of the characters from `i` on fit into `n` bytes.
pub open spec fn fitting(s: Seq<char>, i: int, n: int) -> int
    decreases s.len() - i,
{
    if i >= s.len() || utf8_width(s[i]) > n {
        i
    } else {
        fitting(s, i + 1, n - utf8_width(s[i]))
    }
}

/// The leading characters of `s` that fit into `n` bytes.
pub open spec fn byte_prefix(s: Seq<char>, n: nat) -> Seq<char> {
    s.take(fitting(s, 0, n as int))
}

fn cut_bytes(s: &str, n: usize) -> (r: String)
    ensures
        r@ == byte_prefix(s@, n as nat),
{
    let v = chars_of(s);
    let mut i: usize = 0;
    let mut left: usize = n;
    while i < v.len() && char_width(v[i]) <= left
        invariant
            v@ == s@,
            i <= v.len(),
            fitting(s@, 0, n as int) == fitting(s@, i as int, left as int),
        decreases v.len() - i,
    {
        left = left - char_width(v[i]);
        i = i + 1;
    }
    assert(v@.subrange(0, i as int) =~= s@.take(i as int));
    text_of(&v, 0, i)
}

/// How the protection of the configuration is described.
pub open spec fn protection_view(p: ProtectionType) -> Seq<char> {
    match p {
        ProtectionType::Token(id) => "Hardware Token ("@ + byte_prefix(id@, 20) + ")"@,
        ProtectionType::Encrypted => "Passphrase Encrypted"@,
        ProtectionType::Plaintext => "Keyring Only (no additional encryption)"@,
    }
}

fn protection_text(p: &ProtectionType) -> (r: String)
    ensures
        r@ == protection_view(*p),
{
    match p {
        ProtectionType::Token(id) => {
            let head = cut_bytes(id.as_str(), 20);
            cat3("Hardware Token (", head.as_str(), ")")
        },
        ProtectionType::Encrypted => owned("Passphrase Encrypted"),
        ProtectionType::Plaintext => owned("Keyring Only (no additional encryption)"),
    }
}

// ---------------------------------------------------------------------------
// Communities
// ---------------------------------------------------------------------------

/// The name that a community is listed under.
pub open spec fn community_name(c: CommunityRecord) -> Seq<char> {
    match c.display_name {
        Some(n) => n@,
        None => shortened(c.vtc_did@, 40),
    }
}

/// The name that a community is listed under.
pub fn name_of(c: &CommunityRecord) -> (r: String)
    ensures
        r@ == community_name(*c),
{
    match &c.display_name {
        Some(n) => n.clone(),
        None => shorten_did(c.vtc_did.as_str(), 40),
    }
}

/// How a membership is listed.
pub open spec fn community_line(config: Config, c: CommunityRecord) -> CommunityLine {
    let persona = held_by(config.account.personas@, c.persona_ref);
    CommunityLine {
        display_name: community_name(c),
        status_label: c.status.label_view(),
        persona_label: match persona {
            Some(p) => match p.label {
                Some(l) => l@,
                None => shortened(p.did@, 24),
            },
            None => Seq::empty(),
        },
        member_since: match c.member_since {
            Some(t) => day_view(t),
            None => Seq::empty(),
        },
        favourite: c.favourite,
        needs_attention: c.attention,
        persona_did: match persona {
            Some(p) => p.did@,
            None => Seq::empty(),
        },
        vtc_did: c.vtc_did@,
        sub_context_id: c.sub_context_id@,
        request_id: match c.status {
            CommunityStatus::Pending { request_id } => request_id@,
            _ => Seq::empty(),
        },
        has_membership_credential: c.membership_credential is Some,
        has_role_credential: c.role_credential is Some,
    }
}

/// The lines of the memberships at these positions.
pub open spec fn community_lines(config: Config, order: Seq<int>) -> Seq<CommunityLine> {
    order.map_values(|i: int| community_line(config, config.account.communities@[i]))
}

/// What a list of summaries shows.
pub open spec fn shown_communities(s: Seq<CommunitySummary>) -> Seq<CommunityLine> {
    s.map_values(|c: CommunitySummary| c@)
}

fn summarize_community(config: &Config, c: &CommunityRecord) -> (r: CommunitySummary)
    ensures
        r@ == community_line(*config, *c),
{
    let persona = held_position(&config.account.personas, c.persona_ref);
    let persona_label = match persona {
        Some(i) => match &config.account.personas[i].label {
            Some(l) => l.clone(),
            None => shorten_did(config.account.personas[i].did.as_str(), 24),
        },
        None => String::new(),
    };
    let persona_did = match persona {
        Some(i) => config.account.personas[i].did.clone(),
        None => String::new(),
    };
    let member_since = match c.member_since {
        Some(t) => day_text(t),
        None => String::new(),
    };
    let request_id = match &c.status {
        CommunityStatus::Pending { request_id } => request_id.clone(),
        _ => String::new(),
    };
    CommunitySummary {
        display_name: name_of(c),
        status_label: community_status_label(&c.status),
        persona_label,
        member_since,
        favourite: c.favourite,
        needs_attention: c.attention,
        persona_did,
        vtc_did: c.vtc_did.clone(),
        sub_context_id: c.sub_context_id.clone(),
        request_id,
        has_membership_credential: c.membership_credential.is_some(),
        has_role_credential: c.role_credential.is_some(),
    }
}

fn summarize_communities(config: &Config, archived: bool) -> (r: Vec<CommunitySummary>)
    ensures
        shown_communities(r@) == community_lines(
            *config,
            display_order(config.account.communities@, archived),
        ),
{
    let order = config.account.communities_for_display(archived);
    let ghost places = display_order(config.account.communities@, archived);
    assert(positions(order@).len() == order@.len());
    let mut out: Vec<CommunitySummary> = Vec::new();
    let mut k: usize = 0;
    assert(shown_communities(out@) =~= community_lines(*config, places.take(0)));
    while k < order.len()
        invariant
            k <= order@.len(),
            order@.len() == places.len(),
            positions(order@) == places,
            forall|j: int|
                0 <= j < order@.len() ==> (#[trigger] order@[j])
                    < config.account.communities@.len(),
            shown_communities(out@) == community_lines(*config, places.take(k as int)),
        decreases order@.len() - k,
    {
        let i: usize = order[k];
        let ghost before = out@;
        out.push(summarize_community(config, &config.account.communities[i]));
        proof {
            assert(positions(order@)[k as int] == order@[k as int]);
            assert(places.take(k + 1) =~= places.take(k as int).push(places[k as int]));
            assert(shown_communities(out@) =~= shown_communities(before).push(out@.last()@));
            assert(community_lines(*config, places.take(k + 1)) =~= community_lines(
                *config,
                places.take(k as int),
            ).push(
                community_line(*config, config.account.communities@[places[k as int]]),
            ));
        }
        k = k + 1;
    }
    assert(places.take(k as int) =~= places);
    out
}

// ---------------------------------------------------------------------------
// The page
// ---------------------------------------------------------------------------

/// The selected row, kept within a list of `n` rows.
pub open spec fn row_within(row: usize, n: nat) -> usize {
    if row >= n {
        if n == 0 {
            0
        } else {
            (n - 1) as usize
        }
    } else {
        row
    }
}

/// Only what the configuration decides may differ between the two pages.
pub open spec fn same_but_shown(old: MainPageState, new: MainPageState) -> bool {
    let oc = old.content_panel;
    let nc = new.content_panel;
    new == MainPageState {
        config: new.config,
        content_panel: ContentPanelState {
            inbox: InboxState { tasks: nc.inbox.tasks, ..oc.inbox },
            relationships: RelationshipsState {
                relationships: nc.relationships.relationships,
                ..oc.relationships
            },
            credentials: CredentialsState {
                received: nc.credentials.received,
                issued: nc.credentials.issued,
                membership: nc.credentials.membership,
                ..oc.credentials
            },
            settings: SettingsState {
                friendly_name: nc.settings.friendly_name,
                mediator_did: nc.settings.mediator_did,
                org_did: nc.settings.org_did,
                persona_did: nc.settings.persona_did,
                protection_type: nc.settings.protection_type,
                did_git_sign: nc.settings.did_git_sign,
                ..oc.settings
            },
            vta: VtaState {
                persona_did: nc.vta.persona_did,
                mediator_did: nc.vta.mediator_did,
                vta_url: nc.vta.vta_url,
                vta_did: nc.vta.vta_did,
                credential_did: nc.vta.credential_did,
                key_count: nc.vta.key_count,
                persona_key_count: nc.vta.persona_key_count,
                relationship_key_count: nc.vta.relationship_key_count,
                is_vta_managed: nc.vta.is_vta_managed,
                active_dids: nc.vta.active_dids,
                context_dids: nc.vta.context_dids,
                ..oc.vta
            },
            communities: CommunitiesState {
                items: nc.communities.items,
                actions_required: nc.communities.actions_required,
                selected_index: nc.communities.selected_index,
                ..oc.communities
            },
            ..oc
        },
        ..old
    }
}

/// The settings panel shows this configuration.
pub open spec fn settings_show(s: SettingsState, config: Config, host: Host) -> bool {
    &&& s.friendly_name@ == config.public.friendly_name@
    &&& s.mediator_did@ == config.mediator_view()
    &&& s.org_did@ == config.account.org_did@
    &&& s.persona_did@ == config.persona_did_view()
    &&& s.protection_type@ == protection_view(config.public.protection)
    &&& (match s.did_git_sign {
        Some(i) => Some(i@),
        None => None,
    }) == install_of(config.persona_did_view(), host.git_sign)
}

/// The VTA panel shows this configuration; what it showed of a VTA before stays
/// when keys are no longer held by one.
pub open spec fn vta_shows(old: VtaState, new: VtaState, config: Config) -> bool {
    &&& new.persona_did@ == config.persona_did_view()
    &&& new.mediator_did@ == config.mediator_view()
    &&& match config.key_backend {
        KeyBackend::Vta { vta_url, vta_did, credential_did, .. } => {
            &&& new.is_vta_managed
            &&& new.vta_url@ == vta_url@
            &&& new.vta_did@ == vta_did@
            &&& new.credential_did@ == credential_did@
        },
        _ => {
            &&& !new.is_vta_managed
            &&& new.vta_url == old.vta_url
            &&& new.vta_did == old.vta_did
            &&& new.credential_did == old.credential_did
        },
    }
    &&& new.key_count == config.key_info@.len()
    &&& new.persona_key_count == persona_keys(config)
    &&& new.relationship_key_count == config.key_info@.len() - persona_keys(config)
    &&& new.active_dids@.map_values(|d: ActiveDid| d@) == dids_in_use(config)
    &&& manager_shows(new.context_dids@, config)
}

/// The page `new` is the page `old` brought up to date with the configuration.
pub open spec fn synced(old: MainPageState, new: MainPageState, config: Config, host: Host) -> bool {
    let nc = new.content_panel;
    &&& same_but_shown(old, new)
    &&& new.config@ == header_of(config)
    &&& inbox_shows(nc.inbox.tasks@, config)
    &&& shown_relationships(nc.relationships.relationships@) == relationship_lines(
        config,
        config.private.relationships@,
    )
    &&& shown_credentials(nc.credentials.received@) == credential_lines(
        config,
        config.private.vrcs_received.entries@,
    )
    &&& shown_credentials(nc.credentials.issued@) == credential_lines(
        config,
        config.private.vrcs_issued.entries@,
    )
    &&& shown_credentials(nc.credentials.membership@) == membership_lines(
        config.account.communities@,
    )
    &&& settings_show(nc.settings, config, host)
    &&& vta_shows(old.content_panel.vta, nc.vta, config)
    &&& shown_communities(nc.communities.items@) == community_lines(
        config,
        display_order(config.account.communities@, old.content_panel.communities.show_archived),
    )
    &&& nc.communities.actions_required == crate::account::attention_count(
        config.account.communities@,
    )
    &&& nc.communities.selected_index == row_within(
        old.content_panel.communities.selected_index,
        nc.communities.items@.len(),
    )
}

impl MainPageState {
    fn sync_lists(&mut self, config: &Config)
        ensures
            same_but_shown(*old(self), *final(self)),
            final(self).config@ == header_of(*config),
            inbox_shows(final(self).content_panel.inbox.tasks@, *config),
            shown_relationships(final(self).content_panel.relationships.relationships@)
                == relationship_lines(*config, config.private.relationships@),
            shown_credentials(final(self).content_panel.credentials.received@) == credential_lines(
                *config,
                config.private.vrcs_received.entries@,
            ),
            shown_credentials(final(self).content_panel.credentials.issued@) == credential_lines(
                *config,
                config.private.vrcs_issued.entries@,
            ),
            shown_credentials(final(self).content_panel.credentials.membership@)
                == membership_lines(config.account.communities@),
            final(self).content_panel.settings == old(self).content_panel.settings,
            final(self).content_panel.vta == old(self).content_panel.vta,
            final(self).content_panel.communities == old(self).content_panel.communities,
    {
        self.config = MainMenuConfigState::of(config);
        self.content_panel.inbox.tasks = summarize_tasks(config);
        self.content_panel.relationships.relationships = summarize_relationships(config);
        self.content_panel.credentials.received = collect_vrcs(
            &config.private.vrcs_received,
            config,
        );
        self.content_panel.credentials.issued = collect_vrcs(&config.private.vrcs_issued, config);
        self.content_panel.credentials.membership = collect_membership_creds(config);
    }

    fn sync_settings(&mut self, config: &Config, host: &Host)
        ensures
            settings_show(final(self).content_panel.settings, *config, *host),
            *final(self) == (MainPageState {
                content_panel: ContentPanelState {
                    settings: SettingsState {
                        friendly_name: final(self).content_panel.settings.friendly_name,
                        mediator_did: final(self).content_panel.settings.mediator_did,
                        org_did: final(self).content_panel.settings.org_did,
                        persona_did: final(self).content_panel.settings.persona_did,
                        protection_type: final(self).content_panel.settings.protection_type,
                        did_git_sign: final(self).content_panel.settings.did_git_sign,
                        ..old(self).content_panel.settings
                    },
                    ..old(self).content_panel
                },
                ..*old(self)
            }),
    {
        self.content_panel.settings.friendly_name = config.public.friendly_name.clone();
        self.content_panel.settings.mediator_did = owned(config.mediator_did());
        self.content_panel.settings.org_did = config.account.org_did.clone();
        self.content_panel.settings.persona_did = owned(config.persona_did());
        self.content_panel.settings.did_git_sign = detect_did_git_sign_info(
            config.persona_did(),
            &host.git_sign,
        );
        self.content_panel.settings.protection_type = protection_text(&config.public.protection);
    }

    fn sync_vta(&mut self, config: &Config)
        ensures
            vta_shows(old(self).content_panel.vta, final(self).content_panel.vta, *config),
            *final(self) == (MainPageState {
                content_panel: ContentPanelState {
                    vta: VtaState {
                        persona_did: final(self).content_panel.vta.persona_did,
                        mediator_did: final(self).content_panel.vta.mediator_did,
                        vta_url: final(self).content_panel.vta.vta_url,
                        vta_did: final(self).content_panel.vta.vta_did,
                        credential_did: final(self).content_panel.vta.credential_did,
                        key_count: final(self).content_panel.vta.key_count,
                        persona_key_count: final(self).content_panel.vta.persona_key_count,
                        relationship_key_count: final(self).content_panel.vta.relationship_key_count,
                        is_vta_managed: final(self).content_panel.vta.is_vta_managed,
                        active_dids: final(self).content_panel.vta.active_dids,
                        context_dids: final(self).content_panel.vta.context_dids,
                        ..old(self).content_panel.vta
                    },
                    ..old(self).content_panel
                },
                ..*old(self)
            }),
    {
        let persona = owned(config.persona_did());
        self.content_panel.vta.persona_did = persona.clone();
        self.content_panel.vta.mediator_did = owned(config.mediator_did());
        match &config.key_backend {
            KeyBackend::Vta { vta_url, vta_did, credential_did, .. } => {
                self.content_panel.vta.vta_url = vta_url.clone();
                self.content_panel.vta.vta_did = vta_did.clone();
                self.content_panel.vta.credential_did = credential_did.clone();
                self.content_panel.vta.is_vta_managed = true;
            },
            _ => {
                self.content_panel.vta.is_vta_managed = false;
            },
        }
        let total: usize = config.key_info.len();
        let own: usize = if persona.as_str().is_empty() {
            0
        } else {
            count_keys_under(&config.key_info, persona.as_str())
        };
        self.content_panel.vta.key_count = total;
        self.content_panel.vta.persona_key_count = own;
        self.content_panel.vta.relationship_key_count = total - own;
        self.content_panel.vta.active_dids = active_dids(config);
        self.content_panel.vta.context_dids = context_dids(config);
    }

    /// Rebuilds everything the panels show from the configuration. Called after
    /// the configuration is loaded and after every change of it.
    pub fn sync_from_config(&mut self, config: &Config, host: &Host)
        ensures
            synced(*old(self), *final(self), *config, *host),
    {
        self.sync_lists(config);
        self.sync_settings(config, host);
        self.sync_vta(config);
        let items = summarize_communities(config, self.content_panel.communities.show_archived);
        let count: usize = items.len();
        self.content_panel.communities.actions_required = config.account.actions_required_count();
        self.content_panel.communities.items = items;
        if self.content_panel.communities.selected_index >= count {
            self.content_panel.communities.selected_index = if count == 0 {
                0
            } else {
                count - 1
            };
        }
    }
}

/// The selected community row always names a row of the list, or the first when
/// the list is empty.
pub proof fn law_selection_stays_in_list(
    old: MainPageState,
    new: MainPageState,
    config: Config,
    host: Host,
)
    requires
        synced(old, new, config, host),
    ensures
        new.content_panel.communities.items@.len() > 0
            ==> new.content_panel.communities.selected_index
            < new.content_panel.communities.items@.len(),
        new.content_panel.communities.items@.len() == 0
            ==> new.content_panel.communities.selected_index == 0,
{
}

/// Syncing twice shows what syncing once does, but for the order of tasks and
/// personas that rank alike: the header, the selection and every other list
/// are the same.
pub proof fn law_sync_settles(
    old: MainPageState,
    mid: MainPageState,
    new: MainPageState,
    config: Config,
    host: Host,
)
    requires
        synced(old, mid, config, host),
        synced(mid, new, config, host),
    ensures
        synced(old, new, config, host),
        new.config@ == mid.config@,
        new.content_panel.communities.selected_index
            == mid.content_panel.communities.selected_index,
        shown_communities(new.content_panel.communities.items@) == shown_communities(
            mid.content_panel.communities.items@,
        ),
        shown_relationships(new.content_panel.relationships.relationships@)
            == shown_relationships(mid.content_panel.relationships.relationships@),
{
    assert(shown_communities(new.content_panel.communities.items@).len()
        == new.content_panel.communities.items@.len());
    assert(shown_communities(mid.content_panel.communities.items@).len()
        == mid.content_panel.communities.items@.len());
}

/// Before a persona exists no key counts as a persona's, though every text
/// begins with the empty one.
pub proof fn law_no_persona_no_persona_keys(config: Config)
    requires
        config.identities@.len() == 0,
        config.active_persona is None,
    ensures
        persona_keys(config) == 0,
{
}

/// Every relationship is shown in its row, with the DIDs of both sides and how far
/// it has come.
pub proof fn law_relationships_are_shown(
    page: &mut MainPageState,
    config: Config,
    host: Host,
    i: int,
)
    requires
        call_ensures(MainPageState::sync_from_config, (page, &config, &host), ()),
        0 <= i < config.private.relationships@.len(),
    ensures
        ({
            let rows = final(page).content_panel.relationships.relationships@;
            let rel = config.private.relationships@[i];
            &&& rows.len() == config.private.relationships@.len()
            &&& rows[i].our_did@ == rel.our_did@
            &&& rows[i].remote_p_did@ == sanitized(rel.remote_p_did@, 256)
            &&& rows[i].remote_did@ == sanitized(rel.remote_did@, 256)
            &&& rows[i].state@ == rel.state.label_view()
            &&& rows[i].created@ == minute_view(rel.created)
        }),
{
    let rows = final(page).content_panel.relationships.relationships@;
    assert(shown_relationships(rows).len() == rows.len());
    assert(relationship_lines(config, config.private.relationships@).len()
        == config.private.relationships@.len());
    assert(shown_relationships(rows)[i] == rows[i]@);
}

/// Every task is shown once in the inbox, under its own id, and the newest stand
/// first.
pub proof fn law_tasks_are_shown(page: &mut MainPageState, config: Config, host: Host, i: int)
    requires
        call_ensures(MainPageState::sync_from_config, (page, &config, &host), ()),
        0 <= i < config.private.tasks@.len(),
    ensures
        ({
            let rows = final(page).content_panel.inbox.tasks@;
            let task = config.private.tasks@[i];
            &&& rows.len() == config.private.tasks@.len()
            &&& exists|k: int|
                0 <= k < rows.len() && (#[trigger] rows[k]).id@ == task.id@ && rows[k].created@
                    == minute_view(task.created)
            &&& forall|j: int, k: int|
                0 <= j < k < rows.len() ==> lex_le(
                    (#[trigger] rows[k]).created@,
                    (#[trigger] rows[j]).created@,
                )
        }),
{
    let rows = final(page).content_panel.inbox.tasks@;
    let raw = choose|raw: Seq<TaskSummary>| #[trigger]
        is_stable_sort_of(rows, raw) && shown_tasks(raw) == task_lines(
            config,
            config.private.tasks@,
        );
    assert(shown_tasks(raw).len() == raw.len());
    assert(task_lines(config, config.private.tasks@).len() == config.private.tasks@.len());
    rows.to_multiset_ensures();
    raw.to_multiset_ensures();
    assert(shown_tasks(raw)[i] == raw[i]@);
    assert(raw.contains(raw[i]));
    assert(raw.to_multiset().count(raw[i]) > 0);
    assert(rows.contains(raw[i]));
    let k = choose|k: int| 0 <= k < rows.len() && rows[k] == raw[i];
    assert(rows[k]@ == raw[i]@);
    assert(rows[k].id@ == config.private.tasks@[i].id@);
    assert forall|j: int, k: int| 0 <= j < k < rows.len() implies lex_le(
        (#[trigger] rows[k]).created@,
        (#[trigger] rows[j]).created@,
    ) by {
        assert(rows[j].le(rows[k]));
    }
}

/// Every credential that was received or issued is shown in its row, under its own
/// id, with its issuer, its subject and the days that it holds.
pub proof fn law_credentials_are_shown(
    page: &mut MainPageState,
    config: Config,
    host: Host,
    i: int,
)
    requires
        call_ensures(MainPageState::sync_from_config, (page, &config, &host), ()),
    ensures
        ({
            let panel = final(page).content_panel.credentials;
            let received = config.private.vrcs_received.entries@;
            let issued = config.private.vrcs_issued.entries@;
            &&& panel.received@.len() == received.len()
            &&& panel.issued@.len() == issued.len()
            &&& 0 <= i < received.len() ==> {
                let row = panel.received@[i];
                &&& row.vrc_id@ == received[i].vrc.id@
                &&& row.issuer@ == sanitized(received[i].vrc.issuer@, 256)
                &&& row.subject@ == sanitized(received[i].vrc.subject@, 256)
                &&& row.remote_p_did@ == sanitized(received[i].remote_p_did@, 256)
                &&& row.valid_from@ == day_view(received[i].vrc.valid_from)
                &&& row.valid_until is Some <==> received[i].vrc.valid_until is Some
            }
            &&& 0 <= i < issued.len() ==> {
                let row = panel.issued@[i];
                &&& row.vrc_id@ == issued[i].vrc.id@
                &&& row.issuer@ == sanitized(issued[i].vrc.issuer@, 256)
                &&& row.subject@ == sanitized(issued[i].vrc.subject@, 256)
                &&& row.remote_p_did@ == sanitized(issued[i].remote_p_did@, 256)
                &&& row.valid_from@ == day_view(issued[i].vrc.valid_from)
                &&& row.valid_until is Some <==> issued[i].vrc.valid_until is Some
            }
        }),
{
    let panel = final(page).content_panel.credentials;
    let received = config.private.vrcs_received.entries@;
    let issued = config.private.vrcs_issued.entries@;
    assert(shown_credentials(panel.received@).len() == panel.received@.len());
    assert(credential_lines(config, received).len() == received.len());
    assert(shown_credentials(panel.issued@).len() == panel.issued@.len());
    assert(credential_lines(config, issued).len() == issued.len());
    if 0 <= i < received.len() {
        assert(shown_credentials(panel.received@)[i] == panel.received@[i]@);
    }
    if 0 <= i < issued.len() {
        assert(shown_credentials(panel.issued@)[i] == panel.issued@[i]@);
    }
}

/// The settings and the VTA panel show what is in force: the name, the mediator,
/// the organisation, the persona and the VTA; every key counts once, as the
/// persona's or as a relationship's.
pub proof fn law_settings_in_force_are_shown(page: &mut MainPageState, config: Config, host: Host)
    requires
        call_ensures(MainPageState::sync_from_config, (page, &config, &host), ()),
    ensures
        ({
            let s = final(page).content_panel.settings;
            let v = final(page).content_panel.vta;
            &&& s.friendly_name@ == config.public.friendly_name@
            &&& s.mediator_did@ == config.mediator_view()
            &&& s.org_did@ == config.account.org_did@
            &&& s.persona_did@ == config.persona_did_view()
            &&& v.persona_did@ == config.persona_did_view()
            &&& v.mediator_did@ == config.mediator_view()
            &&& v.is_vta_managed <==> config.key_backend is Vta
            &&& config.key_backend is Vta ==> v.vta_url@ == config.key_backend->vta_url@
                && v.vta_did@ == config.key_backend->vta_did@ && v.credential_did@
                == config.key_backend->credential_did@
            &&& v.key_count == config.key_info@.len()
            &&& v.persona_key_count + v.relationship_key_count == v.key_count
        }),
        final(page).activity_log == old(page).activity_log,
        final(page).content_panel.settings.mode == old(page).content_panel.settings.mode,
        final(page).content_panel.communities.show_archived == old(page).content_panel.communities.show_archived,
{
}

/// Every row of the communities panel shows the membership that it stands for,
/// and every membership that is listed has its row.
pub proof fn law_memberships_are_shown(
    page: &mut MainPageState,
    config: Config,
    host: Host,
    i: int,
)
    requires
        call_ensures(MainPageState::sync_from_config, (page, &config, &host), ()),
        0 <= i < display_order(
            config.account.communities@,
            old(page).content_panel.communities.show_archived,
        ).len(),
    ensures
        ({
            let order = display_order(
                config.account.communities@,
                old(page).content_panel.communities.show_archived,
            );
            let rows = final(page).content_panel.communities.items@;
            let c = config.account.communities@[order[i]];
            &&& rows.len() == order.len()
            &&& rows[i].vtc_did@ == c.vtc_did@
            &&& rows[i].sub_context_id@ == c.sub_context_id@
            &&& rows[i].favourite == c.favourite
            &&& rows[i].needs_attention == c.attention
            &&& rows[i].status_label@ == c.status.label_view()
            &&& rows[i].has_membership_credential <==> c.membership_credential is Some
            &&& rows[i].has_role_credential <==> c.role_credential is Some
            &&& held_by(config.account.personas@, c.persona_ref) matches Some(p)
            ==> rows[i].persona_did@ == p.did@
            &&& c.display_name is Some ==> rows[i].display_name@ == c.display_name->0@
        }),
{
    let order = display_order(
        config.account.communities@,
        old(page).content_panel.communities.show_archived,
    );
    let rows = final(page).content_panel.communities.items@;
    assert(shown_communities(rows).len() == rows.len());
    assert(community_lines(config, order).len() == order.len());
    assert(shown_communities(rows)[i] == rows[i]@);
}

} // verus!
