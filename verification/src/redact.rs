//! Diagnostic texts of what the wizard holds, with its secrets left out.

use crate::setup::{
    Completion, ConfigProtection, DIDKeysExportState, DetectedTokens, MessageType, MessageView,
    Protocol, VtaSetupState, WebvhServer,
};
use crate::text::{
    cat3, cat4, cat5, decimal_usize, decimal_view, join, joined, opt_view, owned, texts_view,
};
use vstd::prelude::*;

verus! {

/// A text as the `Debug` form of `str` shows it: quoted, with escapes.
pub uninterp spec fn quoted(s: Seq<char>) -> Seq<char>;

/// The `Debug` form of a `str`.
#[verifier::external_body]
fn quote(s: &str) -> (r: String)
    ensures
        r@ == quoted(s@),
{
    format!("{:?}", s)
}

/// An optional text in its diagnostic form.
pub open spec fn opt_form(o: Option<Seq<char>>) -> Seq<char> {
    match o {
        Some(s) => "Some("@ + quoted(s) + ")"@,
        None => "None"@,
    }
}

fn show_opt(o: &Option<String>) -> (r: String)
    ensures
        r@ == opt_form(opt_view(*o)),
{
    match o {
        Some(s) => {
            let q = quote(s.as_str());
            cat3("Some(", q.as_str(), ")")
        },
        None => owned("None"),
    }
}

/// A secret in its diagnostic form: only whether there is one.
pub open spec fn secret_form(present: bool) -> Seq<char> {
    opt_form(
        if present {
            Some("<redacted>"@)
        } else {
            None
        },
    )
}

fn show_secret(present: bool) -> (r: String)
    ensures
        r@ == secret_form(present),
{
    let o = if present {
        Some(owned("<redacted>"))
    } else {
        None
    };
    show_opt(&o)
}

/// A truth value in its diagnostic form.
pub open spec fn bool_form(b: bool) -> Seq<char> {
    if b {
        "true"@
    } else {
        "false"@
    }
}

fn show_bool(b: bool) -> (r: String)
    ensures
        r@ == bool_form(b),
{
    if b {
        owned("true")
    } else {
        owned("false")
    }
}

/// A list in its diagnostic form.
pub open spec fn list_form(items: Seq<Seq<char>>) -> Seq<char> {
    "["@ + joined(items, ", "@) + "]"@
}

fn show_list(items: &Vec<String>) -> (r: String)
    ensures
        r@ == list_form(texts_view(items@)),
{
    let inner = join(items, ", ");
    cat3("[", inner.as_str(), "]")
}

/// A message in its diagnostic form.
pub open spec fn message_form(m: MessageView) -> Seq<char> {
    match m {
        MessageView::Info(s) => "Info("@ + quoted(s) + ")"@,
        MessageView::Error(s) => "Error("@ + quoted(s) + ")"@,
    }
}

/// These messages in their diagnostic forms.
pub open spec fn message_forms(s: Seq<MessageType>) -> Seq<Seq<char>> {
    s.map_values(|m: MessageType| message_form(m@))
}

fn show_messages(messages: &Vec<MessageType>) -> (r: String)
    ensures
        r@ == list_form(message_forms(messages@)),
{
    let mut out: Vec<String> = Vec::new();
    let mut i: usize = 0;
    while i < messages.len()
        invariant
            i <= messages@.len(),
            texts_view(out@) == message_forms(messages@.take(i as int)),
        decreases messages@.len() - i,
    {
        let text = match &messages[i] {
            MessageType::Info(s) => {
                let q = quote(s.as_str());
                cat3("Info(", q.as_str(), ")")
            },
            MessageType::Error(s) => {
                let q = quote(s.as_str());
                cat3("Error(", q.as_str(), ")")
            },
        };
        let ghost before = out@;
        out.push(text);
        proof {
            assert(texts_view(out@) =~= texts_view(before).push(text@));
            assert(message_forms(messages@.take(i + 1)) =~= message_forms(
                messages@.take(i as int),
            ).push(message_form(messages@[i as int]@)));
        }
        i = i + 1;
    }
    assert(messages@.take(i as int) =~= messages@);
    show_list(&out)
}

/// These texts, each quoted.
pub open spec fn quoted_all(s: Seq<String>) -> Seq<Seq<char>> {
    s.map_values(|t: String| quoted(t@))
}

fn show_texts(texts: &Vec<String>) -> (r: String)
    ensures
        r@ == list_form(quoted_all(texts@)),
{
    let mut out: Vec<String> = Vec::new();
    let mut i: usize = 0;
    while i < texts.len()
        invariant
            i <= texts@.len(),
            texts_view(out@) == quoted_all(texts@.take(i as int)),
        decreases texts@.len() - i,
    {
        let text = quote(texts[i].as_str());
        let ghost before = out@;
        out.push(text);
        proof {
            assert(texts_view(out@) =~= texts_view(before).push(text@));
            assert(quoted_all(texts@.take(i + 1)) =~= quoted_all(texts@.take(i as int)).push(
                quoted(texts@[i as int]@),
            ));
        }
        i = i + 1;
    }
    assert(texts@.take(i as int) =~= texts@);
    show_list(&out)
}

/// A server in its diagnostic form.
pub open spec fn server_form(w: WebvhServer) -> Seq<char> {
    "WebvhServer { id: "@ + quoted(w.id@) + ", label: "@ + opt_form(opt_view(w.label)) + " }"@
}

/// These servers in their diagnostic forms.
pub open spec fn server_forms(s: Seq<WebvhServer>) -> Seq<Seq<char>> {
    s.map_values(|w: WebvhServer| server_form(w))
}

fn show_servers(servers: &Vec<WebvhServer>) -> (r: String)
    ensures
        r@ == list_form(server_forms(servers@)),
{
    let mut out: Vec<String> = Vec::new();
    let mut i: usize = 0;
    while i < servers.len()
        invariant
            i <= servers@.len(),
            texts_view(out@) == server_forms(servers@.take(i as int)),
        decreases servers@.len() - i,
    {
        let id = quote(servers[i].id.as_str());
        let label = show_opt(&servers[i].label);
        let text = cat5("WebvhServer { id: ", id.as_str(), ", label: ", label.as_str(), " }");
        let ghost before = out@;
        out.push(text);
        proof {
            assert(texts_view(out@) =~= texts_view(before).push(text@));
            assert(server_forms(servers@.take(i + 1)) =~= server_forms(
                servers@.take(i as int),
            ).push(server_form(servers@[i as int])));
        }
        i = i + 1;
    }
    assert(servers@.take(i as int) =~= servers@);
    show_list(&out)
}

/// How far a task has come, in its diagnostic form.
pub open spec fn completion_form(c: Completion) -> Seq<char> {
    match c {
        Completion::NotFinished => "NotFinished"@,
        Completion::CompletedOK => "CompletedOK"@,
        Completion::CompletedFail => "CompletedFail"@,
    }
}

fn show_completion(c: Completion) -> (r: String)
    ensures
        r@ == completion_form(c),
{
    match c {
        Completion::NotFinished => owned("NotFinished"),
        Completion::CompletedOK => owned("CompletedOK"),
        Completion::CompletedFail => owned("CompletedFail"),
    }
}

/// An optional transport in its diagnostic form.
pub open spec fn protocol_form(p: Option<Protocol>) -> Seq<char> {
    match p {
        None => "None"@,
        Some(Protocol::DidComm) => "Some(DidComm)"@,
        Some(Protocol::Rest) => "Some(Rest)"@,
    }
}

fn show_protocol(p: Option<Protocol>) -> (r: String)
    ensures
        r@ == protocol_form(p),
{
    match p {
        None => owned("None"),
        Some(Protocol::DidComm) => owned("Some(DidComm)"),
        Some(Protocol::Rest) => owned("Some(Rest)"),
    }
}

/// The fields of a structure: each by its name and its form.
pub open spec fn field_forms(fields: Seq<(Seq<char>, Seq<char>)>) -> Seq<Seq<char>> {
    fields.map_values(|f: (Seq<char>, Seq<char>)| f.0 + ": "@ + f.1)
}

/// A structure in its diagnostic form.
pub open spec fn struct_form(name: Seq<char>, fields: Seq<(Seq<char>, Seq<char>)>) -> Seq<char> {
    name + " { "@ + joined(field_forms(fields), ", "@) + " }"@
}

fn add_field(
    out: &mut Vec<String>,
    Ghost(fields): Ghost<Seq<(Seq<char>, Seq<char>)>>,
    name: &str,
    form: String,
)
    requires
        texts_view(old(out)@) == field_forms(fields),
    ensures
        texts_view(final(out)@) == field_forms(fields.push((name@, form@))),
{
    let text = cat3(name, ": ", form.as_str());
    let ghost before = out@;
    out.push(text);
    assert(texts_view(out@) =~= texts_view(before).push(text@));
    assert(field_forms(fields.push((name@, form@))) =~= field_forms(fields).push(text@));
}

fn show_struct(
    name: &str,
    fields: &Vec<String>,
    Ghost(known): Ghost<Seq<(Seq<char>, Seq<char>)>>,
) -> (r: String)
    requires
        texts_view(fields@) == field_forms(known),
    ensures
        r@ == struct_form(name@, known),
{
    let inner = join(fields, ", ");
    cat4(name, " { ", inner.as_str(), " }")
}

impl DIDKeysExportState {
    /// What the diagnostic text says: of the exported keys only whether there are
    /// any.
    pub open spec fn debug_fields(self) -> Seq<(Seq<char>, Seq<char>)> {
        seq![
            ("messages"@, list_form(quoted_all(self.messages@))),
            (
                "exported"@,
                opt_form(
                    if self.exported is Some {
                        Some("[REDACTED]"@)
                    } else {
                        None
                    },
                ),
            ),
        ]
    }

    /// The diagnostic text.
    pub fn debug_text(&self) -> (r: String)
        ensures
            r@ == struct_form("DIDKeysExportState"@, self.debug_fields()),
    {
        let mut out: Vec<String> = Vec::new();
        let ghost none = Seq::<(Seq<char>, Seq<char>)>::empty();
        assert(texts_view(out@) =~= field_forms(none));
        let messages = show_texts(&self.messages);
        let ghost one = none.push(("messages"@, messages@));
        add_field(&mut out, Ghost(none), "messages", messages);
        let hidden = if self.exported.is_some() {
            Some(owned("[REDACTED]"))
        } else {
            None
        };
        let exported = show_opt(&hidden);
        let ghost two = one.push(("exported"@, exported@));
        add_field(&mut out, Ghost(one), "exported", exported);
        assert(two =~= self.debug_fields());
        show_struct("DIDKeysExportState", &out, Ghost(two))
    }
}

impl ConfigProtection {
    /// What the diagnostic text says: of a passcode nothing.
    pub open spec fn debug_form(self) -> Seq<char> {
        match self {
            ConfigProtection::PlainText => "ConfigProtection::PlainText"@,
            ConfigProtection::Token(id) => "ConfigProtection::Token("@ + id@ + ")"@,
            ConfigProtection::Passcode(_) => "ConfigProtection::Passcode(****)"@,
        }
    }

    /// The diagnostic text.
    pub fn debug_text(&self) -> (r: String)
        ensures
            r@ == self.debug_form(),
    {
        match self {
            ConfigProtection::PlainText => owned("ConfigProtection::PlainText"),
            ConfigProtection::Token(id) => cat3("ConfigProtection::Token(", id.as_str(), ")"),
            ConfigProtection::Passcode(_) => owned("ConfigProtection::Passcode(****)"),
        }
    }
}

impl DetectedTokens {
    /// What the diagnostic text says: how many tokens there are, and the messages.
    pub open spec fn debug_form(self) -> Seq<char> {
        "DetectedTokens { tokens: "@ + decimal_view(self.tokens@.len()) + ", messages: "@
            + list_form(quoted_all(self.messages@)) + " }"@
    }

    /// The diagnostic text.
    pub fn debug_text(&self) -> (r: String)
        ensures
            r@ == self.debug_form(),
    {
        let count = decimal_usize(self.tokens.len());
        let messages = show_texts(&self.messages);
        cat5(
            "DetectedTokens { tokens: ",
            count.as_str(),
            ", messages: ",
            messages.as_str(),
            " }",
        )
    }
}

impl VtaSetupState {
    /// What is said of the setup key: its DID.
    pub open spec fn setup_key_note(self) -> Option<Seq<char>> {
        match self.setup_key {
            Some(k) => Some("<setup_key did="@ + k.did@ + ">"@),
            None => None,
        }
    }

    /// What is said of the account's credential: its DID.
    pub open spec fn admin_note(self) -> Option<Seq<char>> {
        match self.admin_credential {
            Some(a) => Some("<admin_did="@ + a.admin_did@ + ">"@),
            None => None,
        }
    }

    /// What the diagnostic text says: of tokens and keys only whether there are
    /// any, and of credentials their DIDs.
    pub open spec fn debug_fields(self) -> Seq<(Seq<char>, Seq<char>)> {
        seq![
            ("vta_url"@, quoted(self.vta_url@)),
            ("vta_did"@, quoted(self.vta_did@)),
            ("credential_did"@, quoted(self.credential_did@)),
            ("authenticated"@, bool_form(self.authenticated)),
            ("access_token"@, secret_form(self.access_token is Some)),
            ("messages"@, list_form(message_forms(self.messages@))),
            ("completed"@, completion_form(self.completed)),
            ("context_id"@, opt_form(opt_view(self.context_id))),
            ("update_secret"@, secret_form(self.update_secret is Some)),
            ("next_update_secret"@, secret_form(self.next_update_secret is Some)),
            ("webvh_servers"@, list_form(server_forms(self.webvh_servers@))),
            ("use_webvh_server"@, bool_form(self.use_webvh_server)),
            ("setup_key"@, opt_form(self.setup_key_note())),
            ("diagnostics"@, list_form(quoted_all(self.diagnostics@))),
            ("admin_credential"@, opt_form(self.admin_note())),
            ("protocol"@, protocol_form(self.protocol)),
            ("mediator_did"@, opt_form(opt_view(self.mediator_did))),
        ]
    }

    /// The diagnostic text.
    pub fn debug_text(&self) -> (r: String)
        ensures
            r@ == struct_form("VtaSetupState"@, self.debug_fields()),
    {
        let mut out: Vec<String> = Vec::new();
        let ghost all = self.debug_fields();
        assert(texts_view(out@) =~= field_forms(all.take(0)));
        self.show_access(&mut out);
        self.show_keys(&mut out);
        self.show_rest(&mut out);
        assert(all.take(17) =~= all);
        show_struct("VtaSetupState", &out, Ghost(all))
    }

    fn show_access(&self, out: &mut Vec<String>)
        requires
            texts_view(old(out)@) == field_forms(self.debug_fields().take(0)),
        ensures
            texts_view(final(out)@) == field_forms(self.debug_fields().take(6)),
    {
        let ghost all = self.debug_fields();
        add_field(out, Ghost(all.take(0)), "vta_url", quote(self.vta_url.as_str()));
        assert(all.take(1) =~= all.take(0).push(all[0]));
        add_field(out, Ghost(all.take(1)), "vta_did", quote(self.vta_did.as_str()));
        assert(all.take(2) =~= all.take(1).push(all[1]));
        add_field(out, Ghost(all.take(2)), "credential_did", quote(self.credential_did.as_str()));
        assert(all.take(3) =~= all.take(2).push(all[2]));
        add_field(out, Ghost(all.take(3)), "authenticated", show_bool(self.authenticated));
        assert(all.take(4) =~= all.take(3).push(all[3]));
        add_field(
            out,
            Ghost(all.take(4)),
            "access_token",
            show_secret(self.access_token.is_some()),
        );
        assert(all.take(5) =~= all.take(4).push(all[4]));
        add_field(out, Ghost(all.take(5)), "messages", show_messages(&self.messages));
        assert(all.take(6) =~= all.take(5).push(all[5]));
    }

    fn show_keys(&self, out: &mut Vec<String>)
        requires
            texts_view(old(out)@) == field_forms(self.debug_fields().take(6)),
        ensures
            texts_view(final(out)@) == field_forms(self.debug_fields().take(12)),
    {
        let ghost all = self.debug_fields();
        add_field(out, Ghost(all.take(6)), "completed", show_completion(self.completed));
        assert(all.take(7) =~= all.take(6).push(all[6]));
        add_field(out, Ghost(all.take(7)), "context_id", show_opt(&self.context_id));
        assert(all.take(8) =~= all.take(7).push(all[7]));
        add_field(
            out,
            Ghost(all.take(8)),
            "update_secret",
            show_secret(self.update_secret.is_some()),
        );
        assert(all.take(9) =~= all.take(8).push(all[8]));
        add_field(
            out,
            Ghost(all.take(9)),
            "next_update_secret",
            show_secret(self.next_update_secret.is_some()),
        );
        assert(all.take(10) =~= all.take(9).push(all[9]));
        add_field(out, Ghost(all.take(10)), "webvh_servers", show_servers(&self.webvh_servers));
        assert(all.take(11) =~= all.take(10).push(all[10]));
        add_field(out, Ghost(all.take(11)), "use_webvh_server", show_bool(self.use_webvh_server));
        assert(all.take(12) =~= all.take(11).push(all[11]));
    }

    fn show_rest(&self, out: &mut Vec<String>)
        requires
            texts_view(old(out)@) == field_forms(self.debug_fields().take(12)),
        ensures
            texts_view(final(out)@) == field_forms(self.debug_fields().take(17)),
    {
        let ghost all = self.debug_fields();
        let key_note = match &self.setup_key {
            Some(k) => Some(cat3("<setup_key did=", k.did.as_str(), ">")),
            None => None,
        };
        add_field(out, Ghost(all.take(12)), "setup_key", show_opt(&key_note));
        assert(all.take(13) =~= all.take(12).push(all[12]));
        add_field(out, Ghost(all.take(13)), "diagnostics", show_texts(&self.diagnostics));
        assert(all.take(14) =~= all.take(13).push(all[13]));
        let admin_note = match &self.admin_credential {
            Some(a) => Some(cat3("<admin_did=", a.admin_did.as_str(), ">")),
            None => None,
        };
        add_field(out, Ghost(all.take(14)), "admin_credential", show_opt(&admin_note));
        assert(all.take(15) =~= all.take(14).push(all[14]));
        add_field(out, Ghost(all.take(15)), "protocol", show_protocol(self.protocol));
        assert(all.take(16) =~= all.take(15).push(all[15]));
        add_field(out, Ghost(all.take(16)), "mediator_did", show_opt(&self.mediator_did));
        assert(all.take(17) =~= all.take(16).push(all[16]));
    }
}

/// Two states of the VTA pages that differ only in their secrets.
pub open spec fn same_but_secrets(a: VtaSetupState, b: VtaSetupState) -> bool {
    &&& a == (VtaSetupState {
        access_token: a.access_token,
        update_secret: a.update_secret,
        next_update_secret: a.next_update_secret,
        setup_key: a.setup_key,
        admin_credential: a.admin_credential,
        ..b
    })
    &&& a.access_token is Some <==> b.access_token is Some
    &&& a.update_secret is Some <==> b.update_secret is Some
    &&& a.next_update_secret is Some <==> b.next_update_secret is Some
    &&& a.setup_key_note() == b.setup_key_note()
    &&& a.admin_note() == b.admin_note()
}

/// No secret shows in a diagnostic text: states that differ in nothing but their
/// secrets read the same.
pub proof fn law_diagnostics_hide_secrets(
    a: VtaSetupState,
    b: VtaSetupState,
    keys_a: DIDKeysExportState,
    keys_b: DIDKeysExportState,
    pass_a: Vec<u8>,
    pass_b: Vec<u8>,
)
    ensures
        same_but_secrets(a, b) ==> struct_form("VtaSetupState"@, a.debug_fields()) == struct_form(
            "VtaSetupState"@,
            b.debug_fields(),
        ),
        keys_a.messages == keys_b.messages && (keys_a.exported is Some <==> keys_b.exported is Some)
            ==> struct_form("DIDKeysExportState"@, keys_a.debug_fields()) == struct_form(
            "DIDKeysExportState"@,
            keys_b.debug_fields(),
        ),
        ConfigProtection::Passcode(pass_a).debug_form() == ConfigProtection::Passcode(
            pass_b,
        ).debug_form(),
{
    if same_but_secrets(a, b) {
        assert(a.debug_fields() =~= b.debug_fields());
    }
    if keys_a.messages == keys_b.messages && (keys_a.exported is Some
        <==> keys_b.exported is Some) {
        assert(keys_a.debug_fields() =~= keys_b.debug_fields());
    }
}

} // verus!
