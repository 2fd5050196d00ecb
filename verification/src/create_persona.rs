//! Making a persona of its own, without joining a community.

use crate::clock::clock_read;
use crate::config::Config;
use crate::join_flow::{account_mediator, no_server_view, vta_mediator};
use crate::ledger::PersonaId;
use crate::main_page::ErrorText;
use crate::setup::{SetupState, WebvhPathMode, WebvhServer};
use crate::setup_config::{mint_persona_into, persona_minted_some_time, Defaults};
use crate::text::{cat3, opt_view, owned};
use crate::vta::{did_request, DidRequest, HostedDid};
use vstd::prelude::*;

verus! {

/// What is asked for next, and the line that says so.
#[derive(Clone, Debug)]
pub struct MintStep {
    pub progress: String,
    pub request: MintRequest,
}

/// What is asked for to make a persona.
#[derive(Clone, Debug)]
pub enum MintRequest {
    ListServers,
    CreateDid(DidRequest),
}

/// Begins to make a persona: there must be a context to make it in.
pub fn begin_standalone_persona(config: &Config) -> (r: Result<MintStep, ErrorText>)
    ensures
        if config.account.top_context_id@.len() == 0 {
            r matches Err(e) && e.says(
                "No account context yet — finish setup before creating a persona."@,
            )
        } else {
            r matches Ok(s) && s.progress@ == "Finding a DID hosting server…"@
                && s.request is ListServers
        },
{
    if config.account.top_context_id.as_str().is_empty() {
        return Err(
            ErrorText::plain(
                owned("No account context yet — finish setup before creating a persona."),
            ),
        );
    }
    Ok(
        MintStep {
            progress: owned("Finding a DID hosting server…"),
            request: MintRequest::ListServers,
        },
    )
}

/// Asks for a DID in the account's context, wherever this server puts it.
pub open spec fn asks_did(s: MintStep, config: Config, server_id: Seq<char>) -> bool {
    &&& s.progress@ == "Creating persona DID via "@ + server_id + "…"@
    &&& s.request matches MintRequest::CreateDid(d)
    &&& d.context_id@ == config.account.top_context_id@
    &&& d.server_id@ == server_id
    &&& d.path_mode is AutoAssign
    &&& d.portable
    &&& d.add_mediator_service
    &&& d.pre_rotation_count == 1
    &&& !d.set_primary
}

/// Goes on with the servers at hand: the first one hosts the DID.
pub fn choose_server(config: &Config, servers: Result<Vec<WebvhServer>, String>) -> (r: Result<
    MintStep,
    ErrorText,
>)
    ensures
        match servers {
            Err(e) => r matches Err(t) && t.says(e@),
            Ok(list) => if list@.len() == 0 {
                r matches Err(t) && t.says(no_server_view())
            } else {
                r matches Ok(s) && asks_did(s, *config, list@[0].id@)
            },
        },
{
    let list = match servers {
        Ok(list) => list,
        Err(e) => {
            return Err(ErrorText::plain(e));
        },
    };
    if list.len() == 0 {
        return Err(
            ErrorText::plain(
                owned(
                    "No WebVH server available from the VTA (serverless mint not yet supported).",
                ),
            ),
        );
    }
    let id = list[0].id.as_str();
    Ok(
        MintStep {
            progress: cat3("Creating persona DID via ", id, "…"),
            request: MintRequest::CreateDid(
                did_request(config.account.top_context_id.as_str(), id, WebvhPathMode::AutoAssign),
            ),
        },
    )
}

/// What a persona is made of: this DID, with the mediator of the account's VTA,
/// under this name; nothing else is set up.
pub open spec fn is_standalone_setup(
    setup: SetupState,
    config: Config,
    hosted: HostedDid,
    label: String,
) -> bool {
    &&& setup.did_keys == Some(hosted.keys)
    &&& setup.custom_mediator == vta_mediator(config.key_backend)
    &&& setup.username == label
    &&& setup.webvh_address.did == hosted.did
    &&& setup.webvh_address.document == hosted.document
}

/// `new` is `old` with a persona made of this DID under this name.
pub open spec fn standalone_minted(
    old: Config,
    new: Config,
    hosted: HostedDid,
    label: String,
    defaults: Defaults,
    id: PersonaId,
) -> bool {
    exists|setup: SetupState| #[trigger]
        is_standalone_setup(setup, old, hosted, label) && persona_minted_some_time(
            old,
            new,
            setup,
            defaults,
            id,
        )
}

/// The line that says that the persona is being saved.
pub fn saving_progress() -> (r: String)
    ensures
        r@ == "Saving persona…"@,
{
    owned("Saving persona…")
}

/// Makes a persona of its DID; the configuration is then to be saved.
pub fn mint_standalone_persona(
    config: &mut Config,
    hosted: HostedDid,
    label: String,
    defaults: &Defaults,
) -> (r: Result<(PersonaId, String), ErrorText>)
    ensures
        r matches Ok(made) && made.1 == hosted.did && standalone_minted(
            *old(config),
            *final(config),
            hosted,
            label,
            *defaults,
            made.0,
        ),
{
    let mut setup = SetupState::default();
    let did = hosted.did.clone();
    setup.did_keys = Some(hosted.keys);
    setup.custom_mediator = account_mediator(config);
    setup.username = label;
    setup.webvh_address.did = hosted.did;
    setup.webvh_address.document = hosted.document;
    assert(is_standalone_setup(setup, *old(config), hosted, label));
    match mint_persona_into(config, &setup, defaults) {
        Ok(id) => Ok((id, did)),
        Err(e) => Err(e),
    }
}

/// A persona of its own is made only in an account that was set up, and only
/// after the servers are known.
pub proof fn law_no_persona_without_a_context(config: Config, r: Result<MintStep, ErrorText>)
    requires
        call_ensures(begin_standalone_persona, (&config,), r),
    ensures
        r is Ok <==> config.account.top_context_id@.len() > 0,
        r is Ok ==> r->Ok_0.request is ListServers,
{
}

/// The DID of a new persona is asked for in the account's own context, from the
/// first of the servers at hand; without a server none is asked for.
pub proof fn law_persona_is_hosted_by_the_first_server(
    config: Config,
    servers: Result<Vec<WebvhServer>, String>,
    r: Result<MintStep, ErrorText>,
)
    requires
        call_ensures(choose_server, (&config, servers), r),
    ensures
        r is Ok <==> servers is Ok && servers->Ok_0@.len() > 0,
        r is Ok ==> (r->Ok_0.request matches MintRequest::CreateDid(d) && d.context_id@
            == config.account.top_context_id@ && d.server_id@ == servers->Ok_0@[0].id@
            && d.path_mode is AutoAssign),
{
}

/// A persona of its own has the DID and the document that were hosted for it, the
/// name it was given and the mediator of the account's VTA; the communities stay
/// as they were.
pub proof fn law_standalone_persona_is_the_hosted_one(
    config: &mut Config,
    hosted: HostedDid,
    label: String,
    defaults: Defaults,
    r: Result<(PersonaId, String), ErrorText>,
)
    requires
        call_ensures(mint_standalone_persona, (config, hosted, label, &defaults), r),
    ensures
        r is Ok,
        ({
            let p = final(config).account.personas@.last();
            &&& final(config).account.personas@.len() > 0
            &&& p.persona_id == (r->Ok_0).0
            &&& (r->Ok_0).1 == hosted.did
            &&& p.did@ == hosted.did@
            &&& opt_view(p.did_document) == Some(hosted.document@)
            &&& opt_view(p.label) == Some(label@)
            &&& vta_mediator(old(config).key_backend) is Some ==> opt_view(p.mediator_did)
                == opt_view(vta_mediator(old(config).key_backend))
            &&& vta_mediator(old(config).key_backend) is None ==> opt_view(p.mediator_did) == Some(
                defaults.mediator_did@,
            )
            &&& clock_read(p.created_at)
            &&& final(config).owns_did(hosted.did@)
            &&& final(config).account.communities == old(config).account.communities
            &&& final(config).private == old(config).private
        }),
{
    let made = r->Ok_0;
    let setup = choose|setup: SetupState| #[trigger]
        is_standalone_setup(setup, *old(config), hosted, label) && persona_minted_some_time(
            *old(config),
            *final(config),
            setup,
            defaults,
            made.0,
        );
    let now = choose|now: i64|
        clock_read(now) && #[trigger] crate::setup_config::persona_minted(
            *old(config),
            *final(config),
            setup,
            defaults,
            made.0,
            now,
        );
    let is = final(config).identities@;
    assert(is[is.len() - 1].did@ == hosted.did@);
}

} // verus!
