//! Configuring git signing with the persona's key, as a step of the wizard.

use crate::ledger::KeySource;
use crate::main_page::ErrorText;
use crate::setup::{
    complain, inform, messages_view, Completion, DidGitSignSetupState, MessageView, SetupPage,
    SetupState,
};
use crate::state::State;
use crate::text::{cat3, copy_opt, decimal_usize, decimal_view, owned};
use crate::vta::copy_bytes;
use vstd::prelude::*;

verus! {

/// What an install of git signing is given.
#[derive(Clone)]
pub struct InstallArgs {
    /// For every repository of the user.
    pub global: bool,
    pub did_key_id: String,
    pub vta_key_id: String,
    pub credential_did: String,
    pub credential_private_key_mb: String,
    pub vta_did: String,
    pub vta_url: String,
    pub mediator_did: Option<String>,
    pub user_name: Option<String>,
    /// The Ed25519 key that verifies signatures.
    pub verifying_key: Vec<u8>,
}

/// What an install of git signing came to.
#[derive(Clone, Debug)]
pub struct InstallResult {
    pub config_path: String,
    pub ssh_public_key: String,
    pub overridden_global_signing_key: Option<String>,
}

/// How many bytes an Ed25519 key has.
pub const VERIFYING_KEY_LEN: usize = 32;

/// How a source of keys is named.
pub open spec fn source_name(s: KeySource) -> Seq<char> {
    match s {
        KeySource::Derived { .. } => "Derived"@,
        KeySource::VtaManaged { .. } => "VtaManaged"@,
        KeySource::Imported { .. } => "Imported"@,
    }
}

/// Why git signing cannot be configured from what was set up; `None` where it
/// can.
pub open spec fn install_refusal(setup: SetupState) -> Option<Seq<char>> {
    if setup.did_keys is None {
        Some("persona keys are not yet provisioned"@)
    } else if setup.vta.admin_credential is None {
        Some("VTA admin credential is missing"@)
    } else {
        let signing = setup.did_keys->0.signing;
        if signing.secret.id@.len() == 0 {
            Some("persona signing key has no DID URL set"@)
        } else if signing.source !is VtaManaged {
            Some(
                "persona signing key is not VTA-managed (source="@ + source_name(signing.source)
                    + "); did-git-sign auto-setup only supports VTA-managed keys"@,
            )
        } else if signing.secret.public_bytes@.len() != VERIFYING_KEY_LEN {
            Some(
                "persona signing key public bytes are "@ + decimal_view(
                    signing.secret.public_bytes@.len(),
                ) + " bytes, expected 32 (Ed25519)"@,
            )
        } else if setup.vta.vta_did@.len() == 0 {
            Some("VTA DID not populated in setup state"@)
        } else if setup.vta.vta_url@.len() == 0 && setup.vta.mediator_did is None {
            Some(
                "VTA exposes neither a REST URL nor a DIDComm mediator — did-git-sign cannot reach the VTA"@,
            )
        } else {
            None
        }
    }
}

/// What an install is given, from what was set up.
pub open spec fn is_install_args(a: InstallArgs, setup: SetupState) -> bool {
    let signing = setup.did_keys->0.signing;
    let admin = setup.vta.admin_credential->0;
    &&& a.global
    &&& a.did_key_id == signing.secret.id
    &&& signing.source matches KeySource::VtaManaged { key_id } && a.vta_key_id == key_id
    &&& a.credential_did == admin.admin_did
    &&& a.credential_private_key_mb == admin.admin_private_key_mb
    &&& a.vta_did == setup.vta.vta_did
    &&& a.vta_url == setup.vta.vta_url
    &&& a.mediator_did == setup.vta.mediator_did
    &&& a.user_name == (if setup.username@.len() == 0 {
        None
    } else {
        Some(setup.username)
    })
    &&& a.verifying_key@ == signing.secret.public_bytes@
    &&& a.verifying_key@.len() == VERIFYING_KEY_LEN
}

/// Gathers what an install is given.
pub fn install_args(setup: &SetupState) -> (r: Result<InstallArgs, ErrorText>)
    ensures
        match install_refusal(*setup) {
            Some(why) => r matches Err(e) && e.says(why),
            None => r matches Ok(a) && is_install_args(a, *setup),
        },
{
    let keys = match &setup.did_keys {
        Some(k) => k,
        None => {
            return Err(ErrorText::plain(owned("persona keys are not yet provisioned")));
        },
    };
    let admin = match &setup.vta.admin_credential {
        Some(a) => a,
        None => {
            return Err(ErrorText::plain(owned("VTA admin credential is missing")));
        },
    };
    let did_key_id = keys.signing.secret.id.clone();
    if did_key_id.as_str().is_empty() {
        return Err(ErrorText::plain(owned("persona signing key has no DID URL set")));
    }
    let vta_key_id = match &keys.signing.source {
        KeySource::VtaManaged { key_id } => key_id.clone(),
        KeySource::Derived { .. } => {
            return Err(
                ErrorText::plain(
                    cat3(
                        "persona signing key is not VTA-managed (source=",
                        "Derived",
                        "); did-git-sign auto-setup only supports VTA-managed keys",
                    ),
                ),
            );
        },
        KeySource::Imported { .. } => {
            return Err(
                ErrorText::plain(
                    cat3(
                        "persona signing key is not VTA-managed (source=",
                        "Imported",
                        "); did-git-sign auto-setup only supports VTA-managed keys",
                    ),
                ),
            );
        },
    };
    let n: usize = keys.signing.secret.public_bytes.len();
    if n != VERIFYING_KEY_LEN {
        let count = decimal_usize(n);
        return Err(
            ErrorText::plain(
                cat3(
                    "persona signing key public bytes are ",
                    count.as_str(),
                    " bytes, expected 32 (Ed25519)",
                ),
            ),
        );
    }
    if setup.vta.vta_did.as_str().is_empty() {
        return Err(ErrorText::plain(owned("VTA DID not populated in setup state")));
    }
    if setup.vta.vta_url.as_str().is_empty() && setup.vta.mediator_did.is_none() {
        return Err(
            ErrorText::plain(
                owned(
                    "VTA exposes neither a REST URL nor a DIDComm mediator — did-git-sign cannot reach the VTA",
                ),
            ),
        );
    }
    let user_name = if setup.username.as_str().is_empty() {
        None
    } else {
        Some(setup.username.clone())
    };
    Ok(
        InstallArgs {
            global: true,
            did_key_id,
            vta_key_id,
            credential_did: admin.admin_did.clone(),
            credential_private_key_mb: admin.admin_private_key_mb.clone(),
            vta_did: setup.vta.vta_did.clone(),
            vta_url: setup.vta.vta_url.clone(),
            mediator_did: copy_opt(&setup.vta.mediator_did),
            user_name,
            verifying_key: copy_bytes(&keys.signing.secret.public_bytes),
        },
    )
}

/// `new` is `old` on the page of the install, with nothing else changed but what
/// that page shows.
pub open spec fn on_install_page(old: State, new: State) -> bool {
    new == (State {
        setup: SetupState {
            active_page: SetupPage::DidGitSignSetup,
            did_git_sign: new.setup.did_git_sign,
            ..old.setup
        },
        ..old
    })
}

/// What the page of the install shows after it began.
pub open spec fn install_begun(
    old: State,
    new: State,
    args: Option<InstallArgs>,
) -> bool {
    let page = new.setup.did_git_sign;
    let start = MessageView::Info("Configuring did-git-sign…"@);
    &&& on_install_page(old, new)
    &&& page.config_path is None
    &&& page.ssh_public_key is None
    &&& page.overridden_global_signing_key is None
    &&& match install_refusal(old.setup) {
        None => {
            &&& args matches Some(a) && is_install_args(a, old.setup)
            &&& page.completed is NotFinished
            &&& messages_view(page.messages@) == seq![start]
        },
        Some(why) => {
            &&& args is None
            &&& page.completed is CompletedFail
            &&& messages_view(page.messages@) == seq![start, MessageView::Error(why)]
        },
    }
}

/// Begins to configure git signing: opens the page, and tells what the install
/// is to be given. What was set up may not be enough for one; the page says why,
/// and the wizard goes on.
pub fn handle_did_git_sign_install(state: &mut State) -> (r: Option<InstallArgs>)
    ensures
        install_begun(*old(state), *final(state), r),
{
    state.setup.active_page = SetupPage::DidGitSignSetup;
    state.setup.did_git_sign = DidGitSignSetupState::default();
    inform(&mut state.setup.did_git_sign.messages, owned("Configuring did-git-sign…"));
    let ghost start = MessageView::Info("Configuring did-git-sign…"@);
    assert(messages_view(state.setup.did_git_sign.messages@) =~= seq![start]);
    match install_args(&state.setup) {
        Ok(args) => {
            proof {
                assert(install_refusal(state.setup) == install_refusal(old(state).setup));
            }
            Some(args)
        },
        Err(e) => {
            let ghost why = e.display@;
            complain(&mut state.setup.did_git_sign.messages, e.display);
            assert(messages_view(state.setup.did_git_sign.messages@) =~= seq![
                start,
                MessageView::Error(why),
            ]);
            state.setup.did_git_sign.completed = Completion::CompletedFail;
            None
        },
    }
}

/// What the page of the install shows after it ended.
pub open spec fn install_ended(old: State, new: State, result: Result<InstallResult, String>) -> bool {
    let was = old.setup.did_git_sign;
    let page = new.setup.did_git_sign;
    &&& new == (State { setup: SetupState { did_git_sign: page, ..old.setup }, ..old })
    &&& match result {
        Ok(done) => {
            &&& page.completed is CompletedOK
            &&& page.config_path == Some(done.config_path)
            &&& page.ssh_public_key == Some(done.ssh_public_key)
            &&& page.overridden_global_signing_key == done.overridden_global_signing_key
            &&& messages_view(page.messages@) == messages_view(was.messages@) + seq![
                MessageView::Info("Git config + allowed_signers updated."@),
                MessageView::Info("VTA credentials stored in OS keyring."@),
                MessageView::Info("Done."@),
            ]
        },
        Err(e) => {
            &&& page == (DidGitSignSetupState {
                completed: Completion::CompletedFail,
                messages: page.messages,
                ..was
            })
            &&& messages_view(page.messages@) == messages_view(was.messages@).push(
                MessageView::Error(e@),
            )
        },
    }
}

/// Shows what an install came to.
pub fn did_git_sign_installed(state: &mut State, result: Result<InstallResult, String>)
    ensures
        install_ended(*old(state), *final(state), result),
{
    match result {
        Ok(done) => {
            state.setup.did_git_sign.config_path = Some(done.config_path);
            state.setup.did_git_sign.ssh_public_key = Some(done.ssh_public_key);
            state.setup.did_git_sign.overridden_global_signing_key =
            done.overridden_global_signing_key;
            inform(
                &mut state.setup.did_git_sign.messages,
                owned("Git config + allowed_signers updated."),
            );
            inform(
                &mut state.setup.did_git_sign.messages,
                owned("VTA credentials stored in OS keyring."),
            );
            inform(&mut state.setup.did_git_sign.messages, owned("Done."));
            state.setup.did_git_sign.completed = Completion::CompletedOK;
            assert(messages_view(state.setup.did_git_sign.messages@) =~= messages_view(
                old(state).setup.did_git_sign.messages@,
            ) + seq![
                MessageView::Info("Git config + allowed_signers updated."@),
                MessageView::Info("VTA credentials stored in OS keyring."@),
                MessageView::Info("Done."@),
            ]);
        },
        Err(e) => {
            complain(&mut state.setup.did_git_sign.messages, e);
            state.setup.did_git_sign.completed = Completion::CompletedFail;
        },
    }
}

/// Git signing is never configured with a key that the VTA does not hold, nor
/// with one of another length, nor for a VTA that cannot be reached.
pub proof fn law_install_is_sound(old: State, new: State, args: InstallArgs)
    requires
        install_begun(old, new, Some(args)),
    ensures
        old.setup.did_keys->0.signing.source is VtaManaged,
        args.verifying_key@.len() == VERIFYING_KEY_LEN,
        args.vta_url@.len() > 0 || args.mediator_did is Some,
{
}

/// Git is set up to sign with the persona's own signing key, as the account's VTA
/// holds it, under the account's own credential.
pub proof fn law_git_signs_with_the_personas_key(
    setup: SetupState,
    r: Result<InstallArgs, ErrorText>,
)
    requires
        call_ensures(install_args, (&setup,), r),
    ensures
        setup.did_keys is None || setup.vta.admin_credential is None ==> r is Err,
        r matches Ok(a) ==> {
            let signing = setup.did_keys->0.signing;
            &&& a.did_key_id@ == signing.secret.id@
            &&& a.did_key_id@.len() > 0
            &&& signing.source == (KeySource::VtaManaged { key_id: a.vta_key_id })
            &&& a.verifying_key@ == signing.secret.public_bytes@
            &&& a.credential_did == setup.vta.admin_credential->0.admin_did
            &&& a.credential_private_key_mb == setup.vta.admin_credential->0.admin_private_key_mb
            &&& a.vta_did == setup.vta.vta_did
            &&& a.vta_did@.len() > 0
            &&& a.vta_url == setup.vta.vta_url
            &&& a.mediator_did == setup.vta.mediator_did
            &&& a.user_name is Some ==> a.user_name->0 == setup.username
            &&& a.user_name is None <==> setup.username@.len() == 0
            &&& a.global
        },
{
}

/// The page of the install shows what was installed, and shows it as done exactly
/// if it was.
pub proof fn law_install_shows_its_result(
    state: &mut State,
    result: Result<InstallResult, String>,
)
    requires
        call_ensures(did_git_sign_installed, (state, result), ()),
    ensures
        final(state).setup.did_git_sign.completed is CompletedOK <==> result is Ok,
        final(state).setup.did_git_sign.completed is CompletedFail <==> result is Err,
        result matches Ok(done) ==> {
            let page = final(state).setup.did_git_sign;
            &&& page.config_path == Some(done.config_path)
            &&& page.ssh_public_key == Some(done.ssh_public_key)
            &&& page.overridden_global_signing_key == done.overridden_global_signing_key
        },
        final(state).setup.did_keys == old(state).setup.did_keys,
{
}

} // verus!
