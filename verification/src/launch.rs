//! Decisions made when the program starts and ends.

use crate::config::{mediator_set, Config, KeyBackend, ProtectionType, PublicConfig};
use crate::text::{
    ascii_alnum, cat2, cat5, chars_of, decimal_usize, decimal_view, has, is_ascii_alnum, occurs,
    owned, replace, replaced_from, same,
};
use vstd::prelude::*;

verus! {

/// Why the program ends.
#[derive(Clone, Debug)]
pub enum Interrupted {
    OsSigInt,
    UserInt,
    SystemError(String),
}

/// What an interruption says.
pub enum InterruptedView {
    OsSigInt,
    UserInt,
    SystemError(Seq<char>),
}

impl View for Interrupted {
    type V = InterruptedView;

    open spec fn view(&self) -> InterruptedView {
        match *self {
            Interrupted::OsSigInt => InterruptedView::OsSigInt,
            Interrupted::UserInt => InterruptedView::UserInt,
            Interrupted::SystemError(s) => InterruptedView::SystemError(s@),
        }
    }
}

/// What is needed to load the configuration once the screen is up.
#[derive(Clone)]
pub struct DeferredLoad {
    pub profile: String,
    pub public_config: PublicConfig,
    /// Key derived from the passphrase.
    pub unlock_passphrase: Option<Vec<u8>>,
    pub user_pin: String,
}

/// How the program starts.
#[derive(Clone)]
pub enum StartingMode {
    NotSet,
    MainPage(Config),
    MainPageDeferred(DeferredLoad),
    SetupWizard,
}

// ---------------------------------------------------------------------------
// Messages
// ---------------------------------------------------------------------------

/// A message with the home directory taken out of it.
pub open spec fn redacted(msg: Seq<char>, home: Seq<char>) -> Seq<char> {
    if home.len() == 0 {
        msg
    } else {
        replaced_from(msg, home, "~"@, 0)
    }
}

/// Takes the home directory out of a message.
pub fn redact_paths(msg: &str, home: &str) -> (r: String)
    ensures
        r@ == redacted(msg@, home@),
{
    if !home.is_empty() {
        replace(msg, home, "~")
    } else {
        owned(msg)
    }
}

/// The last words of the program.
pub open spec fn farewell(why: Option<InterruptedView>, home: Seq<char>) -> Seq<char> {
    match why {
        Some(InterruptedView::UserInt) => "exited per user request"@,
        Some(InterruptedView::OsSigInt) => "exited because of an os sig int"@,
        Some(InterruptedView::SystemError(reason)) => "exited because of a system error: "@
            + redacted(reason, home),
        None => "exited because of an unexpected error"@,
    }
}

/// The last words of the program.
pub fn exit_message(why: &Option<Interrupted>, home: &str) -> (r: String)
    ensures
        r@ == farewell(
            match *why {
                Some(w) => Some(w@),
                None => None,
            },
            home@,
        ),
{
    match why {
        Some(Interrupted::UserInt) => owned("exited per user request"),
        Some(Interrupted::OsSigInt) => owned("exited because of an os sig int"),
        Some(Interrupted::SystemError(reason)) => {
            let clean = redact_paths(reason.as_str(), home);
            cat2("exited because of a system error: ", clean.as_str())
        },
        None => owned("exited because of an unexpected error"),
    }
}

// ---------------------------------------------------------------------------
// The profile
// ---------------------------------------------------------------------------

/// Where the profile was taken from.
#[derive(Clone, Copy, Debug, PartialEq, Eq, Structural)]
pub enum ProfileSource {
    /// From the command line.
    CommandLine,
    /// From the command line, though the environment names another one.
    CommandLineOverEnvironment,
    /// From the environment.
    Environment,
}

/// Which profile is used: the command line's, where it names one other than the
/// default and the environment disagrees; otherwise the environment's, where it
/// names one.
pub open spec fn profile_source(cli: Seq<char>, env: Option<Seq<char>>) -> ProfileSource {
    match env {
        Some(e) => if cli != "default"@ && cli != e {
            ProfileSource::CommandLineOverEnvironment
        } else {
            ProfileSource::Environment
        },
        None => ProfileSource::CommandLine,
    }
}

/// Picks the profile.
pub fn resolve_profile(cli_profile: String, env_profile: Option<String>) -> (r: (
    String,
    ProfileSource,
))
    ensures
        r.1 == profile_source(cli_profile@, crate::text::opt_view(env_profile)),
        r.0 == (if r.1 is Environment {
            env_profile->0
        } else {
            cli_profile
        }),
{
    match env_profile {
        Some(env_profile) => {
            if !same(cli_profile.as_str(), "default") && !same(
                cli_profile.as_str(),
                env_profile.as_str(),
            ) {
                (cli_profile, ProfileSource::CommandLineOverEnvironment)
            } else {
                (env_profile, ProfileSource::Environment)
            }
        },
        None => (cli_profile, ProfileSource::CommandLine),
    }
}

/// A character that a profile's name may hold.
pub open spec fn is_profile_char(c: char) -> bool {
    is_ascii_alnum(c) || c == '-' || c == '_' || c == '.'
}

/// A name that a profile may have.
pub open spec fn is_profile_name(s: Seq<char>) -> bool {
    &&& s.len() > 0
    &&& forall|i: int| 0 <= i < s.len() ==> is_profile_char(#[trigger] s[i])
    &&& !occurs(s, ".."@)
}

/// Whether a profile may have this name.
pub fn valid_profile(profile: &str) -> (r: bool)
    ensures
        r == is_profile_name(profile@),
{
    let v = chars_of(profile);
    if v.len() == 0 || has(profile, "..") {
        return false;
    }
    let mut i: usize = 0;
    while i < v.len()
        invariant
            v@ == profile@,
            i <= v.len(),
            forall|j: int| 0 <= j < i ==> is_profile_char(#[trigger] v@[j]),
        decreases v.len() - i,
    {
        let c = v[i];
        if !(ascii_alnum(c) || c == '-' || c == '_' || c == '.') {
            assert(!is_profile_char(profile@[i as int]));
            return false;
        }
        i = i + 1;
    }
    true
}

/// A profile's name is one component of a path: it leads into no other
/// directory.
pub proof fn law_profile_name_is_one_component(s: Seq<char>, i: int)
    requires
        is_profile_name(s),
        0 <= i < s.len(),
    ensures
        s[i] != '/',
        s[i] != '\\',
        s[i] != '\0',
        !occurs(s, ".."@),
{
    assert(is_profile_char(s[i]));
}

// ---------------------------------------------------------------------------
// What to start
// ---------------------------------------------------------------------------

/// What reading the configuration came to.
#[derive(Clone, Debug)]
pub enum LoadResult {
    Loaded,
    /// There is none.
    NotFound,
    /// It has a format of another version.
    VersionUnsupported { found: u32, expected: u32 },
    Failed(String),
}

/// What to do next.
#[derive(Clone, Debug)]
pub enum StartDecision {
    /// Show the main page and go on loading.
    MainPage,
    SetupWizard,
    /// Ask whether to delete the configuration, after this warning.
    AskReset { warning: String },
    /// Give up with this message.
    Abort { message: String },
}

/// What a decision says.
pub enum StartView {
    MainPage,
    SetupWizard,
    AskReset(Seq<char>),
    Abort(Seq<char>),
}

impl View for StartDecision {
    type V = StartView;

    open spec fn view(&self) -> StartView {
        match *self {
            StartDecision::MainPage => StartView::MainPage,
            StartDecision::SetupWizard => StartView::SetupWizard,
            StartDecision::AskReset { warning } => StartView::AskReset(warning@),
            StartDecision::Abort { message } => StartView::Abort(message@),
        }
    }
}

/// The warning about a configuration of another version.
pub open spec fn reset_warning(found: nat, expected: nat) -> Seq<char> {
    "Your existing configuration (format v"@ + decimal_view(found)
        + ") is incompatible with this version of OpenVTC (format v"@ + decimal_view(expected)
        + ") and cannot be upgraded automatically."@
}

/// What to do after the configuration was read, or was not because setup was
/// asked for.
pub open spec fn start_view(setup_requested: bool, load: LoadResult, home: Seq<char>) -> StartView {
    if setup_requested {
        StartView::SetupWizard
    } else {
        match load {
            LoadResult::Loaded => StartView::MainPage,
            LoadResult::NotFound => StartView::SetupWizard,
            LoadResult::VersionUnsupported { found, expected } => StartView::AskReset(
                reset_warning(found as nat, expected as nat),
            ),
            LoadResult::Failed(e) => StartView::Abort(redacted(e@, home)),
        }
    }
}

/// Decides how to start.
pub fn decide_start(setup_requested: bool, load: &LoadResult, home: &str) -> (r: StartDecision)
    ensures
        r@ == start_view(setup_requested, *load, home@),
{
    if setup_requested {
        return StartDecision::SetupWizard;
    }
    match load {
        LoadResult::Loaded => StartDecision::MainPage,
        LoadResult::NotFound => StartDecision::SetupWizard,
        LoadResult::VersionUnsupported { found, expected } => {
            let f = crate::text::decimal(*found as u64);
            let e = crate::text::decimal(*expected as u64);
            StartDecision::AskReset {
                warning: cat5(
                    "Your existing configuration (format v",
                    f.as_str(),
                    ") is incompatible with this version of OpenVTC (format v",
                    e.as_str(),
                    ") and cannot be upgraded automatically.",
                ),
            }
        },
        LoadResult::Failed(e) => StartDecision::Abort { message: redact_paths(e.as_str(), home) },
    }
}

/// What to do after the question whether to delete the configuration: it is
/// deleted only after a yes.
pub fn decide_reset(confirmed: bool) -> (r: StartDecision)
    ensures
        r@ == (if confirmed {
            StartView::SetupWizard
        } else {
            StartView::Abort("Incompatible configuration; reset declined by user"@)
        }),
{
    if confirmed {
        StartDecision::SetupWizard
    } else {
        StartDecision::Abort { message: owned("Incompatible configuration; reset declined by user") }
    }
}

// ---------------------------------------------------------------------------
// Unlocking
// ---------------------------------------------------------------------------

/// How often a passphrase may be entered.
pub const MAX_UNLOCK_ATTEMPTS: usize = 5;

/// The PIN of a token that was never given another one.
pub fn pin_or_default(pin: String) -> (r: String)
    ensures
        r@ == (if pin@.len() == 0 {
            "123456"@
        } else {
            pin@
        }),
{
    if pin.as_str().is_empty() {
        owned("123456")
    } else {
        pin
    }
}

/// How the passphrase is obtained.
#[derive(Clone, Debug)]
pub enum UnlockPlan {
    /// None is needed; with a token its PIN is asked for.
    NotNeeded { ask_pin: bool },
    /// It was given on the command line, which calls for a warning.
    Given(String),
    /// It is asked for.
    Ask,
}

/// How the passphrase is obtained.
pub fn unlock_plan(protection: &ProtectionType, unlock_code: &Option<String>) -> (r: UnlockPlan)
    ensures
        match *protection {
            ProtectionType::Token(_) => r == (UnlockPlan::NotNeeded { ask_pin: true }),
            ProtectionType::Plaintext => r == (UnlockPlan::NotNeeded { ask_pin: false }),
            ProtectionType::Encrypted => match *unlock_code {
                Some(code) => r == UnlockPlan::Given(code),
                None => r == UnlockPlan::Ask,
            },
        },
{
    match protection {
        ProtectionType::Token(_) => UnlockPlan::NotNeeded { ask_pin: true },
        ProtectionType::Plaintext => UnlockPlan::NotNeeded { ask_pin: false },
        ProtectionType::Encrypted => match unlock_code {
            Some(code) => UnlockPlan::Given(code.clone()),
            None => UnlockPlan::Ask,
        },
    }
}

/// How many seconds to wait before an attempt: none before the first three, and
/// then twice as long each time, up to eight.
pub open spec fn unlock_wait(attempt: nat) -> nat {
    if attempt <= 3 {
        0
    } else if attempt == 4 {
        2
    } else if attempt == 5 {
        4
    } else {
        8
    }
}

/// How many seconds to wait before an attempt.
pub fn unlock_delay(attempt: usize) -> (r: u64)
    ensures
        r == unlock_wait(attempt as nat),
{
    if attempt <= 3 {
        0
    } else if attempt == 4 {
        2
    } else if attempt == 5 {
        4
    } else {
        8
    }
}

/// What a failed attempt comes to.
#[derive(Clone, Debug)]
pub enum UnlockVerdict {
    /// No more attempts.
    Abort,
    /// Another attempt, after this warning.
    Retry { warning: String },
}

/// The warning after a failed attempt.
pub open spec fn attempts_left_view(remaining: nat) -> Seq<char> {
    "WARNING: Failed unlock attempt. "@ + decimal_view(remaining) + " attempt"@ + (if remaining
        == 1 {
        ""@
    } else {
        "s"@
    }) + " remaining."@
}

/// What a failed attempt comes to.
pub fn after_failed_attempt(attempt: usize) -> (r: UnlockVerdict)
    requires
        1 <= attempt <= MAX_UNLOCK_ATTEMPTS,
    ensures
        attempt == MAX_UNLOCK_ATTEMPTS <==> r is Abort,
        r matches UnlockVerdict::Retry { warning } ==> warning@ == attempts_left_view(
            (MAX_UNLOCK_ATTEMPTS - attempt) as nat,
        ),
{
    let remaining: usize = MAX_UNLOCK_ATTEMPTS - attempt;
    if remaining == 0 {
        return UnlockVerdict::Abort;
    }
    let n = decimal_usize(remaining);
    let plural = if remaining == 1 {
        ""
    } else {
        "s"
    };
    UnlockVerdict::Retry {
        warning: cat5(
            "WARNING: Failed unlock attempt. ",
            n.as_str(),
            " attempt",
            plural,
            " remaining.",
        ),
    }
}

// ---------------------------------------------------------------------------
// The environment
// ---------------------------------------------------------------------------

/// Settings that the environment may override.
#[derive(Clone, Debug)]
pub struct EnvOverrides {
    pub mediator_did: Option<String>,
    pub vta_url: Option<String>,
    pub vta_did: Option<String>,
    pub friendly_name: Option<String>,
}

/// The key backend with the VTA's address overridden, where there is a VTA.
pub open spec fn backend_overridden(b: KeyBackend, env: EnvOverrides) -> KeyBackend {
    match b {
        KeyBackend::Vta {
            credential_bundle,
            credential_did,
            credential_private_key,
            vta_did,
            vta_url,
            mediator_did,
            encryption_seed,
        } => KeyBackend::Vta {
            credential_bundle,
            credential_did,
            credential_private_key,
            vta_did: match env.vta_did {
                Some(v) => v,
                None => vta_did,
            },
            vta_url: match env.vta_url {
                Some(v) => v,
                None => vta_url,
            },
            mediator_did,
            encryption_seed,
        },
        b => b,
    }
}

/// Overrides settings by the environment: the mediator of the active persona,
/// the address of the VTA where there is one, and the friendly name.
pub fn apply_env_overrides(config: &mut Config, env: EnvOverrides)
    ensures
        final(config).key_backend == backend_overridden(old(config).key_backend, env),
        final(config).public == (PublicConfig {
            friendly_name: match env.friendly_name {
                Some(n) => n,
                None => old(config).public.friendly_name,
            },
            ..old(config).public
        }),
        ({
            let rest = Config {
                key_backend: old(config).key_backend,
                public: old(config).public,
                ..*final(config)
            };
            match env.mediator_did {
                Some(did) => mediator_set(*old(config), rest, did@),
                None => rest == *old(config),
            }
        }),
{
    if let Some(val) = &env.mediator_did {
        config.set_active_mediator_did(val.as_str());
    }
    match &mut config.key_backend {
        KeyBackend::Vta { vta_did, vta_url, .. } => {
            if let Some(val) = env.vta_url {
                *vta_url = val;
            }
            if let Some(val) = env.vta_did {
                *vta_did = val;
            }
        },
        _ => {},
    }
    if let Some(val) = env.friendly_name {
        config.public.friendly_name = val;
    }
}

/// A message that does not name the home directory is shown as it is, and one that
/// starts with it is shown without it.
pub proof fn law_home_is_taken_out(
    plain: &str,
    inside: &str,
    rest: Seq<char>,
    home: &str,
    a: String,
    b: String,
)
    requires
        call_ensures(redact_paths, (plain, home), a),
        call_ensures(redact_paths, (inside, home), b),
        !occurs(plain@, home@),
        home@.len() > 0,
        inside@ == home@ + rest,
        !occurs(rest, home@),
    ensures
        a@ == plain@,
        b@ == "~"@ + rest,
{
    let h = home@;
    lemma_nothing_replaced(plain@, h, "~"@, 0);
    assert(plain@.skip(0) =~= plain@);
    let s = inside@;
    assert(s.subrange(0, h.len() as int) =~= h);
    assert(crate::text::occurs_at(s, h, 0));
    assert forall|j: int| j >= h.len() implies !crate::text::occurs_at(s, h, j) by {
        if crate::text::occurs_at(s, h, j) {
            assert(rest.subrange(j - h.len(), j) =~= s.subrange(j, j + h.len()));
            assert(crate::text::occurs_at(rest, h, j - h.len()));
        }
    }
    lemma_nothing_replaced(s, h, "~"@, h.len() as int);
    assert(s.skip(h.len() as int) =~= rest);
    assert(replaced_from(s, h, "~"@, 0) == "~"@ + replaced_from(s, h, "~"@, h.len() as int));
    assert(b@ =~= "~"@ + rest);
}

proof fn lemma_nothing_replaced(s: Seq<char>, p: Seq<char>, w: Seq<char>, i: int)
    requires
        p.len() > 0,
        0 <= i <= s.len(),
        forall|j: int| j >= i ==> !crate::text::occurs_at(s, p, j),
    ensures
        replaced_from(s, p, w, i) == s.skip(i),
    decreases s.len() - i,
{
    if i < s.len() {
        lemma_nothing_replaced(s, p, w, i + 1);
        assert(!crate::text::occurs_at(s, p, i));
        assert(s.skip(i) =~= seq![s[i]] + s.skip(i + 1));
    } else {
        assert(s.skip(i) =~= Seq::<char>::empty());
    }
}

/// A profile that the command line names, other than the default, is the one that
/// is used; otherwise it is the environment's, where it names one.
pub proof fn law_named_profile_is_used(
    cli: String,
    env: Option<String>,
    r: (String, ProfileSource),
)
    requires
        call_ensures(resolve_profile, (cli, env), r),
    ensures
        cli@ != "default"@ ==> r.0@ == cli@,
        cli@ == "default"@ && env is Some ==> r.0@ == env->0@,
        env is None ==> r.0@ == cli@ && r.1 is CommandLine,
        r.1 is CommandLineOverEnvironment <==> env is Some && env->0@ != r.0@,
        r.1 is Environment ==> env is Some && env->0@ == r.0@,
{
}

/// A name of letters and digits is accepted, and a name that is accepted is one
/// component of a path, not empty and without a pair of dots.
pub proof fn law_accepted_profiles(profile: &str, r: bool, i: int)
    requires
        call_ensures(valid_profile, (profile,), r),
    ensures
        r ==> profile@.len() > 0,
        r && 0 <= i < profile@.len() ==> profile@[i] != '/' && profile@[i] != '\\'
            && profile@[i] != '\0',
        r && 0 <= i < profile@.len() - 1 ==> !(profile@[i] == '.' && profile@[i + 1] == '.'),
        profile@.len() > 0 && (forall|j: int|
            0 <= j < profile@.len() ==> is_ascii_alnum(#[trigger] profile@[j])) ==> r,
{
    reveal_strlit("..");
    let s = profile@;
    if r && 0 <= i < s.len() {
        law_profile_name_is_one_component(s, i);
        if i < s.len() - 1 && s[i] == '.' && s[i + 1] == '.' {
            assert(s.subrange(i, i + 2) =~= ".."@);
            assert(crate::text::occurs_at(s, ".."@, i));
        }
    }
    if s.len() > 0 && (forall|j: int| 0 <= j < s.len() ==> is_ascii_alnum(#[trigger] s[j])) {
        if occurs(s, ".."@) {
            let k = choose|k: int| crate::text::occurs_at(s, ".."@, k);
            assert(s.subrange(k, k + 2)[0] == ".."@[0]);
            assert(is_ascii_alnum(s[k]));
        }
        assert forall|j: int| 0 <= j < s.len() implies is_profile_char(#[trigger] s[j]) by {
            assert(is_ascii_alnum(s[j]));
        }
    }
}

/// The main page opens exactly on a configuration that was loaded; setup runs where
/// it was asked for or where there is no configuration; one of another version is
/// deleted only after a yes.
pub proof fn law_start_fits_what_was_found(
    setup: bool,
    load: LoadResult,
    home: &str,
    confirmed: bool,
    r: StartDecision,
    reset: StartDecision,
)
    requires
        call_ensures(decide_start, (setup, &load, home), r),
        call_ensures(decide_reset, (confirmed,), reset),
    ensures
        r is MainPage <==> !setup && load is Loaded,
        r is SetupWizard <==> setup || load is NotFound,
        r is AskReset <==> !setup && load is VersionUnsupported,
        r is Abort <==> !setup && load is Failed,
        reset is SetupWizard <==> confirmed,
        !confirmed ==> reset is Abort,
{
    assert(r@ == start_view(setup, load, home@));
}

/// A passphrase is needed exactly for an encrypted configuration; one that was
/// given is used as it is, and a PIN is asked for with a token only.
pub proof fn law_unlocking_fits_the_protection(
    protection: ProtectionType,
    code: Option<String>,
    r: UnlockPlan,
)
    requires
        call_ensures(unlock_plan, (&protection, &code), r),
    ensures
        r is NotNeeded <==> protection !is Encrypted,
        r is NotNeeded ==> (r->ask_pin <==> protection is Token),
        r is Ask <==> protection is Encrypted && code is None,
        r matches UnlockPlan::Given(given) ==> code == Some(given),
{
}

/// No attempt waits less than the one before it, the first waits for nothing, and
/// after the last one there is no other.
pub proof fn law_unlocking_slows_down(
    attempt: usize,
    later: usize,
    a: u64,
    b: u64,
    verdict: UnlockVerdict,
)
    requires
        call_ensures(unlock_delay, (attempt,), a),
        call_ensures(unlock_delay, (later,), b),
        attempt <= later,
        1 <= later <= MAX_UNLOCK_ATTEMPTS,
        call_ensures(after_failed_attempt, (later,), verdict),
    ensures
        a <= b,
        attempt <= 1 ==> a == 0,
        later > 3 && attempt < later ==> a < b,
        later > 4 && attempt + 1 == later ==> b == 2 * a,
        verdict is Abort <==> later == MAX_UNLOCK_ATTEMPTS,
{
}

/// A setting that the environment names is taken from it and every other one is
/// kept; keys and what was agreed with others are never touched.
pub proof fn law_environment_overrides_what_it_names(config: &mut Config, env: EnvOverrides)
    requires
        call_ensures(apply_env_overrides, (config, env), ()),
    ensures
        env.friendly_name matches Some(n) ==> final(config).public.friendly_name == n,
        env.friendly_name is None ==> final(config).public.friendly_name == old(config).public.friendly_name,
        env.mediator_did is Some && old(config).active() is Some ==> final(config).mediator_view()
            == env.mediator_did->0@,
        env.mediator_did is None ==> final(config).mediator_view() == old(config).mediator_view(),
        env.vta_did is None && env.vta_url is None ==> final(config).key_backend == old(config).key_backend,
        old(config).key_backend is Vta ==> {
            let was = old(config).key_backend;
            let is = final(config).key_backend;
            &&& is is Vta
            &&& is->credential_did == was->credential_did
            &&& is->credential_private_key == was->credential_private_key
            &&& is->encryption_seed == was->encryption_seed
            &&& env.vta_did is Some ==> is->vta_did == env.vta_did->0
            &&& env.vta_did is None ==> is->vta_did == was->vta_did
            &&& env.vta_url is Some ==> is->vta_url == env.vta_url->0
            &&& env.vta_url is None ==> is->vta_url == was->vta_url
        },
        final(config).persona_did_view() == old(config).persona_did_view(),
        final(config).private == old(config).private,
        final(config).account.communities == old(config).account.communities,
{
    let rest = Config {
        key_backend: old(config).key_backend,
        public: old(config).public,
        ..*final(config)
    };
    assert(rest.active() == final(config).active());
}

} // verus!
