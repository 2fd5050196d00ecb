//! Copying to the clipboard of the operator, through the terminal or the
//! system.

use crate::codec::{base64_standard, base64_view};
use crate::text::{cat3, cat4, cat5, decimal_usize, decimal_view};
use vstd::prelude::*;
use vstd::string::{StrSliceExecFns, StringSliceAdditionalSpecFns};

verus! {

/// How many bytes may be copied.
pub const MAX_PAYLOAD_BYTES: usize = 71680;

/// Which way a text took to the clipboard.
#[derive(Clone, Copy, Debug, PartialEq, Eq, Structural)]
pub enum CopyMethod {
    /// Through the terminal, by an escape sequence.
    Osc52,
    /// Through the system's clipboard.
    Arboard,
}

impl CopyMethod {
    /// How the way is shown.
    pub open spec fn label_view(self) -> Seq<char> {
        match self {
            CopyMethod::Osc52 => "OSC 52 (terminal)"@,
            CopyMethod::Arboard => "system clipboard"@,
        }
    }

    /// The other way.
    pub open spec fn other(self) -> CopyMethod {
        match self {
            CopyMethod::Osc52 => CopyMethod::Arboard,
            CopyMethod::Arboard => CopyMethod::Osc52,
        }
    }

    /// How the way is shown.
    pub fn label(&self) -> (r: &'static str)
        ensures
            r@ == self.label_view(),
    {
        match self {
            CopyMethod::Osc52 => "OSC 52 (terminal)",
            CopyMethod::Arboard => "system clipboard",
        }
    }
}

/// Why a text of this length is refused.
pub open spec fn oversize_view(bytes: nat) -> Seq<char> {
    "payload "@ + decimal_view(bytes) + " bytes exceeds OSC 52 cap of "@ + decimal_view(
        MAX_PAYLOAD_BYTES as nat,
    ) + " bytes — truncate before copying"@
}

/// Both ways failed, in the order in which they were tried.
pub open spec fn both_failed_view(
    first: CopyMethod,
    first_error: Seq<char>,
    second_error: Seq<char>,
) -> Seq<char> {
    match first {
        CopyMethod::Osc52 => "OSC 52: "@ + first_error + "; arboard: "@ + second_error,
        CopyMethod::Arboard => "arboard: "@ + first_error + "; OSC 52: "@ + second_error,
    }
}

/// What copying may come to when the way `first`, that is `p`, is tried before
/// the other one, that is `s`: the second is tried only where the first fails.
pub open spec fn comes_to<
    P: FnOnce(&str) -> Result<(), String>,
    S: FnOnce(&str) -> Result<(), String>,
>(first: CopyMethod, p: P, s: S, text: &str, r: Result<CopyMethod, Seq<char>>) -> bool {
    ||| exists|a: Result<(), String>| #[trigger]
        p.ensures((text,), a) && a is Ok && r == Ok::<CopyMethod, Seq<char>>(first)
    ||| exists|a: Result<(), String>, b: Result<(), String>| #[trigger]
        p.ensures((text,), a) && a is Err && #[trigger] s.ensures((text,), b) && r == (match b {
            Ok(_) => Ok::<CopyMethod, Seq<char>>(first.other()),
            Err(e) => Err(both_failed_view(first, a->Err_0@, e@)),
        })
}

/// The way `p` may be tried on the text, and the way `s` wherever `p` can fail.
pub open spec fn may_try<
    P: FnOnce(&str) -> Result<(), String>,
    S: FnOnce(&str) -> Result<(), String>,
>(p: P, s: S, text: &str) -> bool {
    &&& p.requires((text,))
    &&& forall|a: Result<(), String>| #[trigger]
        p.ensures((text,), a) && a is Err ==> s.requires((text,))
}

/// What a copy came to.
pub open spec fn copied_view(r: Result<CopyMethod, String>) -> Result<CopyMethod, Seq<char>> {
    match r {
        Ok(m) => Ok(m),
        Err(e) => Err(e@),
    }
}

/// Copies a text: over SSH through the terminal first, otherwise through the
/// system first; the other way is tried when the first fails. A text that is too
/// long is not tried at all.
pub fn copy_with<A, O>(text: &str, on_ssh: bool, arboard: A, osc52: O) -> (r: Result<
    CopyMethod,
    String,
>) where A: FnOnce(&str) -> Result<(), String>, O: FnOnce(&str) -> Result<(), String>
    requires
        text.len() <= MAX_PAYLOAD_BYTES && on_ssh ==> may_try(osc52, arboard, text),
        text.len() <= MAX_PAYLOAD_BYTES && !on_ssh ==> may_try(arboard, osc52, text),
    ensures
        text.len() > MAX_PAYLOAD_BYTES ==> copied_view(r) == Err::<CopyMethod, Seq<char>>(
            oversize_view(text.len() as nat),
        ),
        text.len() <= MAX_PAYLOAD_BYTES && on_ssh ==> comes_to(
            CopyMethod::Osc52,
            osc52,
            arboard,
            text,
            copied_view(r),
        ),
        text.len() <= MAX_PAYLOAD_BYTES && !on_ssh ==> comes_to(
            CopyMethod::Arboard,
            arboard,
            osc52,
            text,
            copied_view(r),
        ),
{
    if text.len() > MAX_PAYLOAD_BYTES {
        let got = decimal_usize(text.len());
        let cap = decimal_usize(MAX_PAYLOAD_BYTES);
        return Err(
            cat5(
                "payload ",
                got.as_str(),
                " bytes exceeds OSC 52 cap of ",
                cap.as_str(),
                " bytes — truncate before copying",
            ),
        );
    }
    if on_ssh {
        match osc52(text) {
            Ok(()) => Ok(CopyMethod::Osc52),
            Err(osc52_err) => match arboard(text) {
                Ok(()) => Ok(CopyMethod::Arboard),
                Err(arboard_err) => Err(
                    cat4("OSC 52: ", osc52_err.as_str(), "; arboard: ", arboard_err.as_str()),
                ),
            },
        }
    } else {
        match arboard(text) {
            Ok(()) => Ok(CopyMethod::Arboard),
            Err(arboard_err) => match osc52(text) {
                Ok(()) => Ok(CopyMethod::Osc52),
                Err(osc52_err) => Err(
                    cat4("arboard: ", arboard_err.as_str(), "; OSC 52: ", osc52_err.as_str()),
                ),
            },
        }
    }
}

/// A variable that is set to something.
pub open spec fn is_set(v: Option<String>) -> bool {
    match v {
        Some(s) => s@.len() > 0,
        None => false,
    }
}

fn set_to_something(v: &Option<String>) -> (r: bool)
    ensures
        r == is_set(*v),
{
    match v {
        Some(s) => !s.as_str().is_empty(),
        None => false,
    }
}

/// Whether the environment is that of an SSH session: one of its three
/// variables is set to something.
pub fn is_ssh_environment_with<F: Fn(&str) -> Option<String>>(getter: F) -> (r: bool)
    requires
        getter.requires(("SSH_CONNECTION",)),
        getter.requires(("SSH_TTY",)),
        getter.requires(("SSH_CLIENT",)),
    ensures
        r ==> (exists|v: Option<String>| is_set(v) && #[trigger] getter.ensures(
            ("SSH_CONNECTION",),
            v,
        )) || (exists|v: Option<String>| is_set(v) && #[trigger] getter.ensures(("SSH_TTY",), v))
            || (exists|v: Option<String>| is_set(v) && #[trigger] getter.ensures(
            ("SSH_CLIENT",),
            v,
        )),
        !r ==> exists|v: Option<String>| !is_set(v) && #[trigger] getter.ensures(
            ("SSH_CONNECTION",),
            v,
        ),
        !r ==> exists|v: Option<String>| !is_set(v) && #[trigger] getter.ensures(("SSH_TTY",), v),
        !r ==> exists|v: Option<String>| !is_set(v) && #[trigger] getter.ensures(
            ("SSH_CLIENT",),
            v,
        ),
{
    let connection = getter("SSH_CONNECTION");
    if set_to_something(&connection) {
        return true;
    }
    let tty = getter("SSH_TTY");
    if set_to_something(&tty) {
        return true;
    }
    let client = getter("SSH_CLIENT");
    if set_to_something(&client) {
        return true;
    }
    false
}

/// The escape sequence that puts bytes on the clipboard of the terminal.
pub open spec fn osc52_view(bytes: Seq<u8>) -> Seq<char> {
    "\x1b]52;c;"@ + base64_view(bytes) + "\x1b\\"@
}

/// The escape sequence that puts a text on the clipboard of the terminal.
pub fn format_osc52(text: &str) -> (r: String)
    requires
        text.spec_bytes().len() <= usize::MAX / 2,
    ensures
        r@ == osc52_view(text.spec_bytes()),
{
    let encoded = base64_standard(text.as_bytes());
    cat3("\x1b]52;c;", encoded.as_str(), "\x1b\\")
}

/// Appends the escape sequence for a text to the output.
pub fn emit_osc52_to(text: &str, w: &mut Vec<u8>)
    requires
        text.spec_bytes().len() <= usize::MAX / 2,
    ensures
        final(w)@ == old(w)@ + vstd::utf8::encode_utf8(osc52_view(text.spec_bytes())),
{
    let seq = format_osc52(text);
    let mut bytes = seq.as_str().as_bytes_vec();
    w.append(&mut bytes);
}

/// The text cannot break out of the escape sequence: between its ends stands
/// nothing but base64.
pub proof fn law_osc52_is_closed(bytes: Seq<u8>, i: int)
    requires
        7 <= i < osc52_view(bytes).len() - 2,
    ensures
        crate::codec::is_base64_char(osc52_view(bytes)[i]),
{
    reveal_strlit("\x1b]52;c;");
    reveal_strlit("\x1b\\");
    crate::codec::law_base64_is_plain(bytes);
    assert(osc52_view(bytes)[i] == base64_view(bytes)[i - 7]);
}

/// A text is reported as copied only the way that copied it, over SSH through the
/// terminal first; one that is too long is not copied at all.
pub proof fn law_copied_means_copied<A, O>(
    text: &str,
    on_ssh: bool,
    arboard: A,
    osc52: O,
    r: Result<CopyMethod, String>,
) where A: FnOnce(&str) -> Result<(), String>, O: FnOnce(&str) -> Result<(), String>
    requires
        call_ensures(copy_with::<A, O>, (text, on_ssh, arboard, osc52), r),
    ensures
        text.len() > MAX_PAYLOAD_BYTES ==> r is Err,
        r == Ok::<CopyMethod, String>(CopyMethod::Osc52) ==> exists|a: Result<(), String>|
            #[trigger] osc52.ensures((text,), a) && a is Ok,
        r == Ok::<CopyMethod, String>(CopyMethod::Arboard) ==> exists|a: Result<(), String>|
            #[trigger] arboard.ensures((text,), a) && a is Ok,
        r == Ok::<CopyMethod, String>(CopyMethod::Arboard) && on_ssh ==> exists|a: Result<
            (),
            String,
        >| #[trigger] osc52.ensures((text,), a) && a is Err,
        r == Ok::<CopyMethod, String>(CopyMethod::Osc52) && !on_ssh ==> exists|a: Result<
            (),
            String,
        >| #[trigger] arboard.ensures((text,), a) && a is Err,
{
}

} // verus!
