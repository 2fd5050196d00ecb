//! Making text from outside safe and short enough to show.

use crate::config::Config;
use crate::ledger::{alias_of, by_remote_did};
use crate::text::{ascii_letter, cat2, chars_of, is_ascii_letter, text_of};
use vstd::prelude::*;

verus! {

/// The character that begins a terminal escape sequence.
pub open spec fn is_escape(c: char) -> bool {
    c as u32 == 0x1B
}

/// A control character (Unicode category Cc).
pub open spec fn is_control(c: char) -> bool {
    c as u32 <= 0x1F || 0x7F <= c as u32 <= 0x9F
}

/// A character that can spoof or mangle a terminal line when it is rendered:
/// bidirectional marks, embeddings, overrides and isolates, zero-width spaces
/// and joiners, the byte-order mark.
pub open spec fn is_dangerous(c: char) -> bool {
    ||| c as u32 == 0x200E
    ||| c as u32 == 0x200F
    ||| 0x202A <= c as u32 <= 0x202E
    ||| 0x2066 <= c as u32 <= 0x2069
    ||| 0x200B <= c as u32 <= 0x200D
    ||| c as u32 == 0xFEFF
}

/// Whether `c` can spoof or mangle a terminal line.
pub fn is_dangerous_format_char(c: char) -> (r: bool)
    ensures
        r == is_dangerous(c),
{
    let n: u32 = c as u32;
    n == 0x200E || n == 0x200F || (n >= 0x202A && n <= 0x202E) || (n >= 0x2066 && n <= 0x2069) || (n
        >= 0x200B && n <= 0x200D) || n == 0xFEFF
}

/// A character that is safe to show.
pub open spec fn is_safe(c: char) -> bool {
    !is_control(c) && !is_dangerous(c)
}

fn safe(c: char) -> (r: bool)
    ensures
        r == is_safe(c),
{
    let n: u32 = c as u32;
    let control: bool = n <= 0x1F || (n >= 0x7F && n <= 0x9F);
    !control && !is_dangerous_format_char(c)
}

/// An escape sequence begins at the start of `s`: an escape character stands
/// there, with `[` right behind it.
pub open spec fn opens_escape(s: Seq<char>) -> bool {
    s.len() > 1 && is_escape(s[0]) && s[1] == '['
}

/// `s` without its escape sequences: each runs from an escape character and `[`
/// to the next ASCII letter. `inside` tells that one is open at the start.
pub open spec fn unescaped(s: Seq<char>, inside: bool) -> Seq<char>
    decreases s.len(),
{
    if s.len() == 0 {
        Seq::empty()
    } else if inside {
        unescaped(s.skip(1), !is_ascii_letter(s[0]))
    } else if opens_escape(s) {
        unescaped(s.skip(1), true)
    } else {
        seq![s[0]] + unescaped(s.skip(1), false)
    }
}

/// The safe characters.
pub open spec fn safe_chars() -> spec_fn(char) -> bool {
    |c: char| is_safe(c)
}

/// At most the first `n` characters.
pub open spec fn first(s: Seq<char>, n: nat) -> Seq<char> {
    if s.len() <= n {
        s
    } else {
        s.take(n as int)
    }
}

/// `s` made safe to show: without escape sequences, without control and
/// spoofing characters, at most `max_len` characters long.
pub open spec fn sanitized(s: Seq<char>, max_len: nat) -> Seq<char> {
    first(unescaped(s, false).filter(safe_chars()), max_len)
}

proof fn lemma_filter_snoc(s: Seq<char>, c: char)
    ensures
        s.push(c).filter(safe_chars()) == (if is_safe(c) {
            s.filter(safe_chars()).push(c)
        } else {
            s.filter(safe_chars())
        }),
{
    reveal(Seq::filter);
    assert(s.push(c).drop_last() =~= s);
}

/// Makes text from an untrusted source safe for a terminal line and for
/// storage: strips escape sequences, then control and spoofing characters, then
/// cuts to `max_len` characters.
pub fn sanitize_display(input: &str, max_len: usize) -> (r: String)
    ensures
        r@ == sanitized(input@, max_len as nat),
{
    let v = chars_of(input);
    let mut kept: Vec<char> = Vec::new();
    let ghost mut plain: Seq<char> = Seq::empty();
    let mut inside: bool = false;
    let mut i: usize = 0;
    proof {
        assert(v@.skip(0) =~= v@);
        assert(plain + unescaped(v@, false) =~= unescaped(v@, false));
        assert(plain.filter(safe_chars()) =~= Seq::<char>::empty()) by {
            reveal(Seq::filter);
        }
    }
    while i < v.len()
        invariant
            v@ == input@,
            i <= v.len(),
            unescaped(v@, false) == plain + unescaped(v@.skip(i as int), inside),
            kept@ == plain.filter(safe_chars()),
        decreases v.len() - i,
    {
        let c: char = v[i];
        proof {
            assert(v@.skip(i as int)[0] == c);
            assert(v@.skip(i as int).skip(1) =~= v@.skip(i + 1));
        }
        let n: u32 = c as u32;
        if inside {
            if ascii_letter(c) {
                inside = false;
            }
        } else if n == 0x1B && i + 1 < v.len() && v[i + 1] == '[' {
            inside = true;
        } else {
            proof {
                lemma_filter_snoc(plain, c);
                assert(plain + (seq![c] + unescaped(v@.skip(i + 1), false)) =~= plain.push(c)
                    + unescaped(v@.skip(i + 1), false));
                plain = plain.push(c);
            }
            if safe(c) {
                kept.push(c);
            }
        }
        i = i + 1;
    }
    proof {
        assert(plain + unescaped(v@.skip(i as int), inside) =~= plain);
    }
    let n: usize = if kept.len() <= max_len {
        kept.len()
    } else {
        max_len
    };
    assert(kept@.subrange(0, n as int) =~= first(kept@, max_len as nat));
    text_of(&kept, 0, n)
}

proof fn lemma_unescaped_plain(s: Seq<char>)
    requires
        forall|i: int| 0 <= i < s.len() ==> !is_escape(#[trigger] s[i]),
    ensures
        unescaped(s, false) == s,
    decreases s.len(),
{
    if s.len() > 0 {
        assert(!is_escape(s[0]));
        assert forall|i: int| 0 <= i < s.skip(1).len() implies !is_escape(
            #[trigger] s.skip(1)[i],
        ) by {
            assert(!is_escape(s[i + 1]));
        }
        lemma_unescaped_plain(s.skip(1));
        assert(seq![s[0]] + s.skip(1) =~= s);
    }
}

proof fn lemma_filter_all(s: Seq<char>)
    requires
        forall|i: int| 0 <= i < s.len() ==> is_safe(#[trigger] s[i]),
    ensures
        s.filter(safe_chars()) == s,
    decreases s.len(),
{
    reveal(Seq::filter);
    if s.len() > 0 {
        let d = s.drop_last();
        assert forall|i: int| 0 <= i < d.len() implies is_safe(#[trigger] d[i]) by {
            assert(is_safe(s[i]));
        }
        lemma_filter_all(d);
        assert(is_safe(s[s.len() - 1]));
        assert(d.push(s.last()) =~= s);
    } else {
        assert(s.filter(safe_chars()) =~= s);
    }
}

proof fn lemma_filter_safe(s: Seq<char>)
    ensures
        forall|i: int|
            0 <= i < s.filter(safe_chars()).len() ==> is_safe(
                #[trigger] s.filter(safe_chars())[i],
            ),
{
    broadcast use vstd::seq_lib::group_filter_ensures;

    let f = safe_chars();
    assert forall|i: int| 0 <= i < s.filter(f).len() implies is_safe(#[trigger] s.filter(f)[i]) by {
        assert(f(s.filter(f)[i]));
    }
}

/// Sanitized text holds no control and no spoofing character and at most
/// `max_len` characters, and sanitizing it again changes nothing.
pub proof fn law_sanitized(s: Seq<char>, max_len: nat)
    ensures
        forall|i: int|
            0 <= i < sanitized(s, max_len).len() ==> is_safe(#[trigger] sanitized(s, max_len)[i]),
        sanitized(s, max_len).len() <= max_len,
        sanitized(sanitized(s, max_len), max_len) == sanitized(s, max_len),
{
    let t = sanitized(s, max_len);
    lemma_filter_safe(unescaped(s, false));
    assert forall|i: int| 0 <= i < t.len() implies is_safe(#[trigger] t[i]) by {
        assert(t[i] == unescaped(s, false).filter(safe_chars())[i]);
    }
    assert forall|i: int| 0 <= i < t.len() implies !is_escape(#[trigger] t[i]) by {
        assert(is_safe(t[i]));
    }
    lemma_unescaped_plain(t);
    lemma_filter_all(t);
}

/// Text that is safe and short enough is shown as it is.
pub proof fn law_sanitized_keeps_plain(s: Seq<char>, max_len: nat)
    requires
        forall|i: int| 0 <= i < s.len() ==> is_safe(#[trigger] s[i]),
        s.len() <= max_len,
    ensures
        sanitized(s, max_len) == s,
{
    assert forall|i: int| 0 <= i < s.len() implies !is_escape(#[trigger] s[i]) by {
        assert(is_safe(s[i]));
    }
    lemma_unescaped_plain(s);
    lemma_filter_all(s);
}

/// `s` cut to `max` characters, an ellipsis standing for what was cut off.
pub open spec fn truncated(s: Seq<char>, max: nat) -> Seq<char> {
    if s.len() <= max {
        s
    } else if max <= 3 {
        s.take(max as int)
    } else {
        s.take(max - 3) + "..."@
    }
}

/// `s` cut to `max` characters, an ellipsis standing for what was cut off.
pub fn truncate_did(s: &str, max: usize) -> (r: String)
    ensures
        r@ == truncated(s@, max as nat),
{
    let v = chars_of(s);
    if v.len() <= max {
        assert(v@.subrange(0, v@.len() as int) =~= s@);
        text_of(&v, 0, v.len())
    } else if max <= 3 {
        assert(v@.subrange(0, max as int) =~= s@.take(max as int));
        text_of(&v, 0, max)
    } else {
        assert(v@.subrange(0, max - 3) =~= s@.take(max - 3));
        let head = text_of(&v, 0, max - 3);
        cat2(head.as_str(), "...")
    }
}

/// A DID as it is shown: sanitized, then cut to `max_width` characters.
pub open spec fn shortened(did: Seq<char>, max_width: nat) -> Seq<char> {
    truncated(sanitized(did, 256), max_width)
}

/// Shortens a DID for display, fitting within `max_width` characters; drops
/// escape sequences and control characters of untrusted input first.
pub fn shorten_did(did: &str, max_width: usize) -> (r: String)
    ensures
        r@ == shortened(did@, max_width as nat),
{
    let clean = sanitize_display(did, 256);
    truncate_did(clean.as_str(), max_width)
}

/// A shortened DID fits within its width.
pub proof fn law_shortened_fits(did: Seq<char>, max_width: nat)
    ensures
        shortened(did, max_width).len() <= max_width,
{
    reveal_strlit("...");
}

/// A DID as it is shown in a log line.
pub open spec fn log_did_view(did: Seq<char>) -> Seq<char> {
    truncated(did, 30)
}

/// Cuts a DID for a log line.
pub fn log_did(did: &str) -> (r: String)
    ensures
        r@ == log_did_view(did@),
{
    truncate_did(did, 30)
}

/// The name that a DID is shown under: the alias of its contact; else, for the
/// relationship DID of a party, the alias of that party's contact or its
/// persona DID; else the DID itself.
pub open spec fn display_name_of(config: Config, did: Seq<char>) -> Seq<char> {
    let contacts = config.private.contacts.contacts@;
    match alias_of(contacts, did) {
        Some(alias) => alias,
        None => match by_remote_did(config.private.relationships@, did) {
            Some(rel) => match alias_of(contacts, rel.remote_p_did@) {
                Some(alias) => alias,
                None => log_did_view(rel.remote_p_did@),
            },
            None => log_did_view(did),
        },
    }
}

/// Resolves a DID to the name that it is shown under.
pub fn resolve_did_to_display(config: &Config, did: &str) -> (r: String)
    ensures
        r@ == display_name_of(*config, did@),
{
    match config.private.contacts.alias(did) {
        Some(alias) => alias,
        None => match config.private.relationships.find_by_remote_did(did) {
            Some(rel) => match config.private.contacts.alias(rel.remote_p_did.as_str()) {
                Some(alias) => alias,
                None => log_did(rel.remote_p_did.as_str()),
            },
            None => log_did(did),
        },
    }
}

/// Text from others is shown without a control character, an escape or a
/// character that turns the line round, and no longer than it may be.
pub proof fn law_shown_text_is_safe(input: &str, max_len: usize, r: String, i: int)
    requires
        call_ensures(sanitize_display, (input, max_len), r),
        0 <= i < r@.len(),
    ensures
        r@.len() <= max_len,
        r@[i] as u32 > 0x1F,
        !(0x7F <= r@[i] as u32 <= 0x9F),
        !(0x202A <= r@[i] as u32 <= 0x202E),
        !(0x2066 <= r@[i] as u32 <= 0x2069),
        !(0x200B <= r@[i] as u32 <= 0x200F),
        r@[i] as u32 != 0xFEFF,
{
    law_sanitized(input@, max_len as nat);
    assert(is_safe(sanitized(input@, max_len as nat)[i]));
}

/// A DID that fits is shown whole; one that does not is shown by its beginning,
/// within the width.
pub proof fn law_cut_text_keeps_its_beginning(s: &str, max: usize, r: String, i: int)
    requires
        call_ensures(truncate_did, (s, max), r),
    ensures
        r@.len() <= max,
        s@.len() <= max ==> r@ == s@,
        s@.len() > max ==> r@.len() == max,
        0 <= i < max - 3 && i < s@.len() ==> r@[i] == s@[i],
{
    reveal_strlit("...");
}

/// A party with an alias is shown under it, whether by its persona's DID or by the
/// DID that it uses in the relationship.
pub proof fn law_alias_is_shown(
    config: Config,
    did: &str,
    rel: crate::ledger::Relationship,
    r: String,
)
    requires
        call_ensures(resolve_did_to_display, (&config, did), r),
    ensures
        alias_of(config.private.contacts.contacts@, did@) matches Some(alias) ==> r@ == alias,
        alias_of(config.private.contacts.contacts@, did@) is None && by_remote_did(
            config.private.relationships@,
            did@,
        ) == Some(rel) ==> (alias_of(config.private.contacts.contacts@, rel.remote_p_did@)
            matches Some(alias) ==> r@ == alias),
{
}

} // verus!
