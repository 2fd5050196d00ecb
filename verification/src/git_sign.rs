//! Finding the git-signing install of a persona in the files that it left.

use crate::content::DidGitSignInfo;
use crate::text::{begins_with, cat2, chars_of, starts_with, text_of, trim, trimmed};
use vstd::prelude::*;

verus! {

/// The files of a git-signing install, as they were read.
#[derive(Clone, Debug)]
pub struct GitSignFiles {
    /// Path of the signing configuration.
    pub config_path: String,
    /// Verification method id that it names.
    pub did_key_id: String,
    /// Content of the `allowed_signers` file next to it.
    pub allowed_signers: String,
}

/// Where the line that begins at `i` ends.
pub open spec fn line_end(s: Seq<char>, i: int) -> int
    decreases s.len() - i,
{
    if i >= s.len() || s[i] == '\n' {
        i
    } else {
        line_end(s, i + 1)
    }
}

proof fn lemma_line_end(s: Seq<char>, i: int)
    requires
        0 <= i <= s.len(),
    ensures
        i <= line_end(s, i) <= s.len(),
    decreases s.len() - i,
{
    if i < s.len() && s[i] != '\n' {
        lemma_line_end(s, i + 1);
    }
}

/// `s` without any number of `p` at its start.
pub open spec fn stripped(s: Seq<char>, p: Seq<char>) -> Seq<char>
    decreases s.len(),
{
    if p.len() > 0 && begins_with(s, p) {
        stripped(s.skip(p.len() as int), p)
    } else {
        s
    }
}

/// What an entry of the signers file for `id` begins with.
pub open spec fn entry_prefix(id: Seq<char>) -> Seq<char> {
    id + " ssh-ed25519 "@
}

/// The public key that a line of the signers file holds for `id`.
pub open spec fn key_of_line(line: Seq<char>, id: Seq<char>) -> Option<Seq<char>> {
    if begins_with(trimmed(line), entry_prefix(id)) {
        Some(trimmed(stripped(trimmed(line), id)))
    } else {
        None
    }
}

/// The public key of the first line for `id`, reading from `i`.
pub open spec fn signer_key(s: Seq<char>, i: int, id: Seq<char>) -> Option<Seq<char>>
    decreases s.len() - i,
    when 0 <= i <= s.len()
    via signer_key_ends
{
    let j = line_end(s, i);
    match key_of_line(s.subrange(i, j), id) {
        Some(k) => Some(k),
        None => if j >= s.len() {
            None
        } else {
            signer_key(s, j + 1, id)
        },
    }
}

#[via_fn]
proof fn signer_key_ends(s: Seq<char>, i: int, id: Seq<char>) {
    lemma_line_end(s, i);
}

/// The install that these files show for a persona: the signing identity
/// belongs to it, and the signers file holds its public key.
pub open spec fn install_of(persona_did: Seq<char>, files: Option<GitSignFiles>) -> Option<
    (Seq<char>, Seq<char>, Seq<char>),
> {
    match files {
        None => None,
        Some(f) => if !begins_with(f.did_key_id@, persona_did + "#"@) {
            None
        } else {
            match signer_key(f.allowed_signers@, 0, f.did_key_id@) {
                Some(k) => Some((f.did_key_id@, k, f.config_path@)),
                None => None,
            }
        },
    }
}

fn strip(s: String, p: &str) -> (r: String)
    ensures
        r@ == stripped(s@, p@),
    decreases s@.len(),
{
    let q = chars_of(p);
    if q.len() > 0 && starts_with(s.as_str(), p) {
        let v = chars_of(s.as_str());
        let rest = text_of(&v, q.len(), v.len());
        assert(rest@ =~= s@.skip(p@.len() as int));
        strip(rest, p)
    } else {
        s
    }
}

fn find_key(signers: &str, id: &str) -> (r: Option<String>)
    ensures
        crate::text::opt_view(r) == signer_key(signers@, 0, id@),
{
    let v = chars_of(signers);
    let prefix = cat2(id, " ssh-ed25519 ");
    let mut i: usize = 0;
    loop
        invariant
            v@ == signers@,
            prefix@ == entry_prefix(id@),
            i <= v.len(),
            signer_key(signers@, 0, id@) == signer_key(signers@, i as int, id@),
        decreases v.len() - i,
    {
        let mut j: usize = i;
        proof {
            lemma_line_end(v@, i as int);
        }
        while j < v.len() && v[j] != '\n'
            invariant
                i <= j <= v.len(),
                line_end(v@, i as int) == line_end(v@, j as int),
            decreases v.len() - j,
        {
            j = j + 1;
        }
        let line = text_of(&v, i, j);
        let t = trim(line.as_str());
        if starts_with(t.as_str(), prefix.as_str()) {
            let bare = strip(t, id);
            return Some(trim(bare.as_str()));
        }
        if j == v.len() {
            return None;
        }
        i = j + 1;
    }
}

/// Detects the git-signing install of a persona. Another persona's install on
/// the same host is not shown.
pub fn detect_did_git_sign_info(persona_did: &str, files: &Option<GitSignFiles>) -> (r: Option<
    DidGitSignInfo,
>)
    ensures
        (match r {
            Some(i) => Some(i@),
            None => None,
        }) == install_of(persona_did@, *files),
{
    match files {
        None => None,
        Some(f) => {
            let prefix = cat2(persona_did, "#");
            if !starts_with(f.did_key_id.as_str(), prefix.as_str()) {
                return None;
            }
            match find_key(f.allowed_signers.as_str(), f.did_key_id.as_str()) {
                Some(k) => Some(
                    DidGitSignInfo {
                        did_key_id: f.did_key_id.clone(),
                        ssh_public_key: k,
                        config_path: f.config_path.clone(),
                    },
                ),
                None => None,
            }
        },
    }
}

/// The git-signing install that is shown belongs to the persona and stands in the
/// files, under the id and the path that they give.
pub proof fn law_shown_install_is_the_personas(
    persona_did: &str,
    files: Option<GitSignFiles>,
    r: Option<DidGitSignInfo>,
)
    requires
        call_ensures(detect_did_git_sign_info, (persona_did, &files), r),
    ensures
        r is Some ==> files is Some,
        r is Some ==> r->0.did_key_id@ == files->0.did_key_id@,
        r is Some ==> r->0.config_path@ == files->0.config_path@,
        r is Some ==> begins_with(r->0.did_key_id@, persona_did@ + "#"@),
        files is Some && !begins_with(files->0.did_key_id@, persona_did@ + "#"@) ==> r is None,
{
}

} // verus!
