//! The invitations that the account holds in its VTA's vault.

use crate::json::{
    is_invitation, is_invitation_credential, items_view, json_error_of, json_fault, json_items,
    json_items_at,
};
use crate::main_page::ErrorText;
use crate::text::{cat2, opt_view, owned, texts_view, trim, trimmed};
use vstd::prelude::*;

verus! {

/// Which credentials of the vault are asked for.
#[derive(Clone, Debug)]
pub struct VaultFilter {
    pub purpose: String,
    pub include_archived: bool,
    pub include_deleted: bool,
}

/// Asks for the invitations; also for those archived or deleted, on request.
pub fn list_vics(include_inactive: bool) -> (r: VaultFilter)
    ensures
        r.purpose@ == "invite"@,
        r.include_archived == include_inactive,
        r.include_deleted == include_inactive,
{
    VaultFilter {
        purpose: owned("invite"),
        include_archived: include_inactive,
        include_deleted: include_inactive,
    }
}

/// The invitations in a reply that holds these, or no list at all.
pub open spec fn listed(items: Option<Seq<Seq<char>>>) -> Seq<Seq<char>> {
    match items {
        Some(s) => s,
        None => Seq::empty(),
    }
}

/// The list that came with a reply; an empty one where none came.
pub fn listed_or_none(items: Option<Vec<String>>) -> (r: Vec<String>)
    ensures
        texts_view(r@) == listed(items_view(items)),
{
    match items {
        Some(v) => v,
        None => {
            let v: Vec<String> = Vec::new();
            assert(texts_view(v@) =~= Seq::<Seq<char>>::empty());
            v
        },
    }
}

/// The descriptors of the invitations that the vault's reply lists under
/// `credentials`, each as its JSON text, in their order; none where the reply
/// has no such list.
pub fn vics_in_reply(reply: &str) -> (r: Vec<String>)
    ensures
        texts_view(r@) == listed(json_items(reply@, "/credentials"@)),
{
    let items = json_items_at(reply, "/credentials");
    listed_or_none(items)
}

/// What a text comes to that is to be stored as an invitation: the credential, or
/// why it is none.
pub open spec fn vic_checked(
    text: Seq<char>,
    fault: Option<Seq<char>>,
    invitation: bool,
    r: Result<String, ErrorText>,
) -> bool {
    match fault {
        Some(e) => r matches Err(t) && t.says("not valid JSON: "@ + e),
        None => if invitation {
            r matches Ok(vic) && vic@ == trimmed(text)
        } else {
            r matches Err(t) && t.says(
                "not an invitation credential (missing the `InvitationCredential` type tag)"@,
            )
        },
    }
}

/// Checks a text that is to be stored as an invitation; `fault` is what is wrong
/// with it as JSON, and `invitation` says whether it carries the tag of one.
pub fn check_vic(text: &str, fault: Option<String>, invitation: bool) -> (r: Result<
    String,
    ErrorText,
>)
    ensures
        vic_checked(text@, opt_view(fault), invitation, r),
{
    match fault {
        Some(e) => Err(ErrorText::plain(cat2("not valid JSON: ", e.as_str()))),
        None => {
            if invitation {
                Ok(trim(text))
            } else {
                Err(
                    ErrorText::plain(
                        owned(
                            "not an invitation credential (missing the `InvitationCredential` type tag)",
                        ),
                    ),
                )
            }
        },
    }
}

/// The credential to store in the vault, from a pasted text.
pub fn add_vic(text: &str) -> (r: Result<String, ErrorText>)
    ensures
        vic_checked(text@, json_fault(trimmed(text@)), is_invitation(trimmed(text@)), r),
{
    let clean = trim(text);
    let fault = json_error_of(clean.as_str());
    let invitation = is_invitation_credential(clean.as_str());
    check_vic(text, fault, invitation)
}

/// What can be done with an invitation in the vault.
#[derive(Clone, Copy, Debug, PartialEq, Eq, Structural)]
pub enum VicOp {
    /// Take it out of queries and presentations; it can be brought back.
    Archive,
    Unarchive,
    /// Delete it; it can be restored for a while.
    Delete,
    Restore,
    /// Delete it for good.
    Purge,
}

/// A change to the vault.
#[derive(Clone, Debug)]
pub struct VaultChange {
    pub op: VicOp,
    pub id: String,
    /// Whether the change may not be undone by a grace period.
    pub force: bool,
    /// What the audit log of the VTA says.
    pub reason: String,
}

fn change(op: VicOp, id: &str) -> (r: VaultChange)
    ensures
        is_change(r, op, id@),
{
    VaultChange { op, id: owned(id), force: false, reason: owned("via OpenVTC") }
}

/// This change to this invitation; none is forced.
pub open spec fn is_change(c: VaultChange, op: VicOp, id: Seq<char>) -> bool {
    c.op == op && c.id@ == id && !c.force && c.reason@ == "via OpenVTC"@
}

/// Takes an invitation out of queries and presentations.
pub fn archive_vic(id: &str) -> (r: VaultChange)
    ensures
        is_change(r, VicOp::Archive, id@),
{
    change(VicOp::Archive, id)
}

/// Brings an archived invitation back.
pub fn unarchive_vic(id: &str) -> (r: VaultChange)
    ensures
        is_change(r, VicOp::Unarchive, id@),
{
    change(VicOp::Unarchive, id)
}

/// Deletes an invitation, for it to be restored within the grace period.
pub fn delete_vic(id: &str) -> (r: VaultChange)
    ensures
        is_change(r, VicOp::Delete, id@),
{
    change(VicOp::Delete, id)
}

/// Restores a deleted invitation.
pub fn restore_vic(id: &str) -> (r: VaultChange)
    ensures
        is_change(r, VicOp::Restore, id@),
{
    change(VicOp::Restore, id)
}

/// Deletes an invitation for good.
pub fn purge_vic(id: &str) -> (r: VaultChange)
    ensures
        is_change(r, VicOp::Purge, id@),
{
    change(VicOp::Purge, id)
}

/// What is stored as an invitation is one, and it is the text that was pasted
/// without the white space around it.
pub proof fn law_stored_invitation_is_one(text: &str, r: Result<String, ErrorText>)
    requires
        call_ensures(add_vic, (text,), r),
    ensures
        r is Ok <==> json_fault(trimmed(text@)) is None && is_invitation(trimmed(text@)),
        r is Ok ==> r->Ok_0@ == trimmed(text@),
{
}

/// A change is made to the invitation that it names and is never forced; each
/// request asks for a change of its own.
pub proof fn law_changes_name_their_invitation(
    id: &str,
    archived: VaultChange,
    unarchived: VaultChange,
    deleted: VaultChange,
    restored: VaultChange,
    purged: VaultChange,
)
    requires
        call_ensures(archive_vic, (id,), archived),
        call_ensures(unarchive_vic, (id,), unarchived),
        call_ensures(delete_vic, (id,), deleted),
        call_ensures(restore_vic, (id,), restored),
        call_ensures(purge_vic, (id,), purged),
    ensures
        archived.id@ == id@ && archived.op is Archive && !archived.force,
        unarchived.id@ == id@ && unarchived.op is Unarchive && !unarchived.force,
        deleted.id@ == id@ && deleted.op is Delete && !deleted.force,
        restored.id@ == id@ && restored.op is Restore && !restored.force,
        purged.id@ == id@ && purged.op is Purge && !purged.force,
{
}

} // verus!
