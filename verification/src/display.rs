//! How profiles are shown to the operator: each name with the badges of
//! what the profile can do.

use crate::profile::{Profile, ProfileStore, ProfileView};
use crate::text::str_eq;
use vstd::prelude::*;
use vstd::string::*;

verus! {

/// `text` where `on` holds, else nothing.
pub open spec fn badge(on: bool, text: Seq<char>) -> Seq<char> {
    if on {
        text
    } else {
        Seq::empty()
    }
}

/// The badges of a profile, in their fixed order.
pub open spec fn badges_of(p: ProfileView) -> Seq<char> {
    badge(p.name == "default"@, "[default]"@) + badge(p.is_sso(), "[SSO]"@) + badge(
        p.is_role(),
        "[ROLE]"@,
    ) + badge(p.requires_mfa(), "[MFA]"@) + badge(p.is_static(), "[STATIC]"@)
}

/// The line that stands for a profile in a list: its name, a blank, its
/// badges.
pub open spec fn label_of(p: ProfileView) -> Seq<char> {
    p.name + " "@ + badges_of(p)
}

/// The badges of a profile.
pub fn badges(p: &Profile) -> (r: String)
    ensures
        r@ == badges_of(p@),
{
    let mut r = String::new();
    if str_eq(p.name.as_str(), "default") {
        r.append("[default]");
    }
    if p.is_sso() {
        r.append("[SSO]");
    }
    if p.is_role() {
        r.append("[ROLE]");
    }
    if p.requires_mfa() {
        r.append("[MFA]");
    }
    if p.is_static() {
        r.append("[STATIC]");
    }
    assert(r@ =~= badges_of(p@));
    r
}

/// The line that stands for a profile in a list.
pub fn label(p: &Profile) -> (r: String)
    ensures
        r@ == label_of(p@),
{
    let mut r = p.name.clone();
    r.append(" ");
    let b = badges(p);
    r.append(b.as_str());
    r
}

/// The lines of a list of all profiles, in the table's order.
pub fn selection_items(store: &ProfileStore) -> (r: Vec<String>)
    ensures
        r@.len() == store@.len(),
        forall|i: int| 0 <= i < r@.len() ==> (#[trigger] r@[i])@ == label_of(store@[i]),
{
    let mut r: Vec<String> = Vec::new();
    let mut i: usize = 0;
    while i < store.profiles.len()
        invariant
            i <= store.profiles.len(),
            r@.len() == i,
            forall|j: int| 0 <= j < i ==> (#[trigger] r@[j])@ == label_of(store@[j]),
        decreases store.profiles.len() - i,
    {
        r.push(label(&store.profiles[i]));
        i += 1;
    }
    r
}

/// The name of the profile that the line numbered `index` stands for.
pub fn selected_name(store: &ProfileStore, index: usize) -> (r: Option<String>)
    ensures
        match r {
            Some(name) => index < store@.len() && name@ == store@[index as int].name,
            None => index >= store@.len(),
        },
{
    if index < store.profiles.len() {
        Some(store.profiles[index].name.clone())
    } else {
        None
    }
}

} // verus!
