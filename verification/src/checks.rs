//! Who may give a command.

use vstd::prelude::*;

verus! {

/// Whether a message is its owner's: the bot's owner is known, and is the
/// author.
pub fn owner_check(owner: Option<u64>, author: u64) -> (r: bool)
    ensures
        r == (owner == Some(author)),
{
    match owner {
        Some(owner) => author == owner,
        None => false,
    }
}

/// Whether a message is an administrator's: its author is a member of the
/// guild, the member's permissions are known, and they are those of an
/// administrator. `administrator` is `None` where the author is no member
/// and holds `None` where the permissions are not known.
pub fn admin_check(administrator: Option<Option<bool>>) -> (r: bool)
    ensures
        r == (administrator == Some(Some(true))),
{
    match administrator {
        Some(Some(is_admin)) => is_admin,
        _ => false,
    }
}

} // verus!
