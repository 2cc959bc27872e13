//! The fixed `PATH` tables handed to the sandboxed command. The host's own
//! `PATH` is never consulted: the value is chosen by the target uid alone.

use vstd::prelude::*;

verus! {

/// The root-style search path, used when the target identity is uid 0; it
/// includes the `sbin` directories.
pub open spec fn root_path_value() -> Seq<char> {
    "/usr/local/sbin:/usr/local/bin:/usr/sbin:/usr/bin:/sbin:/bin"@
}

/// The user-style search path, used for every non-zero target uid.
pub open spec fn user_path_value() -> Seq<char> {
    "/usr/local/bin:/usr/bin:/bin"@
}

/// Chooses the `PATH` the target command observes: the root-style list when
/// the target uid is 0 and the user-style list otherwise.
pub fn path_for_uid(uid: u32) -> (r: String)
    ensures
        uid == 0 ==> r@ == root_path_value(),
        uid != 0 ==> r@ == user_path_value(),
{
    if uid == 0 {
        String::from_str("/usr/local/sbin:/usr/local/bin:/usr/sbin:/usr/bin:/sbin:/bin")
    } else {
        String::from_str("/usr/local/bin:/usr/bin:/bin")
    }
}

} // verus!
