use vstd::prelude::*;
use crate::error::ElewrapError;
use crate::process::{
    clear_groups, init_groups, initial_credentials, set_all_gids, set_all_uids, user_by_name,
    Call, Credentials, GroupList, Process,
};

verus! {

/// Credentials that were fully moved to user `uid` and group `gid`.
pub open spec fn dropped_to(c: Credentials, name: Seq<char>, uid: u32, gid: u32) -> bool {
    &&& c.uids == Some((uid, uid, uid))
    &&& c.gids == Some((gid, gid, gid))
    &&& c.groups == GroupList::InitializedFor(name, gid)
}

/// The calls of a privilege transition to user `name` that went through:
/// the lookup found `uid` and `gid`, and every step succeeded.
pub open spec fn transition_calls(name: Seq<char>, uid: u32, gid: u32) -> Seq<Call> {
    seq![
        Call::LookupUser(name, Some((uid, gid))),
        Call::ClearGroups(true),
        Call::InitGroups(name, gid, true),
        Call::SetGids(gid, true),
        Call::SetUids(uid, true),
    ]
}

/// The calls of a privilege transition whose step `k` (1 to 4) failed: the
/// lookup and the steps before `k` succeeded, and nothing followed step `k`.
pub open spec fn failed_transition(name: Seq<char>, uid: u32, gid: u32, k: int) -> Seq<Call> {
    transition_calls(name, uid, gid).take(k) + seq![
        if k == 1 {
            Call::ClearGroups(false)
        } else if k == 2 {
            Call::InitGroups(name, gid, false)
        } else if k == 3 {
            Call::SetGids(gid, false)
        } else {
            Call::SetUids(uid, false)
        },
    ]
}

/// Moves the process for good to the target user: looks it up, clears the
/// supplementary groups, sets them up for the target user, then sets all
/// three group ids and last all three user ids. The first step that fails
/// stops the transition. On success the user id and primary group id found
/// for the target are returned.
pub fn drop_privileges(p: &mut Process, target_user: &str) -> (r: Result<(u32, u32), ElewrapError>)
    requires
        old(p).credentials() == initial_credentials(),
    ensures
        r matches Ok((uid, gid)) ==> {
            &&& dropped_to(final(p).credentials(), target_user@, uid, gid)
            &&& final(p).calls() == old(p).calls() + transition_calls(target_user@, uid, gid)
        },
        r == Err::<(u32, u32), ElewrapError>(ElewrapError::IdentityResolution)
            <==> final(p).calls() == old(p).calls().push(Call::LookupUser(target_user@, None)),
        r == Err::<(u32, u32), ElewrapError>(ElewrapError::Privilege) ==> exists|
            uid: u32,
            gid: u32,
            k: int,
        |
            1 <= k <= 4 && final(p).calls() == old(p).calls() + #[trigger] failed_transition(
                target_user@,
                uid,
                gid,
                k,
            ),
        r is Err ==> r == Err::<(u32, u32), ElewrapError>(ElewrapError::IdentityResolution) || r
            == Err::<(u32, u32), ElewrapError>(ElewrapError::Privilege),
{
    let ghost name = target_user@;
    let ghost start = p.calls();
    let (uid, gid) = match user_by_name(p, target_user) {
        Some(ids) => ids,
        None => {
            return Err(ElewrapError::IdentityResolution);
        },
    };
    let ghost steps = transition_calls(name, uid, gid);
    assert(p.calls() == start + steps.take(1));
    if clear_groups(p).is_err() {
        assert(p.calls() == start + failed_transition(name, uid, gid, 1));
        return Err(ElewrapError::Privilege);
    }
    assert(p.calls() == start + steps.take(2));
    if init_groups(p, target_user, gid).is_err() {
        assert(p.calls() == start + failed_transition(name, uid, gid, 2));
        return Err(ElewrapError::Privilege);
    }
    assert(p.calls() == start + steps.take(3));
    if set_all_gids(p, gid).is_err() {
        assert(p.calls() == start + failed_transition(name, uid, gid, 3));
        return Err(ElewrapError::Privilege);
    }
    assert(p.calls() == start + steps.take(4));
    if set_all_uids(p, uid).is_err() {
        assert(p.calls() == start + failed_transition(name, uid, gid, 4));
        return Err(ElewrapError::Privilege);
    }
    assert(p.calls() == start + steps);
    Ok((uid, gid))
}

} // verus!
