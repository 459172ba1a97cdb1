use vstd::prelude::*;
use crate::authorize::{authorized, authorized_by};
use crate::config::Config;
use crate::process::{changes_privilege, Call, Credentials};
use crate::run::{reached_authorization, run_prefix};

verus! {

/// A caller whose user id matches no resolved allowed user, and none of
/// whose group ids matches a resolved allowed group, is never authorized;
/// so `prepare` never hands back a command for it.
pub proof fn unlisted_caller_is_refused(
    uid: u32,
    gids: Seq<u32>,
    user_ids: Seq<Option<u32>>,
    group_ids: Seq<Option<u32>>,
)
    requires
        forall|i: int| 0 <= i < user_ids.len() ==> user_ids[i] != Some(uid),
        forall|i: int, j: int|
            0 <= i < group_ids.len() && 0 <= j < gids.len() ==> group_ids[i] != Some(gids[j]),
    ensures
        !authorized(uid, gids, user_ids, group_ids),
{
}

/// In every run that reached the authorization, the digest check (when one
/// is configured) passed; the caller's identity was read by the first three
/// calls, before any call that changes privilege; the privilege transition
/// began with clearing the groups right after the target lookup; and the
/// decision was made for the identity read at the start.
pub proof fn stages_run_in_order(
    config: &Config,
    contents: Option<Vec<u8>>,
    calls: Seq<Call>,
    creds: Credentials,
    verdict: bool,
)
    requires
        reached_authorization(config, contents, calls, creds, verdict),
    ensures
        crate::run::digest_accepted(config.target_digest, contents),
        calls[3] is LookupUser,
        calls[4] == Call::ClearGroups(true),
        forall|i: int| 0 <= i < 4 ==> !changes_privilege(#[trigger] calls[i]),
        exists|uid: u32, supplementary: Seq<u32>, gid: u32|
            {
                &&& calls[0] == Call::RealUid(uid)
                &&& calls[1] == Call::AccessGroups(Some(supplementary))
                &&& calls[2] == Call::RealGid(gid)
                &&& #[trigger] authorized_by(config, uid, supplementary.push(gid), calls.skip(8))
                    == verdict
            },
{
    let (cu, sup, cg, u, g) = choose|
        cu: u32,
        sup: Seq<u32>,
        cg: u32,
        u: u32,
        g: u32,
    |
        {
            &&& calls.take(8) == #[trigger] run_prefix(cu, sup, cg, config.target_user@, u, g)
            &&& crate::privilege::dropped_to(creds, config.target_user@, u, g)
            &&& crate::authorize::allow_list_lookups(config, calls.skip(8))
            &&& authorized_by(config, cu, sup.push(cg), calls.skip(8)) == verdict
        };
    let pre = run_prefix(cu, sup, cg, config.target_user@, u, g);
    assert(calls[0] == calls.take(8)[0]);
    assert(calls[1] == calls.take(8)[1]);
    assert(calls[2] == calls.take(8)[2]);
    assert(calls[3] == calls.take(8)[3]);
    assert(calls[4] == calls.take(8)[4]);
    assert(pre[0] == Call::RealUid(cu));
    assert(pre[1] == Call::AccessGroups(Some(sup)));
    assert(pre[2] == Call::RealGid(cg));
    assert(pre[3] == Call::LookupUser(config.target_user@, Some((u, g))));
    assert(pre[4] == Call::ClearGroups(true));
    assert(authorized_by(config, cu, sup.push(cg), calls.skip(8)) == verdict);
}

} // verus!
