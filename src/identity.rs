use vstd::prelude::*;
use crate::error::ElewrapError;
use crate::process::{access_group_ids, real_group_id, real_user_id, Call, Process};

verus! {

/// Who invoked the wrapper, as the operating system reported it at start.
pub struct CallerIdentity {
    /// The real user id.
    pub uid: u32,
    /// The supplementary group ids that getgroups reported, followed by the
    /// real group id.
    pub gids: Vec<u32>,
}

/// The calls that read the caller's identity: the real user id, the
/// supplementary group ids and the real group id, in that order.
pub open spec fn capture_calls(uid: u32, supplementary: Seq<u32>, gid: u32) -> Seq<Call> {
    seq![Call::RealUid(uid), Call::AccessGroups(Some(supplementary)), Call::RealGid(gid)]
}

/// The calls of a capture whose reading of the group ids failed.
pub open spec fn failed_capture_calls(uid: u32) -> Seq<Call> {
    seq![Call::RealUid(uid), Call::AccessGroups(None)]
}

/// `c` is the identity read by the calls that lead from `before` to `after`.
pub open spec fn captured(c: CallerIdentity, before: Seq<Call>, after: Seq<Call>) -> bool {
    exists|supplementary: Seq<u32>, gid: u32|
        {
            &&& c.gids@ == supplementary.push(gid)
            &&& after == before + #[trigger] capture_calls(c.uid, supplementary, gid)
        }
}

impl CallerIdentity {
    /// Assembles an identity from the user id, the supplementary group ids
    /// and the real group id.
    pub fn new(uid: u32, supplementary: Vec<u32>, primary_gid: u32) -> (r: CallerIdentity)
        ensures
            r.uid == uid,
            r.gids@ == supplementary@.push(primary_gid),
    {
        let mut gids = supplementary;
        gids.push(primary_gid);
        CallerIdentity { uid, gids }
    }

    /// Reads the identity of the invoking process from its credentials.
    pub fn capture(p: &mut Process) -> (r: Result<CallerIdentity, ElewrapError>)
        ensures
            final(p).credentials() == old(p).credentials(),
            r matches Ok(c) ==> captured(c, old(p).calls(), final(p).calls()),
            r is Err ==> r == Err::<CallerIdentity, ElewrapError>(ElewrapError::Io),
            r is Err ==> exists|uid: u32|
                final(p).calls() == old(p).calls() + #[trigger] failed_capture_calls(uid),
    {
        let ghost start = p.calls();
        let uid = real_user_id(p);
        match access_group_ids(p) {
            Some(supplementary) => {
                let ghost sup = supplementary@;
                let gid = real_group_id(p);
                let c = CallerIdentity::new(uid, supplementary, gid);
                assert(p.calls() =~= start + capture_calls(c.uid, sup, gid));
                assert(captured(c, start, p.calls()));
                Ok(c)
            },
            None => {
                assert(p.calls() =~= start + failed_capture_calls(uid));
                Err(ElewrapError::Io)
            },
        }
    }
}

} // verus!
