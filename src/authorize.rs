use vstd::prelude::*;
use crate::config::Config;
use crate::error::ElewrapError;
use crate::identity::CallerIdentity;
use crate::process::{group_by_name, user_by_name, Call, Process};

verus! {

/// The caller may proceed when a resolved allowed user id is the caller's
/// user id, or a resolved allowed group id is among the caller's group ids.
/// Names that did not resolve (`None`) match nobody.
pub open spec fn authorized(
    uid: u32,
    gids: Seq<u32>,
    user_ids: Seq<Option<u32>>,
    group_ids: Seq<Option<u32>>,
) -> bool {
    ||| exists|i: int| 0 <= i < user_ids.len() && user_ids[i] == Some(uid)
    ||| exists|i: int, j: int|
        0 <= i < group_ids.len() && 0 <= j < gids.len() && group_ids[i] == Some(gids[j])
}

/// The user id that a user lookup found.
pub open spec fn uid_found(c: Call) -> Option<u32> {
    match c {
        Call::LookupUser(_, Some((uid, _))) => Some(uid),
        _ => None,
    }
}

/// The group id that a group lookup found.
pub open spec fn gid_found(c: Call) -> Option<u32> {
    match c {
        Call::LookupGroup(_, gid) => gid,
        _ => None,
    }
}

/// `calls` are one user lookup for each of `names`, in order.
pub open spec fn user_lookups(names: Seq<String>, calls: Seq<Call>) -> bool {
    &&& calls.len() == names.len()
    &&& forall|i: int|
        0 <= i < names.len() ==> (#[trigger] calls[i] matches Call::LookupUser(n, _) && n
            == names[i]@)
}

/// `calls` are one group lookup for each of `names`, in order.
pub open spec fn group_lookups(names: Seq<String>, calls: Seq<Call>) -> bool {
    &&& calls.len() == names.len()
    &&& forall|i: int|
        0 <= i < names.len() ==> (#[trigger] calls[i] matches Call::LookupGroup(n, _) && n
            == names[i]@)
}

/// `calls` look up every allowed user, then every allowed group.
pub open spec fn allow_list_lookups(config: &Config, calls: Seq<Call>) -> bool {
    let n = config.allowed_users@.len() as int;
    &&& n <= calls.len()
    &&& user_lookups(config.allowed_users@, calls.take(n))
    &&& group_lookups(config.allowed_groups@, calls.skip(n))
}

/// The decision over what the allow-list lookups in `calls` found.
pub open spec fn authorized_by(config: &Config, uid: u32, gids: Seq<u32>, calls: Seq<Call>) -> bool {
    let n = config.allowed_users@.len() as int;
    authorized(
        uid,
        gids,
        calls.take(n).map_values(|c: Call| uid_found(c)),
        calls.skip(n).map_values(|c: Call| gid_found(c)),
    )
}

/// Whether `x` is among `xs`.
pub fn contains_id(xs: &Vec<u32>, x: u32) -> (r: bool)
    ensures
        r == exists|j: int| 0 <= j < xs@.len() && xs@[j] == x,
{
    let mut j: usize = 0;
    while j < xs.len()
        invariant
            j <= xs@.len(),
            forall|k: int| 0 <= k < j ==> xs@[k] != x,
        decreases xs@.len() - j,
    {
        if xs[j] == x {
            return true;
        }
        j = j + 1;
    }
    false
}

/// The authorization decision over already resolved allow-lists.
pub fn is_authorized(
    uid: u32,
    gids: &Vec<u32>,
    user_ids: &Vec<Option<u32>>,
    group_ids: &Vec<Option<u32>>,
) -> (r: bool)
    ensures
        r == authorized(uid, gids@, user_ids@, group_ids@),
{
    let mut i: usize = 0;
    while i < user_ids.len()
        invariant
            i <= user_ids@.len(),
            forall|k: int| 0 <= k < i ==> user_ids@[k] != Some(uid),
        decreases user_ids@.len() - i,
    {
        if user_ids[i] == Some(uid) {
            return true;
        }
        i = i + 1;
    }
    let mut i: usize = 0;
    while i < group_ids.len()
        invariant
            i <= group_ids@.len(),
            forall|k: int| 0 <= k < user_ids@.len() ==> user_ids@[k] != Some(uid),
            forall|k: int, j: int|
                0 <= k < i && 0 <= j < gids@.len() ==> group_ids@[k] != Some(gids@[j]),
        decreases group_ids@.len() - i,
    {
        match group_ids[i] {
            Some(g) => {
                if contains_id(gids, g) {
                    return true;
                }
            },
            None => {},
        }
        i = i + 1;
    }
    false
}

/// Looks up each allowed user name; entry `i` is the user id found for
/// name `i`.
pub fn resolve_users(p: &mut Process, names: &Vec<String>) -> (r: Vec<Option<u32>>)
    ensures
        final(p).credentials() == old(p).credentials(),
        final(p).calls().len() >= old(p).calls().len(),
        final(p).calls().take(old(p).calls().len() as int) == old(p).calls(),
        user_lookups(names@, final(p).calls().skip(old(p).calls().len() as int)),
        r@ == final(p).calls().skip(old(p).calls().len() as int).map_values(
            |c: Call| uid_found(c),
        ),
{
    let ghost start = p.calls();
    let ghost k = start.len() as int;
    let mut out: Vec<Option<u32>> = Vec::new();
    let mut i: usize = 0;
    assert(p.calls().skip(k) =~= Seq::<Call>::empty());
    assert(p.calls().take(k) =~= start);
    while i < names.len()
        invariant
            i <= names@.len(),
            p.credentials() == old(p).credentials(),
            start == old(p).calls(),
            k == start.len(),
            p.calls().len() == k + i,
            p.calls().take(k) == start,
            user_lookups(names@.take(i as int), p.calls().skip(k)),
            out@ == p.calls().skip(k).map_values(|c: Call| uid_found(c)),
        decreases names@.len() - i,
    {
        let ghost before = p.calls();
        let found = user_by_name(p, names[i].as_str());
        let id = match found {
            Some((uid, _)) => Some(uid),
            None => None,
        };
        out.push(id);
        proof {
            assert(p.calls().take(k) =~= before.take(k));
            assert(p.calls().skip(k) =~= before.skip(k).push(Call::LookupUser(names@[i as int]@, found)));
            assert(names@.take(i + 1) =~= names@.take(i as int).push(names@[i as int]));
            assert(out@ =~= p.calls().skip(k).map_values(|c: Call| uid_found(c)));
        }
        i = i + 1;
    }
    assert(names@.take(names@.len() as int) =~= names@);
    out
}

/// Looks up each allowed group name; entry `i` is the group id found for
/// name `i`.
pub fn resolve_groups(p: &mut Process, names: &Vec<String>) -> (r: Vec<Option<u32>>)
    ensures
        final(p).credentials() == old(p).credentials(),
        final(p).calls().len() >= old(p).calls().len(),
        final(p).calls().take(old(p).calls().len() as int) == old(p).calls(),
        group_lookups(names@, final(p).calls().skip(old(p).calls().len() as int)),
        r@ == final(p).calls().skip(old(p).calls().len() as int).map_values(
            |c: Call| gid_found(c),
        ),
{
    let ghost start = p.calls();
    let ghost k = start.len() as int;
    let mut out: Vec<Option<u32>> = Vec::new();
    let mut i: usize = 0;
    assert(p.calls().skip(k) =~= Seq::<Call>::empty());
    assert(p.calls().take(k) =~= start);
    while i < names.len()
        invariant
            i <= names@.len(),
            p.credentials() == old(p).credentials(),
            start == old(p).calls(),
            k == start.len(),
            p.calls().len() == k + i,
            p.calls().take(k) == start,
            group_lookups(names@.take(i as int), p.calls().skip(k)),
            out@ == p.calls().skip(k).map_values(|c: Call| gid_found(c)),
        decreases names@.len() - i,
    {
        let ghost before = p.calls();
        let found = group_by_name(p, names[i].as_str());
        out.push(found);
        proof {
            assert(p.calls().take(k) =~= before.take(k));
            assert(p.calls().skip(k) =~= before.skip(k).push(Call::LookupGroup(names@[i as int]@, found)));
            assert(names@.take(i + 1) =~= names@.take(i as int).push(names@[i as int]));
            assert(out@ =~= p.calls().skip(k).map_values(|c: Call| gid_found(c)));
        }
        i = i + 1;
    }
    assert(names@.take(names@.len() as int) =~= names@);
    out
}

/// Decides whether the caller may run the target: looks up every allowed
/// user, then every allowed group, as they stand now, and decides over what
/// was found.
pub fn authorize(p: &mut Process, caller: &CallerIdentity, config: &Config) -> (r: Result<
    (),
    ElewrapError,
>)
    ensures
        final(p).credentials() == old(p).credentials(),
        final(p).calls().len() >= old(p).calls().len(),
        final(p).calls().take(old(p).calls().len() as int) == old(p).calls(),
        allow_list_lookups(config, final(p).calls().skip(old(p).calls().len() as int)),
        r is Ok <==> authorized_by(
            config,
            caller.uid,
            caller.gids@,
            final(p).calls().skip(old(p).calls().len() as int),
        ),
        r is Err ==> r == Err::<(), ElewrapError>(ElewrapError::Authorization),
        config.allowed_users@.len() == 0 && config.allowed_groups@.len() == 0 ==> r is Err,
{
    let ghost start = p.calls();
    let ghost k = start.len() as int;
    let us = resolve_users(p, &config.allowed_users);
    let ghost mid = p.calls();
    let gs = resolve_groups(p, &config.allowed_groups);
    proof {
        let n = config.allowed_users@.len() as int;
        let all = p.calls().skip(k);
        assert(mid.len() == k + n);
        assert(p.calls().take(k) =~= mid.take(k));
        assert(all.take(n) =~= mid.skip(k));
        assert(all.skip(n) =~= p.calls().skip(mid.len() as int));
    }
    if is_authorized(caller.uid, &caller.gids, &us, &gs) {
        Ok(())
    } else {
        Err(ElewrapError::Authorization)
    }
}

} // verus!
