use vstd::prelude::*;
use nix::NixPath;

verus! {

#[verifier::external_type_specification]
#[verifier::external_body]
pub struct ExErrno(nix::errno::Errno);

/// The supplementary group list of the process, as far as this run changed it.
pub enum GroupList {
    /// The list the process started with (the caller's).
    Inherited,
    /// The empty list.
    Cleared,
    /// The list that initgroups builds for the named user and group.
    InitializedFor(Seq<char>, u32),
}

/// The credentials of the process, as far as this run changed them. `None`
/// stands for the ids the process started with.
pub struct Credentials {
    /// Real, effective and saved user id.
    pub uids: Option<(u32, u32, u32)>,
    /// Real, effective and saved group id.
    pub gids: Option<(u32, u32, u32)>,
    /// The supplementary groups.
    pub groups: GroupList,
}

/// One call to the operating system, with what it was given and what it
/// answered (`true` for success where it answers nothing else).
pub enum Call {
    /// getuid, and the real user id it returned.
    RealUid(u32),
    /// getgroups, and the supplementary group ids, or `None` on failure.
    AccessGroups(Option<Seq<u32>>),
    /// getgid, and the real group id it returned.
    RealGid(u32),
    /// A user lookup by name, and the user id and primary group id found.
    LookupUser(Seq<char>, Option<(u32, u32)>),
    /// A group lookup by name, and the group id found.
    LookupGroup(Seq<char>, Option<u32>),
    /// setgroups with an empty list.
    ClearGroups(bool),
    /// initgroups for a user name and group id.
    InitGroups(Seq<char>, u32, bool),
    /// setresgid with the same id three times.
    SetGids(u32, bool),
    /// setresuid with the same id three times.
    SetUids(u32, bool),
}

/// The process running the wrapper: its credentials, and the calls to the
/// operating system made so far, in order. It starts elevated, with no call
/// made.
pub struct Process {
    creds: Ghost<Credentials>,
    calls: Ghost<Seq<Call>>,
}

/// The credentials at start.
pub open spec fn initial_credentials() -> Credentials {
    Credentials { uids: None, gids: None, groups: GroupList::Inherited }
}

/// Whether a call changes the credentials of the process.
pub open spec fn changes_privilege(c: Call) -> bool {
    ||| c is ClearGroups
    ||| c is InitGroups
    ||| c is SetGids
    ||| c is SetUids
}

impl Process {
    pub closed spec fn credentials(&self) -> Credentials {
        self.creds@
    }

    pub closed spec fn calls(&self) -> Seq<Call> {
        self.calls@
    }

    /// The process as it starts: elevated, with no call made.
    pub fn at_start() -> (r: Process)
        ensures
            r.credentials() == initial_credentials(),
            r.calls() == Seq::<Call>::empty(),
    {
        Process { creds: Ghost(initial_credentials()), calls: Ghost(Seq::empty()) }
    }
}

/// Relies on `nix::unistd::setgroups` with an empty list: clears the
/// supplementary groups of the process.
#[verifier::external_body]
pub(crate) fn clear_groups(p: &mut Process) -> (r: Result<(), nix::errno::Errno>)
    ensures
        final(p).calls() == old(p).calls().push(Call::ClearGroups(r is Ok)),
        r is Ok ==> final(p).credentials() == (Credentials {
            groups: GroupList::Cleared,
            ..old(p).credentials()
        }),
{
    nix::unistd::setgroups(&[])
}

/// Relies on `nix::unistd::initgroups`: sets the supplementary groups to
/// those of user `name` together with `gid`. A name holding a NUL byte is
/// refused by `NixPath::with_nix_path`.
#[verifier::external_body]
pub(crate) fn init_groups(p: &mut Process, name: &str, gid: u32) -> (r: Result<(), nix::errno::Errno>)
    ensures
        final(p).calls() == old(p).calls().push(Call::InitGroups(name@, gid, r is Ok)),
        r is Ok ==> final(p).credentials() == (Credentials {
            groups: GroupList::InitializedFor(name@, gid),
            ..old(p).credentials()
        }),
{
    match name.with_nix_path(|c| nix::unistd::initgroups(c, nix::unistd::Gid::from_raw(gid))) {
        Ok(r) => r,
        Err(e) => Err(e),
    }
}

/// Relies on `nix::unistd::setresgid`: sets real, effective and saved group id.
#[verifier::external_body]
pub(crate) fn set_all_gids(p: &mut Process, gid: u32) -> (r: Result<(), nix::errno::Errno>)
    ensures
        final(p).calls() == old(p).calls().push(Call::SetGids(gid, r is Ok)),
        r is Ok ==> final(p).credentials() == (Credentials {
            gids: Some((gid, gid, gid)),
            ..old(p).credentials()
        }),
{
    let g = nix::unistd::Gid::from_raw(gid);
    nix::unistd::setresgid(g, g, g)
}

/// Relies on `nix::unistd::setresuid`: sets real, effective and saved user id.
#[verifier::external_body]
pub(crate) fn set_all_uids(p: &mut Process, uid: u32) -> (r: Result<(), nix::errno::Errno>)
    ensures
        final(p).calls() == old(p).calls().push(Call::SetUids(uid, r is Ok)),
        r is Ok ==> final(p).credentials() == (Credentials {
            uids: Some((uid, uid, uid)),
            ..old(p).credentials()
        }),
{
    let u = nix::unistd::Uid::from_raw(uid);
    nix::unistd::setresuid(u, u, u)
}

/// Relies on `nix::unistd::getuid`: the real user id of the process.
#[verifier::external_body]
pub(crate) fn real_user_id(p: &mut Process) -> (r: u32)
    ensures
        final(p).calls() == old(p).calls().push(Call::RealUid(r)),
        final(p).credentials() == old(p).credentials(),
{
    nix::unistd::getuid().as_raw()
}

/// Relies on `nix::unistd::getgid`: the real group id of the process.
#[verifier::external_body]
pub(crate) fn real_group_id(p: &mut Process) -> (r: u32)
    ensures
        final(p).calls() == old(p).calls().push(Call::RealGid(r)),
        final(p).credentials() == old(p).credentials(),
{
    nix::unistd::getgid().as_raw()
}

/// The ids of an optional list of group ids.
pub open spec fn ids_view(r: Option<Vec<u32>>) -> Option<Seq<u32>> {
    match r {
        Some(v) => Some(v@),
        None => None,
    }
}

/// Relies on `nix::unistd::getgroups`: the supplementary group ids of the
/// process, or `None` when the call fails.
#[verifier::external_body]
pub(crate) fn access_group_ids(p: &mut Process) -> (r: Option<Vec<u32>>)
    ensures
        final(p).calls() == old(p).calls().push(Call::AccessGroups(ids_view(r))),
        final(p).credentials() == old(p).credentials(),
{
    nix::unistd::getgroups().ok().map(|gs| gs.iter().map(|g| g.as_raw()).collect())
}

/// Relies on `users::get_user_by_name` (getpwnam_r): the user id and primary
/// group id of the named user, or `None` when no such user is known.
#[verifier::external_body]
pub(crate) fn user_by_name(p: &mut Process, name: &str) -> (r: Option<(u32, u32)>)
    ensures
        final(p).calls() == old(p).calls().push(Call::LookupUser(name@, r)),
        final(p).credentials() == old(p).credentials(),
{
    users::get_user_by_name(name).map(|u| (u.uid(), u.primary_group_id()))
}

/// Relies on `users::get_group_by_name` (getgrnam_r): the id of the named
/// group, or `None` when no such group is known.
#[verifier::external_body]
pub(crate) fn group_by_name(p: &mut Process, name: &str) -> (r: Option<u32>)
    ensures
        final(p).calls() == old(p).calls().push(Call::LookupGroup(name@, r)),
        final(p).credentials() == old(p).credentials(),
{
    users::get_group_by_name(name).map(|g| g.gid())
}

} // verus!
