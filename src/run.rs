use vstd::prelude::*;
use crate::authorize::{allow_list_lookups, authorize, authorized_by};
use crate::config::{final_argv, Config};
use crate::digest::{hex_matches, sha512_of, verify_digest};
use crate::error::ElewrapError;
use crate::identity::{capture_calls, captured, CallerIdentity};
use crate::privilege::{drop_privileges, dropped_to, transition_calls};
use crate::process::{changes_privilege, initial_credentials, Call, Credentials, Process};

verus! {

/// The digest check is passed: none is configured, or the contents read from
/// the target executable have the configured digest.
pub open spec fn digest_accepted(expected: Option<String>, contents: Option<Vec<u8>>) -> bool {
    match expected {
        None => true,
        Some(e) => contents matches Some(c) && hex_matches(sha512_of(c@), e@),
    }
}

/// The first calls of a run that reached the authorization: the caller's
/// identity is read, then the privilege transition to `target` goes through.
pub open spec fn run_prefix(
    caller_uid: u32,
    supplementary: Seq<u32>,
    caller_gid: u32,
    target: Seq<char>,
    uid: u32,
    gid: u32,
) -> Seq<Call> {
    capture_calls(caller_uid, supplementary, caller_gid) + transition_calls(target, uid, gid)
}

/// A run that passed the configuration check, the caller capture, the digest
/// check and the privilege transition, then looked up the allow-lists and
/// decided `verdict` for the caller it had captured at the start.
pub open spec fn reached_authorization(
    config: &Config,
    contents: Option<Vec<u8>>,
    calls: Seq<Call>,
    creds: Credentials,
    verdict: bool,
) -> bool {
    &&& config.is_valid()
    &&& digest_accepted(config.target_digest, contents)
    &&& calls.len() >= 8
    &&& exists|caller_uid: u32, supplementary: Seq<u32>, caller_gid: u32, uid: u32, gid: u32|
        {
            &&& calls.take(8) == #[trigger] run_prefix(
                caller_uid,
                supplementary,
                caller_gid,
                config.target_user@,
                uid,
                gid,
            )
            &&& dropped_to(creds, config.target_user@, uid, gid)
            &&& allow_list_lookups(config, calls.skip(8))
            &&& authorized_by(config, caller_uid, supplementary.push(caller_gid), calls.skip(8))
                == verdict
        }
}

/// Runs every stage before the target is executed, in order: checks the
/// configuration, captures the caller, checks the digest of the target
/// executable against `contents` (what was read from it, `None` when it could
/// not be read), drops privileges to the target user, and authorizes the
/// captured caller. On success it returns the argument vector to execute; on
/// failure the target must not run.
pub fn prepare(
    config: &Config,
    p: &mut Process,
    contents: Option<Vec<u8>>,
    args: &Vec<String>,
) -> (r: Result<Vec<String>, ElewrapError>)
    requires
        old(p).credentials() == initial_credentials(),
        old(p).calls() == Seq::<Call>::empty(),
    ensures
        (r == Err::<Vec<String>, ElewrapError>(ElewrapError::Configuration)) <==> !config.is_valid(),
        !config.is_valid() ==> final(p).credentials() == initial_credentials(),
        !config.is_valid() ==> final(p).calls() == Seq::<Call>::empty(),
        config.is_valid() && config.target_digest is Some && contents is None ==> r == Err::<
            Vec<String>,
            ElewrapError,
        >(ElewrapError::Io),
        config.is_valid() && contents is Some && !digest_accepted(config.target_digest, contents)
            ==> r == Err::<Vec<String>, ElewrapError>(ElewrapError::Integrity) || r == Err::<
            Vec<String>,
            ElewrapError,
        >(ElewrapError::Io),
        !digest_accepted(config.target_digest, contents) ==> r is Err && final(p).credentials()
            == initial_credentials(),
        !digest_accepted(config.target_digest, contents) ==> forall|i: int|
            0 <= i < final(p).calls().len() ==> !changes_privilege(#[trigger] final(p).calls()[i]),
        r matches Ok(argv) ==> argv@ == final_argv(
            config.target_command@,
            config.forward_arguments,
            args@,
        ),
        r is Ok ==> reached_authorization(config, contents, final(p).calls(), final(p).credentials(), true),
        r == Err::<Vec<String>, ElewrapError>(ElewrapError::Authorization) ==> reached_authorization(
            config,
            contents,
            final(p).calls(),
            final(p).credentials(),
            false,
        ),
        r != Err::<Vec<String>, ElewrapError>(ElewrapError::Exec),
{
    if config.validate().is_err() {
        return Err(ElewrapError::Configuration);
    }
    let caller = match CallerIdentity::capture(p) {
        Ok(c) => c,
        Err(e) => {
            proof {
                let u = choose|u: u32| p.calls() == Seq::<Call>::empty() + #[trigger] crate::identity::failed_capture_calls(u);
                assert(p.calls() =~= crate::identity::failed_capture_calls(u));
            }
            return Err(e);
        },
    };
    let ghost (sup, cg) = choose|sup: Seq<u32>, gid: u32|
        {
            &&& caller.gids@ == sup.push(gid)
            &&& p.calls() == Seq::<Call>::empty() + #[trigger] capture_calls(caller.uid, sup, gid)
        };
    assert(p.calls() =~= capture_calls(caller.uid, sup, cg));
    match &config.target_digest {
        Some(expected) => {
            match &contents {
                Some(c) => {
                    if verify_digest(c, expected.as_str()).is_err() {
                        return Err(ElewrapError::Integrity);
                    }
                },
                None => {
                    return Err(ElewrapError::Io);
                },
            }
        },
        None => {},
    }
    let (uid, gid) = match drop_privileges(p, config.target_user.as_str()) {
        Ok(ids) => ids,
        Err(e) => {
            return Err(e);
        },
    };
    let ghost prefix = p.calls();
    assert(prefix =~= run_prefix(caller.uid, sup, cg, config.target_user@, uid, gid));
    let verdict = authorize(p, &caller, config);
    proof {
        assert(p.calls().take(8) == prefix);
    }
    match verdict {
        Ok(()) => Ok(config.command_line(args)),
        Err(e) => Err(e),
    }
}

} // verus!
