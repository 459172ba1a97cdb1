use elewrap::authorize::{authorize, contains_id, is_authorized};
use elewrap::config::{parse_flag, parse_names, split_list, Config};
use elewrap::digest::{digest_matches, hex_digit_value, verify_digest};
use elewrap::error::ElewrapError;
use elewrap::identity::CallerIdentity;
use elewrap::process::Process;
use elewrap::run::prepare;

const ABC_SHA512: &str = "ddaf35a193617abacc417349ae20413112e6fa4e89a97ea20a9eeee64b55d39a2192992a274fc1a836ba3c23a3feebbd454d4423643ce80e2a9ac94fa54ca49f";

fn strings(xs: &[&str]) -> Vec<String> {
    xs.iter().map(|x| x.to_string()).collect()
}

fn config(command: &[&str], digest: Option<&str>, forward: bool) -> Config {
    Config {
        target_user: "elewrap_no_such_user_for_tests".to_string(),
        allowed_users: Vec::new(),
        allowed_groups: Vec::new(),
        target_command: strings(command),
        target_digest: digest.map(|d| d.to_string()),
        forward_arguments: forward,
    }
}

#[test]
fn relative_command_is_a_configuration_error() {
    let c = config(&["bin/true"], None, false);
    assert_eq!(c.validate(), Err(ElewrapError::Configuration));
    let mut p = Process::at_start();
    assert_eq!(prepare(&c, &mut p, None, &Vec::new()), Err(ElewrapError::Configuration));
}

#[test]
fn empty_command_is_a_configuration_error() {
    let c = config(&[], None, false);
    assert_eq!(c.validate(), Err(ElewrapError::Configuration));
    let c = config(&[""], None, false);
    assert_eq!(c.validate(), Err(ElewrapError::Configuration));
}

#[test]
fn absolute_command_is_valid() {
    let c = config(&["/bin/echo", "hello"], None, false);
    assert_eq!(c.validate(), Ok(()));
}

#[test]
fn unreadable_target_is_an_io_error() {
    let c = config(&["/bin/echo"], Some(ABC_SHA512), false);
    let mut p = Process::at_start();
    assert_eq!(prepare(&c, &mut p, None, &Vec::new()), Err(ElewrapError::Io));
}

#[test]
fn digest_mismatch_stops_before_the_privilege_drop() {
    let c = config(&["/bin/echo"], Some(ABC_SHA512), false);
    let mut p = Process::at_start();
    let r = prepare(&c, &mut p, Some(b"abd".to_vec()), &Vec::new());
    assert_eq!(r, Err(ElewrapError::Integrity));
    assert!(r.unwrap_err().message().contains("integrity"));
}

#[test]
fn unknown_target_user_is_an_identity_error() {
    let c = config(&["/bin/echo"], Some(ABC_SHA512), false);
    let mut p = Process::at_start();
    let r = prepare(&c, &mut p, Some(b"abc".to_vec()), &Vec::new());
    assert_eq!(r, Err(ElewrapError::IdentityResolution));
    let c = config(&["/bin/echo"], None, false);
    let mut p = Process::at_start();
    assert_eq!(prepare(&c, &mut p, None, &Vec::new()), Err(ElewrapError::IdentityResolution));
}

#[test]
fn digest_of_known_input_matches_in_either_case() {
    assert_eq!(verify_digest(&b"abc".to_vec(), ABC_SHA512), Ok(()));
    let upper = ABC_SHA512.to_uppercase();
    assert_eq!(verify_digest(&b"abc".to_vec(), &upper), Ok(()));
}

#[test]
fn digest_of_other_input_is_an_integrity_error() {
    assert_eq!(verify_digest(&b"abd".to_vec(), ABC_SHA512), Err(ElewrapError::Integrity));
    assert_eq!(verify_digest(&b"abc".to_vec(), ""), Err(ElewrapError::Integrity));
    assert_eq!(verify_digest(&b"abc".to_vec(), &ABC_SHA512[..126]), Err(ElewrapError::Integrity));
}

#[test]
fn digest_comparison_reads_hex_pairs() {
    assert!(digest_matches(&vec![0xab, 0x01], "ab01"));
    assert!(digest_matches(&vec![0xab, 0x01], "AB01"));
    assert!(!digest_matches(&vec![0xab, 0x01], "ba01"));
    assert!(!digest_matches(&vec![0xab, 0x01], "ab0"));
    assert!(!digest_matches(&vec![0xab], "ag"));
    assert!(digest_matches(&vec![], ""));
}

#[test]
fn hex_digits_have_their_values() {
    assert_eq!(hex_digit_value('0'), Some(0));
    assert_eq!(hex_digit_value('9'), Some(9));
    assert_eq!(hex_digit_value('a'), Some(10));
    assert_eq!(hex_digit_value('F'), Some(15));
    assert_eq!(hex_digit_value('g'), None);
    assert_eq!(hex_digit_value('/'), None);
}

#[test]
fn caller_in_allowed_users_is_authorized() {
    assert!(is_authorized(1000, &vec![100], &vec![None, Some(1000)], &vec![]));
}

#[test]
fn caller_in_allowed_group_is_authorized() {
    assert!(is_authorized(1000, &vec![100, 27], &vec![Some(0)], &vec![None, Some(27)]));
}

#[test]
fn caller_in_neither_list_is_refused() {
    assert!(!is_authorized(1000, &vec![100, 27], &vec![Some(0), None], &vec![Some(4), None]));
    assert!(!is_authorized(1000, &vec![100], &vec![], &vec![]));
    assert!(ElewrapError::Authorization.message().contains("authorization"));
}

#[test]
fn empty_allow_lists_refuse_everyone() {
    let c = config(&["/bin/echo"], None, false);
    let caller = CallerIdentity::new(0, vec![0], 0);
    let mut p = Process::at_start();
    assert!(matches!(authorize(&mut p, &caller, &c), Err(ElewrapError::Authorization)));
}

#[test]
fn unresolvable_allowed_names_match_nobody() {
    let mut c = config(&["/bin/echo"], None, false);
    c.allowed_users = strings(&["elewrap_no_such_user_for_tests"]);
    c.allowed_groups = strings(&["elewrap_no_such_group_for_tests"]);
    let caller = CallerIdentity::new(0, vec![0], 0);
    let mut p = Process::at_start();
    assert!(matches!(authorize(&mut p, &caller, &c), Err(ElewrapError::Authorization)));
}

#[test]
fn contains_id_finds_members() {
    assert!(contains_id(&vec![3, 5, 7], 5));
    assert!(!contains_id(&vec![3, 5, 7], 4));
    assert!(!contains_id(&vec![], 4));
}

#[test]
fn caller_identity_keeps_primary_group_last() {
    let c = CallerIdentity::new(1000, vec![4, 27], 100);
    assert_eq!(c.uid, 1000);
    assert_eq!(c.gids, vec![4, 27, 100]);
}

#[test]
fn command_runs_with_configured_arguments_only() {
    let c = config(&["/bin/echo", "a", "b"], None, false);
    assert_eq!(c.command_line(&strings(&["--flag", "x"])), strings(&["/bin/echo", "a", "b"]));
}

#[test]
fn forwarded_arguments_follow_the_command() {
    let c = config(&["/bin/echo", "a"], None, true);
    assert_eq!(
        c.command_line(&strings(&["--flag", "x"])),
        strings(&["/bin/echo", "a", "--flag", "x"])
    );
    assert_eq!(c.command_line(&Vec::new()), strings(&["/bin/echo", "a"]));
}

#[test]
fn lists_split_at_commas() {
    assert_eq!(split_list("alice,bob", ','), strings(&["alice", "bob"]));
    assert_eq!(split_list("a,,b,", ','), strings(&["a", "", "b", ""]));
    assert_eq!(split_list("", ','), strings(&[""]));
    assert_eq!(split_list("/bin/echo\thi", '\t'), strings(&["/bin/echo", "hi"]));
}

#[test]
fn absent_list_names_nobody() {
    assert_eq!(parse_names(None), Vec::<String>::new());
    assert_eq!(parse_names(Some("wheel,adm")), strings(&["wheel", "adm"]));
}

#[test]
fn forwarding_flag_accepts_true_and_one() {
    assert!(parse_flag(Some("true")));
    assert!(parse_flag(Some("1")));
    assert!(!parse_flag(Some("yes")));
    assert!(!parse_flag(Some("TRUE")));
    assert!(!parse_flag(Some("")));
    assert!(!parse_flag(None));
}

#[test]
fn settings_build_the_configuration() {
    let c = Config::from_settings(
        "svc",
        Some("alice,bob"),
        None,
        strings(&["/bin/echo"]),
        Some("ab"),
        Some("1"),
    );
    assert_eq!(c.target_user, "svc");
    assert_eq!(c.allowed_users, strings(&["alice", "bob"]));
    assert!(c.allowed_groups.is_empty());
    assert_eq!(c.target_digest, Some("ab".to_string()));
    assert!(c.forward_arguments);
}

#[test]
fn caller_identity_can_be_read() {
    let mut p = Process::at_start();
    let c = CallerIdentity::capture(&mut p).unwrap();
    assert!(!c.gids.is_empty());
}

#[test]
fn every_error_names_its_stage() {
    assert!(ElewrapError::Authorization.message().starts_with("authorization"));
    assert!(ElewrapError::Integrity.message().starts_with("integrity"));
    assert!(ElewrapError::Configuration.message().contains("configuration"));
    assert!(ElewrapError::IdentityResolution.message().contains("identity"));
    assert!(ElewrapError::Io.message().contains("io"));
    assert!(ElewrapError::Privilege.message().contains("privilege"));
    assert!(ElewrapError::Exec.message().contains("exec"));
}
