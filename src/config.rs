use vstd::prelude::*;
use crate::error::ElewrapError;

verus! {

/// The wrapper's configuration, fixed before the process starts.
pub struct Config {
    /// The user the process becomes before anything else is decided.
    pub target_user: String,
    /// Names of users who may invoke the wrapper.
    pub allowed_users: Vec<String>,
    /// Names of groups whose members may invoke the wrapper.
    pub allowed_groups: Vec<String>,
    /// The program to run (an absolute path) followed by its fixed arguments.
    pub target_command: Vec<String>,
    /// The expected SHA-512 digest of the program, as hex digits.
    pub target_digest: Option<String>,
    /// Whether the caller's own arguments are appended to the command.
    pub forward_arguments: bool,
}

/// A path is absolute when it starts with `/`.
pub open spec fn is_absolute_path(s: Seq<char>) -> bool {
    s.len() > 0 && s[0] == '/'
}

/// The command of a well-formed configuration is non-empty and starts with
/// an absolute path.
pub open spec fn command_is_valid(cmd: Seq<String>) -> bool {
    cmd.len() > 0 && is_absolute_path(cmd[0]@)
}

/// The argument vector that is executed: the configured command, followed by
/// the caller's arguments when they are forwarded.
pub open spec fn final_argv(cmd: Seq<String>, forward: bool, args: Seq<String>) -> Seq<String> {
    if forward { cmd + args } else { cmd }
}

/// The pieces of `s` between occurrences of `d`, in order; there is one
/// more piece than there are occurrences of `d`.
pub open spec fn split_on(s: Seq<char>, d: char) -> Seq<Seq<char>>
    decreases s.len(),
{
    if s.len() == 0 {
        seq![Seq::<char>::empty()]
    } else {
        let rest = split_on(s.drop_last(), d);
        if s.last() == d {
            rest.push(Seq::<char>::empty())
        } else {
            rest.update(rest.len() - 1, rest.last().push(s.last()))
        }
    }
}

proof fn split_on_nonempty(s: Seq<char>, d: char)
    ensures
        split_on(s, d).len() >= 1,
    decreases s.len(),
{
    if s.len() > 0 {
        split_on_nonempty(s.drop_last(), d);
    }
}

/// Splits `s` at each occurrence of `d`.
pub fn split_list(s: &str, d: char) -> (r: Vec<String>)
    ensures
        r@.len() == split_on(s@, d).len(),
        forall|k: int| 0 <= k < r@.len() ==> #[trigger] r@[k]@ == split_on(s@, d)[k],
{
    let n: usize = s.unicode_len();
    let mut out: Vec<String> = Vec::new();
    let mut start: usize = 0;
    let mut i: usize = 0;
    while i < n
        invariant
            n == s@.len(),
            start <= i <= n,
            split_on(s@.take(i as int), d).len() == out@.len() + 1,
            forall|k: int|
                0 <= k < out@.len() ==> #[trigger] out@[k]@ == split_on(s@.take(i as int), d)[k],
            split_on(s@.take(i as int), d).last() == s@.subrange(start as int, i as int),
        decreases n - i,
    {
        let c = s.get_char(i);
        proof {
            let t = s@.take(i + 1);
            assert(t.drop_last() == s@.take(i as int));
            assert(t.last() == c);
            split_on_nonempty(s@.take(i as int), d);
        }
        if c == d {
            let piece: String = s.substring_char(start, i).to_owned();
            out.push(piece);
            start = i + 1;
            proof {
                assert(s@.subrange(start as int, i + 1) == Seq::<char>::empty());
            }
        } else {
            proof {
                assert(s@.subrange(start as int, i + 1) == s@.subrange(start as int, i as int).push(c));
            }
        }
        i = i + 1;
    }
    let last: String = s.substring_char(start, n).to_owned();
    out.push(last);
    proof {
        assert(s@.take(n as int) == s@);
    }
    out
}

/// The list that an optional comma-separated setting names; an absent
/// setting names nobody.
pub open spec fn listed_names(setting: Option<Seq<char>>) -> Seq<Seq<char>> {
    match setting {
        None => Seq::<Seq<char>>::empty(),
        Some(s) => split_on(s, ','),
    }
}

/// The characters of an optional setting.
pub open spec fn setting_view(setting: Option<&str>) -> Option<Seq<char>> {
    match setting {
        None => None,
        Some(s) => Some(s@),
    }
}

/// The argument-forwarding flag is on when its setting is `true` or `1`.
pub open spec fn flag_is_set(setting: Option<Seq<char>>) -> bool {
    setting == Some(seq!['t', 'r', 'u', 'e']) || setting == Some(seq!['1'])
}

/// Whether `s` spells exactly the characters of `word`.
fn spells(s: &str, word: &str) -> (r: bool)
    ensures
        r == (s@ == word@),
{
    let n: usize = s.unicode_len();
    if n != word.unicode_len() {
        return false;
    }
    let mut i: usize = 0;
    while i < n
        invariant
            n == s@.len(),
            n == word@.len(),
            i <= n,
            forall|k: int| 0 <= k < i ==> s@[k] == word@[k],
        decreases n - i,
    {
        if s.get_char(i) != word.get_char(i) {
            return false;
        }
        i = i + 1;
    }
    assert(s@ == word@);
    true
}

/// Reads the argument-forwarding setting.
pub fn parse_flag(setting: Option<&str>) -> (r: bool)
    ensures
        r == flag_is_set(setting_view(setting)),
{
    proof {
        reveal_strlit("true");
        reveal_strlit("1");
        assert("true"@ =~= seq!['t', 'r', 'u', 'e']);
        assert("1"@ =~= seq!['1']);
    }
    match setting {
        None => false,
        Some(s) => spells(s, "true") || spells(s, "1"),
    }
}

/// Reads an optional comma-separated list of names.
pub fn parse_names(setting: Option<&str>) -> (r: Vec<String>)
    ensures
        r@.len() == listed_names(setting_view(setting)).len(),
        forall|k: int|
            0 <= k < r@.len() ==> #[trigger] r@[k]@ == listed_names(setting_view(setting))[k],
{
    match setting {
        None => Vec::new(),
        Some(s) => split_list(s, ','),
    }
}

impl Config {
    /// Builds the configuration from its settings as text: the allow-lists
    /// are comma-separated, and argument forwarding is on for `true` or `1`.
    pub fn from_settings(
        target_user: &str,
        allowed_users: Option<&str>,
        allowed_groups: Option<&str>,
        target_command: Vec<String>,
        target_digest: Option<&str>,
        forward_arguments: Option<&str>,
    ) -> (r: Config)
        ensures
            r.target_user@ == target_user@,
            r.allowed_users@.len() == listed_names(setting_view(allowed_users)).len(),
            forall|k: int|
                0 <= k < r.allowed_users@.len() ==> #[trigger] r.allowed_users@[k]@
                    == listed_names(setting_view(allowed_users))[k],
            r.allowed_groups@.len() == listed_names(setting_view(allowed_groups)).len(),
            forall|k: int|
                0 <= k < r.allowed_groups@.len() ==> #[trigger] r.allowed_groups@[k]@
                    == listed_names(setting_view(allowed_groups))[k],
            r.target_command@ == target_command@,
            r.target_digest matches Some(d) ==> setting_view(target_digest) == Some(d@),
            r.target_digest is None <==> target_digest is None,
            r.forward_arguments == flag_is_set(setting_view(forward_arguments)),
    {
        let digest = match target_digest {
            Some(d) => Some(d.to_owned()),
            None => None,
        };
        Config {
            target_user: target_user.to_owned(),
            allowed_users: parse_names(allowed_users),
            allowed_groups: parse_names(allowed_groups),
            target_command,
            target_digest: digest,
            forward_arguments: parse_flag(forward_arguments),
        }
    }

    /// Well-formedness of the configuration.
    pub open spec fn is_valid(&self) -> bool {
        command_is_valid(self.target_command@)
    }

    /// Checks the configuration at the start of a run.
    pub fn validate(&self) -> (r: Result<(), ElewrapError>)
        ensures
            r is Ok <==> self.is_valid(),
            r is Err ==> r == Err::<(), ElewrapError>(ElewrapError::Configuration),
    {
        if self.target_command.len() == 0 {
            return Err(ElewrapError::Configuration);
        }
        let first: &str = self.target_command[0].as_str();
        if first.unicode_len() == 0 {
            return Err(ElewrapError::Configuration);
        }
        if first.get_char(0) != '/' {
            return Err(ElewrapError::Configuration);
        }
        Ok(())
    }

    /// Builds the argument vector to execute, the program path first.
    pub fn command_line(&self, args: &Vec<String>) -> (r: Vec<String>)
        ensures
            r@ == final_argv(
                self.target_command@,
                self.forward_arguments,
                args@,
            ),
    {
        let mut out: Vec<String> = Vec::new();
        let mut i: usize = 0;
        while i < self.target_command.len()
            invariant
                i <= self.target_command@.len(),
                out@ == self.target_command@.take(i as int),
            decreases self.target_command@.len() - i,
        {
            out.push(self.target_command[i].clone());
            proof {
                assert(self.target_command@.take(i + 1) == self.target_command@.take(i as int).push(
                    self.target_command@[i as int],
                ));
            }
            i = i + 1;
        }
        if self.forward_arguments {
            let mut j: usize = 0;
            while j < args.len()
                invariant
                    j <= args@.len(),
                    out@ == self.target_command@ + args@.take(j as int),
                decreases args@.len() - j,
            {
                out.push(args[j].clone());
                proof {
                    assert(self.target_command@ + args@.take(j + 1) == (self.target_command@
                        + args@.take(j as int)).push(args@[j as int]));
                }
                j = j + 1;
            }
            assert(args@.take(args@.len() as int) == args@);
        } else {
            assert(self.target_command@.take(self.target_command@.len() as int)
                == self.target_command@);
        }
        out
    }
}

} // verus!
