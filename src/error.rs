use vstd::prelude::*;

verus! {

/// Every way in which a run of the wrapper can stop before the target runs.
#[derive(Debug, Clone, Copy, PartialEq, Eq, Structural)]
pub enum ElewrapError {
    /// The static configuration is malformed.
    Configuration,
    /// The target identity does not resolve to a user.
    IdentityResolution,
    /// A file or the process credentials could not be read.
    Io,
    /// The target executable's digest differs from the configured one.
    Integrity,
    /// The operating system refused a step of the privilege transition.
    Privilege,
    /// The caller is in neither allow-list.
    Authorization,
    /// The target command could not be launched.
    Exec,
}

/// The diagnostic line for each error; each begins with the name of the
/// stage that failed.
pub open spec fn message_text(e: ElewrapError) -> Seq<char> {
    match e {
        ElewrapError::Configuration => "configuration error: the target command must use an absolute path"@,
        ElewrapError::IdentityResolution => "identity resolution error: invalid target user"@,
        ElewrapError::Io => "io error: could not read the target executable or the caller's groups"@,
        ElewrapError::Integrity => "integrity error: target executable failed sha512 digest verification"@,
        ElewrapError::Privilege => "privilege error: failed to drop privileges"@,
        ElewrapError::Authorization => "authorization error: unauthorized"@,
        ElewrapError::Exec => "exec error: could not execute the target command"@,
    }
}

impl ElewrapError {
    /// One diagnostic line naming the stage that failed.
    pub fn message(&self) -> (r: &'static str)
        ensures
            r@ == message_text(*self),
    {
        match self {
            ElewrapError::Configuration => "configuration error: the target command must use an absolute path",
            ElewrapError::IdentityResolution => "identity resolution error: invalid target user",
            ElewrapError::Io => "io error: could not read the target executable or the caller's groups",
            ElewrapError::Integrity => "integrity error: target executable failed sha512 digest verification",
            ElewrapError::Privilege => "privilege error: failed to drop privileges",
            ElewrapError::Authorization => "authorization error: unauthorized",
            ElewrapError::Exec => "exec error: could not execute the target command",
        }
    }
}

} // verus!
