use vstd::prelude::*;

use crate::error::Error;
use crate::index::path::{compute_record_path, is_layout_name, record_path};
use crate::text::push_text;

verus! {

/// The 'git2' crate index management strategy type.
///
/// It manages the crate index using the `libgit2` library; the repository itself is held
/// by the caller, and this type holds the working directory of that repository.
#[derive(Debug, Clone)]
pub struct Git2Index {
    /// The working directory of the crate index's repository.
    pub(crate) path: String,
}

impl Git2Index {
    /// The working directory of the crate index's repository.
    pub closed spec fn spec_path(&self) -> Seq<char> {
        self.path@
    }

    /// Create a Git2Index instance for the repository whose working directory is `path`.
    pub fn new(path: String) -> (res: Result<Git2Index, Error>)
        ensures
            res matches Ok(index) && index.spec_path() == path@,
    {
        Ok(Git2Index { path })
    }

    /// The working directory of the crate index's repository.
    pub fn path(&self) -> (res: &str)
        ensures
            res@ == self.spec_path(),
    {
        self.path.as_str()
    }

    /// The path of the record file of crate `name`.
    pub fn compute_record_path(&self, name: &str) -> (res: String)
        requires
            is_layout_name(name@),
        ensures
            res@ == record_path(self.spec_path(), name@),
    {
        compute_record_path(self.path.as_str(), name)
    }
}

/// The kinds of credentials that a remote asks for.
#[derive(Debug, Clone, Copy, PartialEq, Eq, Structural)]
pub struct CredentialTypes {
    /// A username alone.
    pub username: bool,
    /// An SSH key.
    pub ssh_key: bool,
    /// A username and a password in plain text.
    pub user_pass_plaintext: bool,
    /// The platform's default credentials.
    pub default: bool,
}

/// What to answer a remote that asks for credentials.
#[derive(Debug, Clone, Copy, PartialEq, Eq, Structural)]
pub enum CredentialAction {
    /// Fail with "no username specified in remote URL".
    NoUsername,
    /// Use the SSH key that the agent holds for the username.
    SshKeyFromAgent,
    /// Ask git's credential helper.
    CredentialHelper,
    /// Use the default credentials.
    DefaultCredentials,
    /// Fail with "no authentication methods succeeded".
    NoMethodLeft,
}

/// The methods of authentication tried so far for one git operation; each is tried once.
#[derive(Debug, Clone, Copy, PartialEq, Eq, Structural)]
pub struct CredentialAttempts {
    /// An SSH key from the agent was tried.
    pub tried_sshkey: bool,
    /// The credential helper was tried.
    pub tried_cred_helper: bool,
    /// The default credentials were tried.
    pub tried_default: bool,
}

/// The method of authentication to try when a remote asks for credentials of the
/// `allowed` kinds, after the `attempts` made so far: a remote that asks for a username
/// alone is refused; otherwise the first method, in the order SSH key, credential helper,
/// default credentials, that the remote allows and that was not tried yet; when none is
/// left, authentication fails.
pub open spec fn chosen_action(attempts: CredentialAttempts, allowed: CredentialTypes) -> CredentialAction {
    if allowed.username {
        CredentialAction::NoUsername
    } else if allowed.ssh_key && !attempts.tried_sshkey {
        CredentialAction::SshKeyFromAgent
    } else if allowed.user_pass_plaintext && !attempts.tried_cred_helper {
        CredentialAction::CredentialHelper
    } else if allowed.default && !attempts.tried_default {
        CredentialAction::DefaultCredentials
    } else {
        CredentialAction::NoMethodLeft
    }
}

/// The attempts made once the chosen method is tried: that method is recorded as tried.
pub open spec fn attempts_after(attempts: CredentialAttempts, allowed: CredentialTypes) -> CredentialAttempts {
    match chosen_action(attempts, allowed) {
        CredentialAction::SshKeyFromAgent => CredentialAttempts { tried_sshkey: true, ..attempts },
        CredentialAction::CredentialHelper => CredentialAttempts { tried_cred_helper: true, ..attempts },
        CredentialAction::DefaultCredentials => CredentialAttempts { tried_default: true, ..attempts },
        _ => attempts,
    }
}

/// How a remote that asks for credentials is answered: one that asks for a username alone
/// is refused and nothing is recorded; otherwise an SSH key from the agent is tried first
/// whenever the remote allows one and none was tried, whatever else it allows; then the
/// credential helper, when allowed and not tried; then the default credentials, when
/// allowed and not tried; and when none is left, authentication fails with nothing
/// recorded. The method tried is recorded, and only it.
pub proof fn law_credentials_order(attempts: CredentialAttempts, allowed: CredentialTypes)
    ensures
        allowed.username ==> chosen_action(attempts, allowed) == CredentialAction::NoUsername
            && attempts_after(attempts, allowed) == attempts,
        !allowed.username && allowed.ssh_key && !attempts.tried_sshkey ==> chosen_action(attempts, allowed)
            == CredentialAction::SshKeyFromAgent && attempts_after(attempts, allowed) == (CredentialAttempts {
            tried_sshkey: true,
            ..attempts
        }),
        !allowed.username && !(allowed.ssh_key && !attempts.tried_sshkey) && allowed.user_pass_plaintext
            && !attempts.tried_cred_helper ==> chosen_action(attempts, allowed) == CredentialAction::CredentialHelper
            && attempts_after(attempts, allowed) == (CredentialAttempts { tried_cred_helper: true, ..attempts }),
        !allowed.username && !(allowed.ssh_key && !attempts.tried_sshkey) && !(allowed.user_pass_plaintext
            && !attempts.tried_cred_helper) && allowed.default && !attempts.tried_default ==> chosen_action(
            attempts,
            allowed,
        ) == CredentialAction::DefaultCredentials && attempts_after(attempts, allowed) == (CredentialAttempts {
            tried_default: true,
            ..attempts
        }),
        !allowed.username && !(allowed.ssh_key && !attempts.tried_sshkey) && !(allowed.user_pass_plaintext
            && !attempts.tried_cred_helper) && !(allowed.default && !attempts.tried_default) ==> chosen_action(
            attempts,
            allowed,
        ) == CredentialAction::NoMethodLeft && attempts_after(attempts, allowed) == attempts,
{
}

/// Each method is tried at most once: a method is only chosen when it was not tried yet,
/// and once chosen it is recorded as tried, so the same attempts never choose it again;
/// nothing recorded as tried is forgotten.
pub proof fn law_credentials_tried_once(attempts: CredentialAttempts, allowed: CredentialTypes, later: CredentialTypes)
    ensures
        chosen_action(attempts, allowed) == CredentialAction::SshKeyFromAgent ==> !attempts.tried_sshkey
            && chosen_action(attempts_after(attempts, allowed), later) != CredentialAction::SshKeyFromAgent,
        chosen_action(attempts, allowed) == CredentialAction::CredentialHelper ==> !attempts.tried_cred_helper
            && chosen_action(attempts_after(attempts, allowed), later) != CredentialAction::CredentialHelper,
        chosen_action(attempts, allowed) == CredentialAction::DefaultCredentials ==> !attempts.tried_default
            && chosen_action(attempts_after(attempts, allowed), later) != CredentialAction::DefaultCredentials,
        attempts.tried_sshkey ==> attempts_after(attempts, allowed).tried_sshkey,
        attempts.tried_cred_helper ==> attempts_after(attempts, allowed).tried_cred_helper,
        attempts.tried_default ==> attempts_after(attempts, allowed).tried_default,
{
}

impl CredentialAttempts {
    /// Nothing tried yet.
    pub fn new() -> (res: CredentialAttempts)
        ensures
            !res.tried_sshkey && !res.tried_cred_helper && !res.tried_default,
    {
        CredentialAttempts { tried_sshkey: false, tried_cred_helper: false, tried_default: false }
    }

    /// Decides how to answer a remote that asks for credentials of the `allowed` kinds
    /// (see `chosen_action`), and records the chosen method as tried.
    pub fn next_action(&mut self, allowed: CredentialTypes) -> (res: CredentialAction)
        ensures
            res == chosen_action(*old(self), allowed),
            *final(self) == attempts_after(*old(self), allowed),
    {
        if allowed.username {
            return CredentialAction::NoUsername;
        }
        if allowed.ssh_key && !self.tried_sshkey {
            self.tried_sshkey = true;
            return CredentialAction::SshKeyFromAgent;
        }
        if allowed.user_pass_plaintext && !self.tried_cred_helper {
            self.tried_cred_helper = true;
            return CredentialAction::CredentialHelper;
        }
        if allowed.default && !self.tried_default {
            self.tried_default = true;
            return CredentialAction::DefaultCredentials;
        }
        CredentialAction::NoMethodLeft
    }
}

/// What refreshing the index does once the remote branch is fetched.
#[derive(Debug, Clone, Copy, PartialEq, Eq, Structural)]
pub enum MergeAction {
    /// Nothing to do.
    UpToDate,
    /// Move the local branch to the fetched commit and check it out.
    FastForward,
    /// Fail with "fast-forward only!".
    Refuse,
}

/// Decides how to merge the fetched commit: nothing when up to date, a fast-forward when
/// possible, and a refusal otherwise.
pub fn merge_action(up_to_date: bool, fast_forward: bool) -> (res: MergeAction)
    ensures
        up_to_date ==> res == MergeAction::UpToDate,
        !up_to_date && fast_forward ==> res == MergeAction::FastForward,
        !up_to_date && !fast_forward ==> res == MergeAction::Refuse,
{
    if up_to_date {
        MergeAction::UpToDate
    } else if fast_forward {
        MergeAction::FastForward
    } else {
        MergeAction::Refuse
    }
}

/// The name of the reference of a local branch, `refs/heads/<branch>`.
pub fn branch_reference(branch: &str) -> (res: String)
    ensures
        res@ == "refs/heads/"@ + branch@,
{
    let mut res = String::new();
    push_text(&mut res, "refs/heads/");
    push_text(&mut res, branch);
    res
}

} // verus!
