//! Credentials for an outbound connection, and what may be shown of them.

use crate::backend::{holds_nul, new_error, ssh_key_credential, userpass_credential};
use git2::Cred as GitCredential;
use vstd::prelude::*;
use vstd::string::StringExecFns;

verus! {

/// How to authenticate an outbound connection.
pub enum Cred {
    /// A user name with a password, sent as they are.
    UserPassPlainText { username: String, password: String },
    /// A user name with a key pair; the private key may be protected by a
    /// passphrase.
    Ssh { username: String, public_key: String, private_key: String, passphrase: Option<String> },
}

/// What `{:?}` writes for a string: the string between double quotes, with
/// the characters that need it escaped.
pub uninterp spec fn debug_text(s: Seq<char>) -> Seq<char>;

/// `format!` with `{:?}` on a string: the string as `debug_text` names it.
#[verifier::external_body]
fn quoted(s: &str) -> (text: String)
    ensures
        text@ == debug_text(s@),
{
    format!("{:?}", s)
}

impl Cred {
    /// The user name of the credential.
    pub open spec fn username_spec(&self) -> Seq<char> {
        match self {
            Cred::UserPassPlainText { username, .. } => username@,
            Cred::Ssh { username, .. } => username@,
        }
    }

    /// The diagnostic text of the credential: its variant, its user name
    /// and, for a key pair, its public key. The password, the private key
    /// and the passphrase have no part in it.
    pub open spec fn redacted_spec(&self) -> Seq<char> {
        match self {
            Cred::UserPassPlainText { username, .. } => "UserPassPlainText { username: "@
                + debug_text(username@) + " }"@,
            Cred::Ssh { username, public_key, .. } => "Ssh { username: "@ + debug_text(username@)
                + ", public_key: "@ + debug_text(public_key@) + " }"@,
        }
    }

    /// Whether one of the texts of the credential holds a NUL character.
    /// The backend builds no credential from such a text.
    pub open spec fn holds_nul_spec(&self) -> bool {
        match self {
            Cred::UserPassPlainText { username, password } => holds_nul(username@) || holds_nul(
                password@,
            ),
            Cred::Ssh { username, public_key, private_key, passphrase } => {
                ||| holds_nul(username@)
                ||| holds_nul(public_key@)
                ||| holds_nul(private_key@)
                ||| (passphrase matches Some(phrase) && holds_nul(phrase@))
            },
        }
    }

    /// Whether two credentials agree in all that may be shown of them.
    pub open spec fn same_public_part(&self, other: &Cred) -> bool {
        match (self, other) {
            (
                Cred::UserPassPlainText { username: a, .. },
                Cred::UserPassPlainText { username: b, .. },
            ) => a@ == b@,
            (
                Cred::Ssh { username: a, public_key: ka, .. },
                Cred::Ssh { username: b, public_key: kb, .. },
            ) => a@ == b@ && ka@ == kb@,
            _ => false,
        }
    }

    /// The user name of the credential.
    pub fn username(&self) -> (name: &str)
        ensures
            name@ == self.username_spec(),
    {
        match self {
            Cred::UserPassPlainText { username, .. } => username.as_str(),
            Cred::Ssh { username, .. } => username.as_str(),
        }
    }

    /// The text to write for the credential in a log or a diagnostic.
    pub fn redacted(&self) -> (text: String)
        ensures
            text@ == self.redacted_spec(),
    {
        match self {
            Cred::UserPassPlainText { username, .. } => password_credential_text(
                quoted(username.as_str()).as_str(),
            ),
            Cred::Ssh { username, public_key, .. } => key_credential_text(
                quoted(username.as_str()).as_str(),
                quoted(public_key.as_str()).as_str(),
            ),
        }
    }
}

/// The diagnostic text of a credential of a user name and a password, given
/// the user name as it is to be shown.
pub fn password_credential_text(shown_username: &str) -> (text: String)
    ensures
        text@ == "UserPassPlainText { username: "@ + shown_username@ + " }"@,
{
    let mut text = String::from_str("UserPassPlainText { username: ");
    text.append(shown_username);
    text.append(" }");
    text
}

/// The diagnostic text of a credential of a key pair, given the user name
/// and the public key as they are to be shown.
pub fn key_credential_text(shown_username: &str, shown_public_key: &str) -> (text: String)
    ensures
        text@ == "Ssh { username: "@ + shown_username@ + ", public_key: "@ + shown_public_key@
            + " }"@,
{
    let mut text = String::from_str("Ssh { username: ");
    text.append(shown_username);
    text.append(", public_key: ");
    text.append(shown_public_key);
    text.append(" }");
    text
}

/// Builds the backend's credential for `cred`: a plain-text one for a user
/// name with a password, one that signs with the key pair otherwise. The
/// backend's answer is handed on as it is. It is a failure where one of the
/// texts of the credential holds a NUL character. For a user name with a
/// password it is a failure nowhere else; whether a key pair is taken
/// depends on the backend as well.
pub fn credential_helper(cred: &Cred) -> (r: Result<GitCredential, git2::Error>)
    ensures
        cred.holds_nul_spec() ==> r is Err,
        cred is UserPassPlainText && !cred.holds_nul_spec() ==> r is Ok,
{
    match cred {
        Cred::UserPassPlainText { username, password } => userpass_credential(
            username.as_str(),
            password.as_str(),
        ),
        Cred::Ssh { username, public_key, private_key, passphrase } => ssh_key_credential(
            username.as_str(),
            public_key.as_str(),
            private_key.as_str(),
            passphrase,
        ),
    }
}

/// Answers the remote's request for credentials with `cred`, once. The
/// first request is answered with the backend's credential for `cred`;
/// every later request, which the remote makes only after it refused the
/// first answer, is answered with an authentication failure, so that the
/// transfer ends instead of offering the same credential again. The first
/// answer is a failure where a text of the credential holds a NUL
/// character, and for a user name with a password nowhere else.
pub fn offer_credential(cred: &Cred, offered: &mut bool) -> (r: Result<
    GitCredential,
    git2::Error,
>)
    ensures
        *final(offered),
        *old(offered) ==> r is Err,
        cred.holds_nul_spec() ==> r is Err,
        !*old(offered) && cred is UserPassPlainText && !cred.holds_nul_spec() ==> r is Ok,
{
    if *offered {
        return Err(
            new_error(
                git2::ErrorCode::Auth,
                git2::ErrorClass::Callback,
                "the remote refused the credential",
            ),
        );
    }
    *offered = true;
    credential_helper(cred)
}

/// Two credentials that agree in their variant, their user name and their
/// public key have the same diagnostic text, whatever their secrets are: the
/// text tells nothing of a password, a private key or a passphrase.
pub proof fn lemma_redaction_hides_secrets(a: Cred, b: Cred)
    requires
        a.same_public_part(&b),
    ensures
        a.redacted_spec() == b.redacted_spec(),
{
}

} // verus!
