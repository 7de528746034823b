//! The two development accounts that the client can act as.

use crate::error::ClientError;
use vstd::prelude::*;
use vstd::string::StringExecFns;

verus! {

/// A development account of the chain. The account is all that the library
/// holds of an identity; the program takes the key pair of the account from
/// the signer where it signs.
#[derive(Debug, Clone, Copy, PartialEq, Eq)]
pub enum User {
    Alice,
    Bob,
}

/// The account that a user name stands for, if it stands for one.
pub open spec fn resolved(name: Seq<char>) -> Option<User> {
    if name == "alice"@ {
        Some(User::Alice)
    } else if name == "bob"@ {
        Some(User::Bob)
    } else {
        None
    }
}

/// The name under which an account appears in the client's output.
pub open spec fn label_of(user: User) -> Seq<char> {
    match user {
        User::Alice => "Alice"@,
        User::Bob => "Bob"@,
    }
}

/// A status line: the account's label in square brackets, a space, and the
/// message.
pub open spec fn tagged(user: User, message: Seq<char>) -> Seq<char> {
    "["@ + label_of(user) + "] "@ + message
}

/// The names `alice` and `bob` stand for two different accounts, and no other
/// name stands for any.
pub proof fn lemma_two_identities()
    ensures
        resolved("alice"@) == Some(User::Alice),
        resolved("bob"@) == Some(User::Bob),
        resolved("alice"@) != resolved("bob"@),
        forall|name: Seq<char>|
            name != "alice"@ && name != "bob"@ ==> (#[trigger] resolved(name)) is None,
{
    reveal_strlit("alice");
    reveal_strlit("bob");
    assert("alice"@.len() != "bob"@.len());
}

impl User {
    /// Resolves a user name. Exactly `alice` and `bob` are known; any other
    /// name is refused.
    pub fn resolve(name: &str) -> (result: Result<User, ClientError>)
        ensures
            result == (match resolved(name@) {
                Some(user) => Ok::<User, ClientError>(user),
                None => Err::<User, ClientError>(ClientError::UnknownIdentity),
            }),
    {
        let given = String::from_str(name);
        if given == String::from_str("alice") {
            Ok(User::Alice)
        } else if given == String::from_str("bob") {
            Ok(User::Bob)
        } else {
            Err(ClientError::UnknownIdentity)
        }
    }

    /// The name under which the account appears in the client's output.
    pub fn label(&self) -> (name: &'static str)
        ensures
            name@ == label_of(*self),
    {
        match self {
            User::Alice => "Alice",
            User::Bob => "Bob",
        }
    }

    /// Makes a line of output that is tagged with the account.
    pub fn status_line(&self, message: &str) -> (line: String)
        ensures
            line@ == tagged(*self, message@),
    {
        let mut line = String::from_str("[");
        line.append(self.label());
        line.append("] ");
        line.append(message);
        line
    }
}

} // verus!
