//! The access guard: whether an operation on a paste may proceed.
//!
//! The guard sees the hash that the paste keeps for the operation, if it
//! keeps one, and the secret that the requester presented, if any. A paste
//! without a hash is open to everyone. A stored hash is never turned back into
//! a secret: the presented secret is hashed and the two hashes are compared.

use crate::error::{KeyKind, PasteError};
use crate::hasher::{hash_secret, secret_hash};
use crate::pasta::text_view;
use vstd::prelude::*;

verus! {

/// The three outcomes of the guard.
#[derive(Debug, Clone, Copy, PartialEq, Eq, Structural)]
pub enum Access {
    /// The operation may proceed.
    Allowed,
    /// The paste is protected and no secret was presented.
    SecretRequired,
    /// The paste is protected and the presented secret does not match.
    InvalidSecret,
}

/// What a presented secret, if any, holds as bytes.
pub open spec fn secret_bytes(presented: Option<&[u8]>) -> Option<Seq<u8>> {
    match presented {
        Some(secret) => Some(secret@),
        None => None,
    }
}

/// The guard's decision as a function of the stored hash and the presented
/// secret.
pub open spec fn decide(stored: Option<Seq<char>>, presented: Option<Seq<u8>>) -> Access {
    match stored {
        None => Access::Allowed,
        Some(hash) => match presented {
            None => Access::SecretRequired,
            Some(secret) => if secret_hash(secret) == hash {
                Access::Allowed
            } else {
                Access::InvalidSecret
            },
        },
    }
}

/// The failure, if any, that an outcome of the guard stands for when the
/// guarded key is `kind`.
pub open spec fn denial(access: Access, kind: KeyKind) -> Result<(), PasteError> {
    match access {
        Access::Allowed => Ok(()),
        Access::SecretRequired => Err(PasteError::SecretRequired(kind)),
        Access::InvalidSecret => Err(PasteError::InvalidSecret(kind)),
    }
}

/// Decides whether an operation guarded by `stored` may proceed for a
/// requester who presented `presented`.
pub fn check(stored: &Option<String>, presented: Option<&[u8]>) -> (access: Access)
    ensures
        access == decide(text_view(*stored), secret_bytes(presented)),
{
    match stored {
        None => Access::Allowed,
        Some(hash) => match presented {
            None => Access::SecretRequired,
            Some(secret) => {
                let offered = hash_secret(secret);
                if offered == *hash {
                    Access::Allowed
                } else {
                    Access::InvalidSecret
                }
            },
        },
    }
}

impl Access {
    /// Turns the outcome into the result of the guarded operation: nothing on
    /// `Allowed`, else the failure that names the guarded key.
    pub fn into_result(self, kind: KeyKind) -> (checked: Result<(), PasteError>)
        ensures
            checked == denial(self, kind),
    {
        match self {
            Access::Allowed => Ok(()),
            Access::SecretRequired => Err(PasteError::SecretRequired(kind)),
            Access::InvalidSecret => Err(PasteError::InvalidSecret(kind)),
        }
    }
}

/// The guard's table, row by row: an unprotected paste is open whatever is
/// presented; a protected one asks for a secret when none is presented,
/// rejects a secret whose hash differs from the stored one, and is open to a
/// secret whose hash is the stored one.
pub proof fn lemma_guard_table(stored: Option<Seq<char>>, presented: Option<Seq<u8>>)
    ensures
        stored is None ==> decide(stored, presented) == Access::Allowed,
        stored is Some && presented is None ==> decide(stored, presented)
            == Access::SecretRequired,
        stored is Some && presented is Some && secret_hash(presented->0) != stored->0 ==> decide(
            stored,
            presented,
        ) == Access::InvalidSecret,
        stored is Some && presented is Some && secret_hash(presented->0) == stored->0 ==> decide(
            stored,
            presented,
        ) == Access::Allowed,
{
}

} // verus!
