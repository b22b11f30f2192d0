//! The encryption algorithms that content may name.
use vstd::prelude::*;
use vstd::string::StringExecFns;

verus! {

/// An encryption algorithm, as named by the `algorithm` field of content.
#[derive(Clone, Debug, PartialEq, Eq)]
pub enum Algorithm {
    /// Olm version 1 using Curve25519, AES-256 and SHA-256.
    OlmV1Curve25519AesSha2,
    /// Megolm version 1 using AES-256 and SHA-256.
    MegolmV1AesSha2,
    /// Any algorithm that is not one of the above.
    Custom(String),
}

/// The wire name of an algorithm.
pub open spec fn algorithm_text(a: Algorithm) -> Seq<char> {
    match a {
        Algorithm::OlmV1Curve25519AesSha2 => "m.olm.v1.curve25519-aes-sha2"@,
        Algorithm::MegolmV1AesSha2 => "m.megolm.v1.aes-sha2"@,
        Algorithm::Custom(s) => s@,
    }
}

/// The algorithm that a wire name stands for.
pub open spec fn algorithm_of(s: String) -> Algorithm {
    if s@ == "m.olm.v1.curve25519-aes-sha2"@ {
        Algorithm::OlmV1Curve25519AesSha2
    } else if s@ == "m.megolm.v1.aes-sha2"@ {
        Algorithm::MegolmV1AesSha2
    } else {
        Algorithm::Custom(s)
    }
}

/// The two known wire names differ, so each names its own algorithm.
pub proof fn lemma_known_names()
    ensures
        algorithm_text(Algorithm::OlmV1Curve25519AesSha2) != algorithm_text(
            Algorithm::MegolmV1AesSha2,
        ),
{
    reveal_strlit("m.olm.v1.curve25519-aes-sha2");
    reveal_strlit("m.megolm.v1.aes-sha2");
    assert("m.olm.v1.curve25519-aes-sha2"@.len() != "m.megolm.v1.aes-sha2"@.len());
}

impl Algorithm {
    /// Reads an algorithm from its wire name.
    pub fn from_name(s: String) -> (r: Algorithm)
        ensures
            r == algorithm_of(s),
    {
        let olm = String::from_str("m.olm.v1.curve25519-aes-sha2");
        let megolm = String::from_str("m.megolm.v1.aes-sha2");
        if s == olm {
            Algorithm::OlmV1Curve25519AesSha2
        } else if s == megolm {
            Algorithm::MegolmV1AesSha2
        } else {
            Algorithm::Custom(s)
        }
    }

    /// The wire name of this algorithm.
    pub fn as_str(&self) -> (r: &str)
        ensures
            r@ == algorithm_text(*self),
    {
        match self {
            Algorithm::OlmV1Curve25519AesSha2 => "m.olm.v1.curve25519-aes-sha2",
            Algorithm::MegolmV1AesSha2 => "m.megolm.v1.aes-sha2",
            Algorithm::Custom(s) => s.as_str(),
        }
    }
}

} // verus!
