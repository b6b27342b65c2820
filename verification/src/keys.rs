//! Deterministic secret derivation: an operator passphrase is hashed with a
//! fixed 256-bit one-way hash to obtain a seed, and the seed is turned into
//! an extended key pair for the wallet subcommands. There is no salt and no
//! iteration count: the same passphrase must yield the same key on every
//! invocation (a known weakness, preserved for compatibility).
use vstd::prelude::*;
use vstd::string::StringSliceAdditionalSpecFns;

verus! {

/// The SHA3-256 digest of a byte sequence. The digest depends on the input
/// bytes alone, so two calls on equal inputs return equal digests.
pub uninterp spec fn sha3_of(data: Seq<u8>) -> Seq<u8>;

/// Relies on tiny_keccak's Sha3 in its 256-bit variant: `update` absorbs the
/// input bytes, `finalize` writes the 32-byte digest, and the digest is a
/// function of the input bytes alone.
#[verifier::external_body]
fn sha3_256(data: &[u8]) -> (r: Vec<u8>)
    ensures
        r@ == sha3_of(data@),
        r@.len() == 32,
{
    let mut sha3 = tiny_keccak::Sha3::v256();
    tiny_keccak::Hasher::update(&mut sha3, data);
    let mut out = [0u8; 32];
    tiny_keccak::Hasher::finalize(sha3, &mut out);
    out.to_vec()
}

/// Key derivation failed.
#[derive(Clone, Copy, PartialEq, Eq, Structural, Debug)]
pub enum KeyError {
    /// No passphrase was supplied; the wallet cannot proceed without one.
    MissingPassphrase,
    /// The seed fed into extended-key derivation did not have 32 bytes.
    Derivation,
}

/// The key material derived from a passphrase's bytes: the fixed one-way
/// hash of the passphrase, used as the seed and root key.
pub open spec fn derived_key(pass_bytes: Seq<u8>) -> Seq<u8> {
    sha3_of(pass_bytes)
}

/// An extended key pair: root secret key material plus a chain code that
/// supports hierarchical derivation of child keys. Owned by one wallet
/// subcommand for the duration of one invocation; never persisted here.
#[derive(Clone, Debug)]
pub struct ExtendedKey {
    /// 32 bytes of root secret key material (the seed itself).
    pub key: Vec<u8>,
    /// 32-byte chain code, bound one-way to the key material.
    pub chain_code: Vec<u8>,
}

impl ExtendedKey {
    /// Structural invariant: 32-byte key, chain code derived from it.
    pub open spec fn well_formed(&self) -> bool {
        self.key@.len() == 32 && self.chain_code@ == sha3_of(self.key@)
    }

    /// Derive an extended key pair from a seed. Fails exactly when the seed
    /// is not 32 bytes long; the wallet must abort then rather than continue
    /// with a zero or default key.
    pub fn from_seed(seed: &[u8]) -> (r: Result<ExtendedKey, KeyError>)
        ensures
            r is Err <==> seed@.len() != 32,
            r matches Err(e) ==> e == KeyError::Derivation,
            r matches Ok(k) ==> k.key@ == seed@ && k.well_formed(),
    {
        if seed.len() != 32 {
            return Err(KeyError::Derivation);
        }
        let key = vstd::slice::slice_to_vec(seed);
        let chain_code = sha3_256(seed);
        Ok(ExtendedKey { key, chain_code })
    }
}

/// Turn an operator-supplied passphrase into an extended key pair:
/// seed = SHA3-256 of the passphrase bytes, key pair = `from_seed(seed)`.
/// Fails exactly when no passphrase was supplied; with one, derivation is
/// owed and succeeds, and the result depends on the passphrase alone.
pub fn derive_wallet_key(pass: Option<&str>) -> (r: Result<ExtendedKey, KeyError>)
    ensures
        r is Err <==> pass is None,
        r matches Err(e) ==> e == KeyError::MissingPassphrase,
        r matches Ok(k) ==> (pass matches Some(p) && k.key@ == derived_key(p.spec_bytes())
            && k.well_formed()),
{
    match pass {
        None => Err(KeyError::MissingPassphrase),
        Some(p) => {
            let seed = sha3_256(p.as_bytes());
            match ExtendedKey::from_seed(seed.as_slice()) {
                Ok(k) => Ok(k),
                Err(_) => Err(KeyError::Derivation),
            }
        },
    }
}

/// Law: derivation is deterministic. Any two well-formed keys whose material
/// was derived from the same passphrase bytes are identical, across repeated
/// calls and across process runs.
pub proof fn law_derive_deterministic(k1: ExtendedKey, k2: ExtendedKey, pass_bytes: Seq<u8>)
    requires
        k1.well_formed(),
        k2.well_formed(),
        k1.key@ == derived_key(pass_bytes),
        k2.key@ == derived_key(pass_bytes),
    ensures
        k1.key@ == k2.key@,
        k1.chain_code@ == k2.chain_code@,
{
}

/// Law: distinct passphrases yield distinct keys, for any two passphrases
/// whose 256-bit hashes differ (a hash collision is the only exception, and
/// none is known for SHA3-256).
pub proof fn law_derive_distinct(k1: ExtendedKey, k2: ExtendedKey, p1: Seq<u8>, p2: Seq<u8>)
    requires
        sha3_of(p1) != sha3_of(p2),
        k1.key@ == derived_key(p1),
        k2.key@ == derived_key(p2),
    ensures
        k1.key@ != k2.key@,
{
}

} // verus!
