//! Signature thresholds: does a document carry enough signatures by the keys
//! of its role?

use vstd::prelude::*;
use crate::error::{Error, RoleType};
use crate::schema::{Key, KeyType, KeyView, Role, Root, Signature, SignatureScheme, Signed};

verus! {

/// The error of `ring`, which says nothing of why a signature was refused.
#[verifier::external_type_specification]
#[verifier::external_body]
pub struct ExUnspecified(ring::error::Unspecified);

/// Whether `ring` accepts `signature` as a signature in `scheme` of `message`
/// under the public key `public`.
pub uninterp spec fn signature_accepted(
    scheme: SignatureScheme,
    public: Seq<u8>,
    message: Seq<u8>,
    signature: Seq<u8>,
) -> bool;

/// The longest message, in bytes, that is handed to `ring`.
pub const MAX_MESSAGE_LEN: u64 = 0x0fff_ffff_ffff_ffff;

/// Checks a signature with `ring::signature::UnparsedPublicKey::verify`, under
/// the algorithm of `ring` that implements `scheme`: `RSA_PSS_2048_8192_SHA256`,
/// `ED25519` or `ECDSA_P256_SHA256_ASN1`. The verdict depends on the scheme,
/// the key, the message and the signature alone, so it is given a name. `ring`
/// hashes the message and stops the program when asked to hash 2^61 bytes or
/// more, hence the bound on the message.
#[verifier::external_body]
fn ring_verify(scheme: SignatureScheme, public: &[u8], message: &[u8], signature: &[u8]) -> (verdict:
    Result<(), ring::error::Unspecified>)
    requires
        message@.len() <= MAX_MESSAGE_LEN,
    ensures
        verdict is Ok == signature_accepted(scheme, public@, message@, signature@),
{
    let algorithm: &'static dyn ring::signature::VerificationAlgorithm = match scheme {
        SignatureScheme::RsassaPssSha256 => &ring::signature::RSA_PSS_2048_8192_SHA256,
        SignatureScheme::Ed25519 => &ring::signature::ED25519,
        SignatureScheme::EcdsaSha2Nistp256 => &ring::signature::ECDSA_P256_SHA256_ASN1,
    };
    ring::signature::UnparsedPublicKey::new(algorithm, public).verify(message, signature)
}

/// Whether `scheme` is a scheme of keys of type `key_type`.
pub open spec fn scheme_fits(key_type: KeyType, scheme: SignatureScheme) -> bool {
    match key_type {
        KeyType::Rsa => scheme == SignatureScheme::RsassaPssSha256,
        KeyType::Ed25519 => scheme == SignatureScheme::Ed25519,
        KeyType::Ecdsa => scheme == SignatureScheme::EcdsaSha2Nistp256,
    }
}

/// Whether `signature` is a valid signature of `message` by `key`: the scheme
/// of the key is one of its type, the message is short enough to be hashed,
/// and the signature checks out.
pub open spec fn key_accepts(key: KeyView, message: Seq<u8>, signature: Seq<u8>) -> bool {
    &&& scheme_fits(key.key_type, key.scheme)
    &&& message.len() <= MAX_MESSAGE_LEN
    &&& signature_accepted(key.scheme, key.public, message, signature)
}

/// Whether `signature` counts towards the threshold of `role` under `root`:
/// its key is one of the role's, `root` declares that key, and the key accepts
/// the signature over `message`.
pub open spec fn signature_counts(
    root: Root,
    role: RoleType,
    message: Seq<u8>,
    signature: Signature,
) -> bool {
    &&& root.spec_role_keys(role).ids().contains(signature.key_id@)
    &&& root.spec_key(signature.key_id@) matches Some(key)
    &&& key_accepts(key@, message, signature.sig@)
}

/// The identifiers of the keys of `role` that have validly signed `message`
/// among `signatures`. A key that has signed twice is in the set once.
pub open spec fn signing_keys(
    root: Root,
    role: RoleType,
    message: Seq<u8>,
    signatures: Seq<Signature>,
) -> Set<Seq<u8>> {
    Set::new(
        |key_id: Seq<u8>|
            exists|i: int|
                0 <= i < signatures.len() && #[trigger] signatures[i].key_id@ == key_id
                    && signature_counts(root, role, message, signatures[i]),
    )
}

/// The verdict of a role's keys on a whole document: `Ok` when at least
/// `threshold` of them have signed, else how many have and how many must.
pub open spec fn role_verdict<T>(root: Root, role: RoleType, document: Signed<T>) -> Result<
    (),
    Error,
> {
    let have = signing_keys(root, role, document.canonical@, document.signatures@).len();
    let need = root.spec_role_keys(role).threshold.value();
    if have >= need {
        Ok(())
    } else {
        Err(Error::SignatureThresholdNotMet { role, have: have as u64, need })
    }
}

/// Whether `document` is signed by a threshold of the keys that `root` names
/// for `role`.
pub open spec fn verified<T>(root: Root, role: RoleType, document: Signed<T>) -> bool {
    role_verdict(root, role, document) is Ok
}

/// Tells whether `signature` is a valid signature of `message` by `key`.
pub fn verify_signature(key: &Key, message: &[u8], signature: &[u8]) -> (valid: bool)
    ensures
        valid == key_accepts(key@, message@, signature@),
{
    let fits = match key.key_type {
        KeyType::Rsa => key.scheme == SignatureScheme::RsassaPssSha256,
        KeyType::Ed25519 => key.scheme == SignatureScheme::Ed25519,
        KeyType::Ecdsa => key.scheme == SignatureScheme::EcdsaSha2Nistp256,
    };
    if !fits || message.len() as u64 > MAX_MESSAGE_LEN {
        return false;
    }
    ring_verify(key.scheme, key.public.as_slice(), message, signature).is_ok()
}

/// The identifiers of the keys that have signed: those of the signatures
/// that `counts` marks as counting. A key that has signed twice is in the set
/// once; a signature for which `counts` has no entry does not count.
pub open spec fn counted_keys(signatures: Seq<Signature>, counts: Seq<bool>) -> Set<Seq<u8>> {
    Set::new(
        |key_id: Seq<u8>|
            exists|i: int|
                0 <= i < signatures.len() && i < counts.len() && counts[i]
                    && #[trigger] signatures[i].key_id@ == key_id,
    )
}

/// The verdict on the signatures of a document of `role`, of which `counts`
/// marks the ones that count: `Ok` when the keys that have signed are at
/// least `threshold`, else how many there are and how many there must be.
pub open spec fn tally_verdict(
    role: RoleType,
    threshold: u64,
    signatures: Seq<Signature>,
    counts: Seq<bool>,
) -> Result<(), Error> {
    let have = counted_keys(signatures, counts).len();
    if have >= threshold {
        Ok(())
    } else {
        Err(Error::SignatureThresholdNotMet { role, have: have as u64, need: threshold })
    }
}

/// Adding a signature to the end of a list adds its key to the counted keys
/// if it counts, and changes nothing if it does not.
proof fn lemma_counted_keys_step(signatures: Seq<Signature>, counts: Seq<bool>, n: int)
    requires
        0 <= n < signatures.len(),
    ensures
        counted_keys(signatures.take(n + 1), counts) == if n < counts.len() && counts[n] {
            counted_keys(signatures.take(n), counts).insert(signatures[n].key_id@)
        } else {
            counted_keys(signatures.take(n), counts)
        },
{
    let before = signatures.take(n);
    let after = signatures.take(n + 1);
    let old_keys = counted_keys(before, counts);
    let new_keys = counted_keys(after, counts);
    let expected = if n < counts.len() && counts[n] {
        old_keys.insert(signatures[n].key_id@)
    } else {
        old_keys
    };
    assert forall|key_id: Seq<u8>| new_keys.contains(key_id) == expected.contains(key_id) by {
        if new_keys.contains(key_id) {
            let i = choose|i: int|
                0 <= i < after.len() && i < counts.len() && counts[i] && #[trigger] after[i].key_id@
                    == key_id;
            if i < n {
                assert(before[i] == after[i]);
                assert(before[i].key_id@ == key_id);
            }
        }
        if expected.contains(key_id) {
            if old_keys.contains(key_id) {
                let i = choose|i: int|
                    0 <= i < before.len() && i < counts.len() && counts[i]
                        && #[trigger] before[i].key_id@ == key_id;
                assert(after[i] == before[i]);
                assert(after[i].key_id@ == key_id);
            } else {
                assert(after[n] == signatures[n]);
                assert(after[n].key_id@ == key_id);
            }
        }
    }
    assert(new_keys =~= expected);
}

/// The counted keys are finitely many, and no more than the signatures.
pub proof fn lemma_counted_keys_bounded(signatures: Seq<Signature>, counts: Seq<bool>)
    ensures
        counted_keys(signatures, counts).finite(),
        counted_keys(signatures, counts).len() <= signatures.len(),
    decreases signatures.len(),
{
    if signatures.len() == 0 {
        assert(counted_keys(signatures, counts) =~= Set::empty());
    } else {
        let n = signatures.len() - 1;
        lemma_counted_keys_bounded(signatures.take(n), counts);
        lemma_counted_keys_step(signatures, counts, n);
        assert(signatures.take(n + 1) =~= signatures);
    }
}

/// A document is verified only if it carries at least as many signatures as
/// the threshold of its role asks for.
pub proof fn lemma_verified_is_signed<T>(root: Root, role: RoleType, document: Signed<T>)
    requires
        verified(root, role, document),
    ensures
        document.signatures@.len() >= root.spec_role_keys(role).threshold.value(),
{
    let signatures = document.signatures@;
    let message = document.canonical@;
    let counts = Seq::new(
        signatures.len(),
        |i: int| signature_counts(root, role, message, signatures[i]),
    );
    assert(counted_keys(signatures, counts) =~= signing_keys(root, role, message, signatures));
    lemma_counted_keys_bounded(signatures, counts);
}

/// Counts the keys that have signed, each once, and holds the count against
/// the threshold. `counts` says of each signature whether it counts.
pub fn tally(role: RoleType, threshold: u64, signatures: &Vec<Signature>, counts: &Vec<bool>) -> (verdict:
    Result<(), Error>)
    ensures
        verdict == tally_verdict(role, threshold, signatures@, counts@),
{
    let mut counted: Vec<usize> = Vec::new();
    let ghost mut ids: Seq<Seq<u8>> = Seq::empty();
    let mut i: usize = 0;
    assert(counted_keys(signatures@.take(0), counts@) =~= Set::empty());
    assert(ids.to_set() =~= Set::empty());
    while i < signatures.len()
        invariant
            i <= signatures@.len(),
            counted@.len() == ids.len(),
            counted@.len() <= i,
            forall|k: int|
                0 <= k < counted@.len() ==> (#[trigger] counted@[k]) < i
                    && signatures@[counted@[k] as int].key_id@ == ids[k],
            ids.no_duplicates(),
            ids.to_set() == counted_keys(signatures@.take(i as int), counts@),
        decreases signatures@.len() - i,
    {
        let signature = &signatures[i];
        let counts_here = i < counts.len() && counts[i];
        proof {
            lemma_counted_keys_step(signatures@, counts@, i as int);
        }
        if counts_here {
            let mut seen = false;
            let mut k: usize = 0;
            while k < counted.len()
                invariant
                    k <= counted@.len(),
                    i < signatures@.len(),
                    counted@.len() == ids.len(),
                    signature == &signatures@[i as int],
                    forall|j: int|
                        0 <= j < counted@.len() ==> (#[trigger] counted@[j]) < i
                            && signatures@[counted@[j] as int].key_id@ == ids[j],
                    seen == exists|j: int| 0 <= j < k && ids[j] == signature.key_id@,
                decreases counted@.len() - k,
            {
                if crate::schema::bytes_equal(
                    signatures[counted[k]].key_id.as_slice(),
                    signature.key_id.as_slice(),
                ) {
                    seen = true;
                    assert(ids[k as int] == signature.key_id@);
                }
                k += 1;
            }
            if !seen {
                counted.push(i);
                proof {
                    let id = signature.key_id@;
                    assert(!ids.contains(id));
                    let longer = ids.push(id);
                    assert(longer.no_duplicates());
                    assert(longer.to_set() =~= ids.to_set().insert(id)) by {
                        assert forall|x: Seq<u8>| longer.to_set().contains(x) == ids.to_set().insert(
                            id,
                        ).contains(x) by {
                            if longer.contains(x) {
                                let at = choose|at: int| 0 <= at < longer.len() && longer[at] == x;
                                if at < ids.len() {
                                    assert(ids[at] == x);
                                }
                            }
                            if ids.contains(x) {
                                let at = choose|at: int| 0 <= at < ids.len() && ids[at] == x;
                                assert(longer[at] == x);
                            }
                            if x == id {
                                assert(longer[ids.len() as int] == id);
                            }
                        }
                    }
                    ids = longer;
                }
            } else {
                proof {
                    assert(ids.contains(signature.key_id@));
                    assert(ids.to_set().insert(signature.key_id@) =~= ids.to_set());
                }
            }
        }
        i += 1;
    }
    proof {
        assert(signatures@.take(i as int) =~= signatures@);
        ids.unique_seq_to_set();
    }
    let have = counted.len() as u64;
    if have >= threshold {
        Ok(())
    } else {
        Err(Error::SignatureThresholdNotMet { role, have, need: threshold })
    }
}

impl Root {
    /// Tells whether `signature` counts towards the threshold of `role` for
    /// a document whose canonical form is `message`.
    pub fn counts(&self, role: RoleType, message: &[u8], signature: &Signature) -> (counts: bool)
        ensures
            counts == signature_counts(*self, role, message@, *signature),
    {
        if !self.role_keys(role).names(signature.key_id.as_slice()) {
            return false;
        }
        match self.key(signature.key_id.as_slice()) {
            Some(key) => verify_signature(key, message, signature.sig.as_slice()),
            None => false,
        }
    }

    /// Checks that `document` is signed by a threshold of the keys that this
    /// root metadata names for the role of `T`.
    ///
    /// Every signature is looked at. One counts when its key is a key of the
    /// role, this document declares that key, and the signature is valid for
    /// the canonical form of the payload. Each key counts once, however many
    /// signatures it has made.
    pub fn verify_role<T: Role>(&self, document: &Signed<T>) -> (verdict: Result<(), Error>)
        ensures
            verdict == role_verdict(*self, T::spec_role_type(), *document),
    {
        let role = T::role_type();
        let signatures = &document.signatures;
        let message = document.canonical.as_slice();
        let mut counts: Vec<bool> = Vec::new();
        let mut i: usize = 0;
        while i < signatures.len()
            invariant
                i <= signatures@.len(),
                counts@.len() == i,
                message@ == document.canonical@,
                signatures@ == document.signatures@,
                forall|k: int|
                    0 <= k < i ==> #[trigger] counts@[k] == signature_counts(
                        *self,
                        role,
                        message@,
                        signatures@[k],
                    ),
            decreases signatures@.len() - i,
        {
            let here = self.counts(role, message, &signatures[i]);
            counts.push(here);
            i += 1;
        }
        proof {
            assert(counted_keys(signatures@, counts@) =~= signing_keys(
                *self,
                role,
                message@,
                signatures@,
            ));
        }
        tally(role, self.role_keys(role).threshold.get(), signatures, &counts)
    }
}

} // verus!
