//! The signed documents of a repository, as the update workflow reads them.

use vstd::prelude::*;
use crate::error::RoleType;
use crate::named_map::NamedMap;
use crate::time::UtcTime;

verus! {

/// The kinds of key that root metadata may declare.
#[derive(Debug, Clone, Copy, PartialEq, Eq, Structural)]
pub enum KeyType {
    /// An RSA key.
    Rsa,
    /// An Ed25519 key.
    Ed25519,
    /// An elliptic-curve key.
    Ecdsa,
}

/// The signature schemes that the keys of a repository may use.
#[derive(Debug, Clone, Copy, PartialEq, Eq, Structural)]
pub enum SignatureScheme {
    /// RSASSA-PSS over SHA-256.
    RsassaPssSha256,
    /// Ed25519.
    Ed25519,
    /// ECDSA on the curve P-256 over SHA-256.
    EcdsaSha2Nistp256,
}

/// A public key declared by root metadata.
#[derive(Debug, Clone, PartialEq, Eq)]
pub struct Key {
    /// The identifier under which roles and signatures refer to the key.
    pub key_id: Vec<u8>,
    /// The kind of key.
    pub key_type: KeyType,
    /// The scheme in which the key signs.
    pub scheme: SignatureScheme,
    /// The public key itself: 32 bytes for Ed25519, the DER encoding of an
    /// `RSAPublicKey` for RSA, the uncompressed point for ECDSA.
    pub public: Vec<u8>,
}

/// A [`Key`] with its byte strings as mathematical sequences.
pub struct KeyView {
    pub key_id: Seq<u8>,
    pub key_type: KeyType,
    pub scheme: SignatureScheme,
    pub public: Seq<u8>,
}

impl View for Key {
    type V = KeyView;

    open spec fn view(&self) -> KeyView {
        KeyView {
            key_id: self.key_id@,
            key_type: self.key_type,
            scheme: self.scheme,
            public: self.public@,
        }
    }
}

/// The version of a document: 1 or higher.
#[derive(Debug, Clone, Copy, PartialEq, Eq)]
pub struct Version {
    number: u64,
}

impl Version {
    #[verifier::type_invariant]
    spec fn positive(self) -> bool {
        self.number >= 1
    }

    /// The version as a number.
    pub closed spec fn value(&self) -> u64 {
        self.number
    }

    /// The version `number`; there is no version 0.
    pub fn new(number: u64) -> (version: Option<Version>)
        ensures
            match version {
                Some(version) => number >= 1 && version.value() == number,
                None => number == 0,
            },
    {
        if number >= 1 {
            Some(Version { number })
        } else {
            None
        }
    }

    /// The version as a number.
    #[verifier::when_used_as_spec(value)]
    pub fn get(&self) -> (number: u64)
        ensures
            number == self.value(),
            number >= 1,
    {
        proof {
            use_type_invariant(self);
        }
        self.number
    }
}

/// How many different keys of a role must have signed a document for it to
/// be accepted: at least one.
#[derive(Debug, Clone, Copy, PartialEq, Eq)]
pub struct Threshold {
    count: u64,
}

impl Threshold {
    #[verifier::type_invariant]
    spec fn positive(self) -> bool {
        self.count >= 1
    }

    /// The number of keys.
    pub closed spec fn value(self) -> u64 {
        self.count
    }

    /// The threshold of `count` keys; there is none of no key.
    pub fn new(count: u64) -> (threshold: Option<Threshold>)
        ensures
            match threshold {
                Some(threshold) => count >= 1 && threshold.value() == count,
                None => count == 0,
            },
    {
        if count >= 1 {
            Some(Threshold { count })
        } else {
            None
        }
    }

    /// The number of keys.
    pub fn get(&self) -> (count: u64)
        ensures
            count == self.value(),
            count >= 1,
    {
        proof {
            use_type_invariant(self);
        }
        self.count
    }
}

/// The keys that may sign for a role, and how many of them must.
#[derive(Debug, Clone, PartialEq, Eq)]
pub struct RoleKeys {
    /// The identifiers of the keys of the role.
    pub key_ids: Vec<Vec<u8>>,
    /// The number of different keys of the role that must have signed a
    /// document for it to be accepted.
    pub threshold: Threshold,
}

impl RoleKeys {
    /// The identifiers of the keys of the role, as sequences.
    pub open spec fn ids(self) -> Seq<Seq<u8>> {
        Seq::new(self.key_ids@.len(), |i: int| self.key_ids@[i]@)
    }
}

/// The payload of root metadata.
#[derive(Debug, Clone, PartialEq, Eq)]
pub struct Root {
    /// The version of the document.
    pub version: Version,
    /// The instant from which the document is no longer valid.
    pub expires: UtcTime,
    /// Whether the repository serves its files under names that carry their
    /// version or digest.
    pub consistent_snapshot: bool,
    /// The keys of the repository. Where two have the same identifier, the
    /// first stands for it.
    pub keys: Vec<Key>,
    /// The keys and threshold of the root role.
    pub root: RoleKeys,
    /// The keys and threshold of the snapshot role.
    pub snapshot: RoleKeys,
    /// The keys and threshold of the targets role.
    pub targets: RoleKeys,
    /// The keys and threshold of the timestamp role.
    pub timestamp: RoleKeys,
}

/// The digests of a file.
#[derive(Debug, Clone, PartialEq, Eq)]
pub struct Hashes {
    /// The SHA-256 digest of the file.
    pub sha256: Vec<u8>,
}

/// What timestamp metadata says of the snapshot metadata it points at.
#[derive(Debug, Clone, PartialEq, Eq)]
pub struct TimestampMeta {
    /// The version of the file.
    pub version: Version,
    /// The length of the file in bytes.
    pub length: u64,
    /// The digests of the file.
    pub hashes: Hashes,
}

/// The payload of timestamp metadata.
#[derive(Debug, PartialEq, Eq)]
pub struct Timestamp {
    /// The version of the document.
    pub version: Version,
    /// The instant from which the document is no longer valid.
    pub expires: UtcTime,
    /// The files that the document points at, by name.
    pub meta: NamedMap<TimestampMeta>,
}

/// What snapshot metadata says of a metadata file it lists.
#[derive(Debug, Clone, PartialEq, Eq)]
pub struct SnapshotMeta {
    /// The version of the file.
    pub version: Version,
    /// The length of the file in bytes, if the repository states it.
    pub length: Option<u64>,
    /// The digests of the file, if the repository states them.
    pub hashes: Option<Hashes>,
}

/// The payload of snapshot metadata.
#[derive(Debug, PartialEq, Eq)]
pub struct Snapshot {
    /// The version of the document.
    pub version: Version,
    /// The instant from which the document is no longer valid.
    pub expires: UtcTime,
    /// The metadata files that the document lists, by name.
    pub meta: NamedMap<SnapshotMeta>,
}

/// What targets metadata says of one target.
#[derive(Debug, PartialEq, Eq)]
pub struct Target {
    /// An upper bound on the size of the target in bytes.
    pub length: u64,
    /// The digests of the target.
    pub hashes: Hashes,
    /// What else the repository says of the target: each value is a JSON text.
    pub custom: NamedMap<String>,
}

/// The payload of targets metadata.
#[derive(Debug, PartialEq, Eq)]
pub struct Targets {
    /// The version of the document.
    pub version: Version,
    /// The instant from which the document is no longer valid.
    pub expires: UtcTime,
    /// The targets of the repository, by name.
    pub targets: NamedMap<Target>,
}

/// One signature over a document.
#[derive(Debug, Clone, PartialEq, Eq)]
pub struct Signature {
    /// The identifier of the key that is said to have signed.
    pub key_id: Vec<u8>,
    /// The signature.
    pub sig: Vec<u8>,
}

/// A document together with the signatures over it.
#[derive(Debug, Clone, PartialEq, Eq)]
pub struct Signed<T> {
    /// The payload.
    pub signed: T,
    /// The signatures over the payload.
    pub signatures: Vec<Signature>,
    /// The canonical JSON form of the payload: the bytes that the signatures
    /// cover.
    pub canonical: Vec<u8>,
}

/// What the four payloads have in common.
pub trait Role {
    /// The role that the payload belongs to.
    spec fn spec_role_type() -> RoleType;

    /// The instant from which the payload is no longer valid.
    spec fn spec_expires(&self) -> UtcTime;

    /// The version of the payload.
    spec fn spec_version(&self) -> u64;

    /// The role that the payload belongs to.
    fn role_type() -> (role: RoleType)
        ensures
            role == Self::spec_role_type(),
    ;

    /// The instant from which the payload is no longer valid.
    fn expires(&self) -> (expires: UtcTime)
        ensures
            expires == self.spec_expires(),
    ;

    /// The version of the payload.
    fn version(&self) -> (version: u64)
        ensures
            version == self.spec_version(),
    ;
}

impl Role for Root {
    open spec fn spec_role_type() -> RoleType {
        RoleType::Root
    }

    open spec fn spec_expires(&self) -> UtcTime {
        self.expires
    }

    open spec fn spec_version(&self) -> u64 {
        self.version.value()
    }

    fn role_type() -> (role: RoleType) {
        RoleType::Root
    }

    fn expires(&self) -> (expires: UtcTime) {
        self.expires
    }

    fn version(&self) -> (version: u64) {
        self.version.get()
    }
}

impl Role for Timestamp {
    open spec fn spec_role_type() -> RoleType {
        RoleType::Timestamp
    }

    open spec fn spec_expires(&self) -> UtcTime {
        self.expires
    }

    open spec fn spec_version(&self) -> u64 {
        self.version.value()
    }

    fn role_type() -> (role: RoleType) {
        RoleType::Timestamp
    }

    fn expires(&self) -> (expires: UtcTime) {
        self.expires
    }

    fn version(&self) -> (version: u64) {
        self.version.get()
    }
}

impl Role for Snapshot {
    open spec fn spec_role_type() -> RoleType {
        RoleType::Snapshot
    }

    open spec fn spec_expires(&self) -> UtcTime {
        self.expires
    }

    open spec fn spec_version(&self) -> u64 {
        self.version.value()
    }

    fn role_type() -> (role: RoleType) {
        RoleType::Snapshot
    }

    fn expires(&self) -> (expires: UtcTime) {
        self.expires
    }

    fn version(&self) -> (version: u64) {
        self.version.get()
    }
}

impl Role for Targets {
    open spec fn spec_role_type() -> RoleType {
        RoleType::Targets
    }

    open spec fn spec_expires(&self) -> UtcTime {
        self.expires
    }

    open spec fn spec_version(&self) -> u64 {
        self.version.value()
    }

    fn role_type() -> (role: RoleType) {
        RoleType::Targets
    }

    fn expires(&self) -> (expires: UtcTime) {
        self.expires
    }

    fn version(&self) -> (version: u64) {
        self.version.get()
    }
}

/// Tells whether two byte strings are equal.
pub fn bytes_equal(a: &[u8], b: &[u8]) -> (equal: bool)
    ensures
        equal == (a@ == b@),
{
    if a.len() != b.len() {
        return false;
    }
    let mut i: usize = 0;
    while i < a.len()
        invariant
            i <= a@.len(),
            a@.len() == b@.len(),
            forall|k: int| 0 <= k < i ==> a@[k] == b@[k],
        decreases a@.len() - i,
    {
        if a[i] != b[i] {
            return false;
        }
        i += 1;
    }
    assert(a@ =~= b@);
    true
}

/// The first key of `keys` whose identifier is `key_id`, by position.
pub open spec fn key_position(keys: Seq<Key>, key_id: Seq<u8>) -> Option<int>
    decreases keys.len(),
{
    if keys.len() == 0 {
        None
    } else if keys[0].key_id@ == key_id {
        Some(0)
    } else {
        match key_position(keys.drop_first(), key_id) {
            Some(i) => Some(i + 1),
            None => None,
        }
    }
}

/// What [`key_position`] finds: the first position with that identifier.
pub proof fn lemma_key_position(keys: Seq<Key>, key_id: Seq<u8>)
    ensures
        match key_position(keys, key_id) {
            Some(i) => {
                &&& 0 <= i < keys.len()
                &&& keys[i].key_id@ == key_id
                &&& forall|k: int| 0 <= k < i ==> keys[k].key_id@ != key_id
            },
            None => forall|k: int| 0 <= k < keys.len() ==> keys[k].key_id@ != key_id,
        },
    decreases keys.len(),
{
    if keys.len() > 0 && keys[0].key_id@ != key_id {
        let rest = keys.drop_first();
        lemma_key_position(rest, key_id);
        match key_position(rest, key_id) {
            Some(i) => {
                assert forall|k: int| 0 <= k < i + 1 implies keys[k].key_id@ != key_id by {
                    if k > 0 {
                        assert(rest[k - 1] == keys[k]);
                    }
                }
            },
            None => {
                assert forall|k: int| 0 <= k < keys.len() implies keys[k].key_id@ != key_id by {
                    if k > 0 {
                        assert(rest[k - 1] == keys[k]);
                    }
                }
            },
        }
    }
}

impl Root {
    /// The keys and threshold that the document gives `role`.
    pub open spec fn spec_role_keys(self, role: RoleType) -> RoleKeys {
        match role {
            RoleType::Root => self.root,
            RoleType::Snapshot => self.snapshot,
            RoleType::Targets => self.targets,
            RoleType::Timestamp => self.timestamp,
        }
    }

    /// The key that the document declares under `key_id`, if any.
    pub open spec fn spec_key(self, key_id: Seq<u8>) -> Option<Key> {
        match key_position(self.keys@, key_id) {
            Some(i) => Some(self.keys@[i]),
            None => None,
        }
    }

    /// The keys and threshold that the document gives `role`.
    pub fn role_keys(&self, role: RoleType) -> (keys: &RoleKeys)
        ensures
            *keys == self.spec_role_keys(role),
    {
        match role {
            RoleType::Root => &self.root,
            RoleType::Snapshot => &self.snapshot,
            RoleType::Targets => &self.targets,
            RoleType::Timestamp => &self.timestamp,
        }
    }

    /// Looks up the key that the document declares under `key_id`.
    pub fn key(&self, key_id: &[u8]) -> (key: Option<&Key>)
        ensures
            match key {
                Some(k) => self.spec_key(key_id@) == Some(*k),
                None => self.spec_key(key_id@) is None,
            },
    {
        let mut i: usize = 0;
        while i < self.keys.len()
            invariant
                i <= self.keys@.len(),
                forall|k: int| 0 <= k < i ==> self.keys@[k].key_id@ != key_id@,
            decreases self.keys@.len() - i,
        {
            if bytes_equal(self.keys[i].key_id.as_slice(), key_id) {
                proof {
                    lemma_key_position(self.keys@, key_id@);
                }
                return Some(&self.keys[i]);
            }
            i += 1;
        }
        proof {
            lemma_key_position(self.keys@, key_id@);
        }
        None
    }
}

/// Tells whether two keys are the same in all they hold.
pub fn keys_equal(a: &Key, b: &Key) -> (equal: bool)
    ensures
        equal == (a@ == b@),
{
    a.key_type == b.key_type && a.scheme == b.scheme && bytes_equal(
        a.key_id.as_slice(),
        b.key_id.as_slice(),
    ) && bytes_equal(a.public.as_slice(), b.public.as_slice())
}

impl Root {
    /// The keys of `role`: each key that the document declares under one of
    /// the identifiers of the role.
    pub open spec fn role_key_set(self, role: RoleType) -> Set<KeyView> {
        let ids = self.spec_role_keys(role).ids();
        Set::new(
            |key: KeyView|
                exists|i: int|
                    0 <= i < ids.len() && (#[trigger] self.spec_key(ids[i])) is Some
                        && self.spec_key(ids[i]).unwrap()@ == key,
        )
    }

    /// Tells whether `key` is one of the keys of `role`.
    pub fn has_role_key(&self, role: RoleType, key: &Key) -> (has: bool)
        ensures
            has == self.role_key_set(role).contains(key@),
    {
        let role_keys = self.role_keys(role);
        let mut i: usize = 0;
        while i < role_keys.key_ids.len()
            invariant
                i <= role_keys.key_ids@.len(),
                *role_keys == self.spec_role_keys(role),
                forall|k: int|
                    0 <= k < i ==> ((#[trigger] self.spec_key(role_keys.ids()[k])) matches Some(
                        found,
                    ) ==> found@ != key@),
            decreases role_keys.key_ids@.len() - i,
        {
            assert(role_keys.ids()[i as int] == role_keys.key_ids@[i as int]@);
            match self.key(role_keys.key_ids[i].as_slice()) {
                Some(found) => {
                    if keys_equal(found, key) {
                        return true;
                    }
                },
                None => {},
            }
            i += 1;
        }
        false
    }

    /// Tells whether every key of `role` in this document is a key of `role`
    /// in `other`.
    pub fn role_keys_within(&self, other: &Root, role: RoleType) -> (within: bool)
        ensures
            within == self.role_key_set(role).subset_of(other.role_key_set(role)),
    {
        let role_keys = self.role_keys(role);
        let mut i: usize = 0;
        while i < role_keys.key_ids.len()
            invariant
                i <= role_keys.key_ids@.len(),
                *role_keys == self.spec_role_keys(role),
                forall|k: int|
                    0 <= k < i ==> ((#[trigger] self.spec_key(role_keys.ids()[k])) matches Some(
                        found,
                    ) ==> other.role_key_set(role).contains(found@)),
            decreases role_keys.key_ids@.len() - i,
        {
            assert(role_keys.ids()[i as int] == role_keys.key_ids@[i as int]@);
            match self.key(role_keys.key_ids[i].as_slice()) {
                Some(found) => {
                    if !other.has_role_key(role, found) {
                        assert(self.role_key_set(role).contains(found@));
                        return false;
                    }
                },
                None => {},
            }
            i += 1;
        }
        true
    }

    /// Tells whether `role` has the same keys in this document and in `other`.
    pub fn same_role_keys(&self, other: &Root, role: RoleType) -> (same: bool)
        ensures
            same == (self.role_key_set(role) == other.role_key_set(role)),
    {
        let same = self.role_keys_within(other, role) && other.role_keys_within(self, role);
        proof {
            if same {
                assert(self.role_key_set(role) =~= other.role_key_set(role));
            }
        }
        same
    }
}

impl RoleKeys {
    /// Tells whether `key_id` is one of the identifiers of the role.
    pub fn names(&self, key_id: &[u8]) -> (named: bool)
        ensures
            named == self.ids().contains(key_id@),
    {
        let mut i: usize = 0;
        while i < self.key_ids.len()
            invariant
                i <= self.key_ids@.len(),
                forall|k: int| 0 <= k < i ==> self.ids()[k] != key_id@,
            decreases self.key_ids@.len() - i,
        {
            if bytes_equal(self.key_ids[i].as_slice(), key_id) {
                assert(self.ids()[i as int] == key_id@);
                return true;
            }
            i += 1;
        }
        false
    }
}

} // verus!
