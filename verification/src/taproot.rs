use amplify::confinement::TinyVec;
use vstd::prelude::*;

use crate::bytes::{
    bytes32_le, lemma_lex_le_antisymmetric, lemma_lex_le_first_difference, lemma_lex_le_total,
    lemma_u32_le_bytes_injective, lex_le, push_bytes, push_u32_le, u32_le_bytes,
};
use crate::digest::{tagged_hash, tagged_sha256};
use crate::keys::{
    is_xonly_key, lemma_xonly_key_len, lemma_xonly_key_view_injective, tweaked_key, XOnlyPk,
};
use crate::opcodes::{
    OP_PUSHBYTES_32, OP_PUSHDATA1, OP_PUSHDATA2, OP_PUSHDATA4, OP_RESERVED, OP_RETURN,
};
use crate::script::{ScriptBytes, ScriptPubkey, WitnessVer, SCRIPT_MAX_LEN};

verus! {

/// The SHA-256 midstate value for the TapLeaf hash ("TapLeaf").
pub const MIDSTATE_TAPLEAF: [u8; 7] = [0x54, 0x61, 0x70, 0x4c, 0x65, 0x61, 0x66];

/// The SHA-256 midstate value for the TapBranch hash ("TapBranch").
pub const MIDSTATE_TAPBRANCH: [u8; 9] = [0x54, 0x61, 0x70, 0x42, 0x72, 0x61, 0x6e, 0x63, 0x68];

/// The SHA-256 midstate value for the TapTweak hash ("TapTweak").
pub const MIDSTATE_TAPTWEAK: [u8; 8] = [0x54, 0x61, 0x70, 0x54, 0x77, 0x65, 0x61, 0x6b];

/// The SHA-256 midstate value for the TapSig hash ("TapSighash").
pub const MIDSTATE_TAPSIGHASH: [u8; 10] = [0x54, 0x61, 0x70, 0x53, 0x69, 0x67, 0x68, 0x61, 0x73, 0x68];

/// A taproot internal key: the x-only key that the output key is tweaked
/// from.
#[derive(Copy, Clone, Debug, PartialEq, Eq, Hash, PartialOrd, Ord)]
pub struct InternalPk(pub XOnlyPk);

/// A value that stands for a node of a taproot script tree.
pub trait IntoTapHash: Sized {
    /// The node hash that the value stands for.
    spec fn tap_hash(self) -> TapNodeHash;

    /// Converts the value into the node hash that it stands for.
    fn into_tap_hash(self) -> (hash: TapNodeHash)
        ensures
            hash == self.tap_hash(),
    ;
}

/// The node hash that an optional merkle root stands for.
pub open spec fn tap_root<H: IntoTapHash>(merkle_root: Option<H>) -> Option<TapNodeHash> {
    match merkle_root {
        Some(root) => Some(root.tap_hash()),
        None => None,
    }
}

/// What the TapTweak hash commits to: the internal key, then the merkle
/// root where there is one.
pub open spec fn tap_tweak_msg(internal_key: Seq<u8>, merkle_root: Option<TapNodeHash>) -> Seq<u8> {
    match merkle_root {
        Some(root) => internal_key + root.0@,
        None => internal_key,
    }
}

/// The tweak of an internal key: its TapTweak hash.
pub open spec fn tap_tweak(internal_key: Seq<u8>, merkle_root: Option<TapNodeHash>) -> Seq<u8> {
    tagged_sha256(MIDSTATE_TAPTWEAK@, tap_tweak_msg(internal_key, merkle_root))
}

/// The output key of an internal key and an optional merkle root: the
/// internal key tweaked by its TapTweak hash; `None` where the hash is no
/// valid scalar or the tweak fails.
pub open spec fn output_key(internal_key: Seq<u8>, merkle_root: Option<TapNodeHash>) -> Option<Seq<u8>> {
    tweaked_key(internal_key, tap_tweak(internal_key, merkle_root))
}

impl InternalPk {
    /// Reads an internal key from its 32-byte serialization; `None` where
    /// the bytes are no valid x-only key.
    pub fn from_byte_array(data: [u8; 32]) -> (key: Option<InternalPk>)
        ensures
            key is Some <==> is_xonly_key(data@),
            key matches Some(k) ==> k.0@ == data@,
    {
        match XOnlyPk::from_byte_array(data) {
            Some(key) => Some(InternalPk(key)),
            None => None,
        }
    }

    /// The 32-byte serialization of the internal key.
    pub fn to_byte_array(&self) -> (data: [u8; 32])
        ensures
            data@ == self.0@,
            data@.len() == 32,
            is_xonly_key(data@),
    {
        self.0.to_byte_array()
    }

    /// The message that the TapTweak hash of the key commits to: the key,
    /// then the merkle root where there is one.
    pub fn tap_tweak_preimage(&self, merkle_root: Option<TapNodeHash>) -> (msg: Vec<u8>)
        ensures
            msg@ == tap_tweak_msg(self.0@, merkle_root),
            merkle_root is None ==> msg@ == self.0@,
            merkle_root matches Some(root) ==> msg@ == self.0@ + root.0@,
    {
        let key = self.0.to_byte_array();
        let mut msg: Vec<u8> = Vec::new();
        push_bytes(&mut msg, &key);
        match merkle_root {
            Some(root) => {
                push_bytes(&mut msg, &root.0);
            },
            None => {},
        }
        msg
    }

    /// The TapTweak hash of the key and the optional merkle root.
    pub fn tap_tweak_hash(&self, merkle_root: Option<TapNodeHash>) -> (tweak: [u8; 32])
        ensures
            tweak@ == tap_tweak(self.0@, merkle_root),
    {
        let msg = self.tap_tweak_preimage(merkle_root);
        tagged_hash(&MIDSTATE_TAPTWEAK, msg.as_slice())
    }

    /// Computes the output key: the key tweaked by the TapTweak hash of the
    /// key and the optional merkle root.
    pub fn to_output_key<H: IntoTapHash>(&self, merkle_root: Option<H>) -> (key: XOnlyPk)
        requires
            output_key(self.0@, tap_root(merkle_root)) is Some,
        ensures
            output_key(self.0@, tap_root(merkle_root)) == Some(key@),
    {
        match self.checked_output_key(merkle_root) {
            Some(key) => key,
            None => vstd::pervasive::unreached(),
        }
    }

    /// Computes the output key as [`InternalPk::to_output_key`] does;
    /// `None` where the TapTweak hash is no valid scalar or the tweak fails.
    pub fn checked_output_key<H: IntoTapHash>(&self, merkle_root: Option<H>) -> (key: Option<XOnlyPk>)
        ensures
            key matches Some(k) ==> output_key(self.0@, tap_root(merkle_root)) == Some(k@),
            key is None ==> output_key(self.0@, tap_root(merkle_root)) is None,
    {
        let root = match merkle_root {
            Some(h) => Some(h.into_tap_hash()),
            None => None,
        };
        let tweak = self.tap_tweak_hash(root);
        self.0.add_tweak(&tweak)
    }
}

/// The hash of a tapscript leaf.
#[derive(Copy, Clone, Debug, PartialEq, Eq, Hash, PartialOrd, Ord)]
pub struct TapLeafHash(pub [u8; 32]);

/// The hash of a branch of a tapscript tree.
#[derive(Copy, Clone, Debug, PartialEq, Eq, Hash, PartialOrd, Ord)]
pub struct TapBranchHash(pub [u8; 32]);

/// The hash of a node of a tapscript tree: a leaf or a branch.
#[derive(Copy, Clone, Debug, PartialEq, Eq, Hash, PartialOrd, Ord)]
pub struct TapNodeHash(pub [u8; 32]);

impl From<[u8; 32]> for TapLeafHash {
    fn from(value: [u8; 32]) -> (hash: TapLeafHash)
        ensures
            hash == TapLeafHash(value),
    {
        TapLeafHash(value)
    }
}

impl vstd::std_specs::convert::FromSpecImpl<[u8; 32]> for TapLeafHash {
    open spec fn obeys_from_spec() -> bool {
        true
    }

    open spec fn from_spec(value: [u8; 32]) -> TapLeafHash {
        TapLeafHash(value)
    }
}

impl From<[u8; 32]> for TapBranchHash {
    fn from(value: [u8; 32]) -> (hash: TapBranchHash)
        ensures
            hash == TapBranchHash(value),
    {
        TapBranchHash(value)
    }
}

impl vstd::std_specs::convert::FromSpecImpl<[u8; 32]> for TapBranchHash {
    open spec fn obeys_from_spec() -> bool {
        true
    }

    open spec fn from_spec(value: [u8; 32]) -> TapBranchHash {
        TapBranchHash(value)
    }
}

impl From<[u8; 32]> for TapNodeHash {
    fn from(value: [u8; 32]) -> (hash: TapNodeHash)
        ensures
            hash == TapNodeHash(value),
    {
        TapNodeHash(value)
    }
}

impl vstd::std_specs::convert::FromSpecImpl<[u8; 32]> for TapNodeHash {
    open spec fn obeys_from_spec() -> bool {
        true
    }

    open spec fn from_spec(value: [u8; 32]) -> TapNodeHash {
        TapNodeHash(value)
    }
}

impl From<TapLeafHash> for TapNodeHash {
    fn from(value: TapLeafHash) -> (hash: TapNodeHash)
        ensures
            hash == TapNodeHash(value.0),
    {
        TapNodeHash(value.0)
    }
}

impl vstd::std_specs::convert::FromSpecImpl<TapLeafHash> for TapNodeHash {
    open spec fn obeys_from_spec() -> bool {
        true
    }

    open spec fn from_spec(value: TapLeafHash) -> TapNodeHash {
        TapNodeHash(value.0)
    }
}

impl From<TapBranchHash> for TapNodeHash {
    fn from(value: TapBranchHash) -> (hash: TapNodeHash)
        ensures
            hash == TapNodeHash(value.0),
    {
        TapNodeHash(value.0)
    }
}

impl vstd::std_specs::convert::FromSpecImpl<TapBranchHash> for TapNodeHash {
    open spec fn obeys_from_spec() -> bool {
        true
    }

    open spec fn from_spec(value: TapBranchHash) -> TapNodeHash {
        TapNodeHash(value.0)
    }
}

/// What the TapLeaf hash commits to: the leaf version, the script length
/// as four little-endian bytes, then the script.
pub open spec fn tap_leaf_msg(version: u8, script: Seq<u8>) -> Seq<u8> {
    seq![version] + u32_le_bytes(script.len() as u32) + script
}

/// The TapLeaf hash of a script of the given leaf version.
pub open spec fn tap_leaf_hash(version: u8, script: Seq<u8>) -> Seq<u8> {
    tagged_sha256(MIDSTATE_TAPLEAF@, tap_leaf_msg(version, script))
}

/// What the TapBranch hash commits to: the two child hashes, the one that
/// comes first in lexicographic order first.
pub open spec fn tap_branch_msg(node1: Seq<u8>, node2: Seq<u8>) -> Seq<u8> {
    if lex_le(node1, node2) {
        node1 + node2
    } else {
        node2 + node1
    }
}

/// The TapBranch hash of two child nodes.
pub open spec fn tap_branch_hash(node1: TapNodeHash, node2: TapNodeHash) -> Seq<u8> {
    tagged_sha256(MIDSTATE_TAPBRANCH@, tap_branch_msg(node1.0@, node2.0@))
}

/// The message that the TapLeaf hash of a script of the given leaf version
/// commits to.
pub fn tap_leaf_preimage(version: u8, script: &[u8]) -> (msg: Vec<u8>)
    requires
        script@.len() <= SCRIPT_MAX_LEN,
    ensures
        msg@ == tap_leaf_msg(version, script@),
{
    let mut msg: Vec<u8> = Vec::new();
    msg.push(version);
    push_u32_le(&mut msg, script.len() as u32);
    push_bytes(&mut msg, script);
    assert(msg@ =~= tap_leaf_msg(version, script@));
    msg
}

/// The message that the TapBranch hash of two child nodes commits to.
pub fn tap_branch_preimage(node1: &TapNodeHash, node2: &TapNodeHash) -> (msg: Vec<u8>)
    ensures
        msg@ == tap_branch_msg(node1.0@, node2.0@),
        msg@ == node1.0@ + node2.0@ || msg@ == node2.0@ + node1.0@,
        lex_le(msg@.subrange(0, 32), msg@.subrange(32, 64)),
{
    proof {
        lemma_tap_branch_msg_sorted(node1.0@, node2.0@);
    }
    let mut msg: Vec<u8> = Vec::new();
    if bytes32_le(&node1.0, &node2.0) {
        push_bytes(&mut msg, &node1.0);
        push_bytes(&mut msg, &node2.0);
    } else {
        push_bytes(&mut msg, &node2.0);
        push_bytes(&mut msg, &node1.0);
    }
    msg
}

/// Hashes a leaf of the given version.
fn leaf_hash(version: u8, script: &[u8]) -> (hash: TapLeafHash)
    requires
        script@.len() <= SCRIPT_MAX_LEN,
    ensures
        hash.0@ == tap_leaf_hash(version, script@),
{
    let msg = tap_leaf_preimage(version, script);
    TapLeafHash(tagged_hash(&MIDSTATE_TAPLEAF, msg.as_slice()))
}

impl TapLeafHash {
    /// The TapLeaf hash of a leaf script.
    pub fn with_leaf_script(leaf_script: &LeafScript) -> (hash: TapLeafHash)
        ensures
            hash.0@ == tap_leaf_hash(leaf_script.version.consensus(), leaf_script.script@),
    {
        leaf_hash(leaf_script.version.to_consensus(), leaf_script.script.as_slice())
    }

    /// The TapLeaf hash of a tapscript (leaf version 0xc0).
    pub fn with_tap_script(tap_script: &TapScript) -> (hash: TapLeafHash)
        ensures
            hash.0@ == tap_leaf_hash(TAPROOT_LEAF_TAPSCRIPT, tap_script@),
    {
        leaf_hash(TAPROOT_LEAF_TAPSCRIPT, tap_script.0.as_slice())
    }
}

impl IntoTapHash for TapLeafHash {
    open spec fn tap_hash(self) -> TapNodeHash {
        TapNodeHash(self.0)
    }

    fn into_tap_hash(self) -> (hash: TapNodeHash) {
        TapNodeHash(self.0)
    }
}

impl TapBranchHash {
    /// The TapBranch hash of two child nodes, in either order.
    pub fn with_nodes(node1: TapNodeHash, node2: TapNodeHash) -> (hash: TapBranchHash)
        ensures
            hash.0@ == tap_branch_hash(node1, node2),
    {
        let msg = tap_branch_preimage(&node1, &node2);
        TapBranchHash(tagged_hash(&MIDSTATE_TAPBRANCH, msg.as_slice()))
    }
}

impl IntoTapHash for TapBranchHash {
    open spec fn tap_hash(self) -> TapNodeHash {
        TapNodeHash(self.0)
    }

    fn into_tap_hash(self) -> (hash: TapNodeHash) {
        TapNodeHash(self.0)
    }
}

impl IntoTapHash for TapNodeHash {
    open spec fn tap_hash(self) -> TapNodeHash {
        self
    }

    fn into_tap_hash(self) -> (hash: TapNodeHash) {
        self
    }
}

/// amplify's `TinyVec` of branch hashes: a vector confined to at most 255
/// items.
#[verifier::external_body]
#[derive(Debug, PartialEq, Eq, Hash, PartialOrd, Ord)]
pub struct ConfinedPath {
    inner: TinyVec<TapBranchHash>,
}

/// The branch hashes that a confined path holds.
pub uninterp spec fn confined_path(path: ConfinedPath) -> Seq<TapBranchHash>;

/// Trusted: `Confined::try_from` keeps the vector exactly where it holds at
/// most 255 items (the `U8` bound of `TinyVec`).
#[verifier::external_body]
fn confined_path_try_from(path: Vec<TapBranchHash>) -> (confined: Option<ConfinedPath>)
    ensures
        confined is Some <==> path@.len() <= 0xFF,
        confined matches Some(c) ==> confined_path(c) == path@,
{
    match TinyVec::try_from(path) {
        Ok(inner) => Some(ConfinedPath { inner }),
        Err(_) => None,
    }
}

/// Trusted: the slice of the vector that the confinement holds (through
/// `Confined::as_unconfined`).
#[verifier::external_body]
fn confined_path_as_slice(path: &ConfinedPath) -> (slice: &[TapBranchHash])
    ensures
        slice@ == confined_path(*path),
{
    path.inner.as_unconfined().as_slice()
}

/// Trusted: the derived `Clone` of `Confined`, which clones the vector of
/// (copyable) branch hashes and so keeps them.
#[verifier::external_body]
fn confined_path_clone(path: &ConfinedPath) -> (copy: ConfinedPath)
    ensures
        confined_path(copy) == confined_path(*path),
{
    ConfinedPath { inner: path.inner.clone() }
}

/// A merkle path: the branch hashes from a leaf up to the root, at most
/// 255 of them.
#[derive(Debug, PartialEq, Eq, Hash, PartialOrd, Ord)]
pub struct TapMerklePath(ConfinedPath);

impl View for TapMerklePath {
    type V = Seq<TapBranchHash>;

    closed spec fn view(&self) -> Seq<TapBranchHash> {
        confined_path(self.0)
    }
}

impl Clone for TapMerklePath {
    fn clone(&self) -> (copy: TapMerklePath)
        ensures
            copy@ == self@,
    {
        proof {
            use_type_invariant(self);
        }
        TapMerklePath(confined_path_clone(&self.0))
    }
}

impl TapMerklePath {
    #[verifier::type_invariant]
    closed spec fn wf(self) -> bool {
        confined_path(self.0).len() <= 0xFF
    }

    /// The path of the given branch hashes; `None` where there are more
    /// than 255 of them.
    pub fn try_from_vec(path: Vec<TapBranchHash>) -> (r: Option<TapMerklePath>)
        ensures
            r is Some <==> path@.len() <= 0xFF,
            r matches Some(p) ==> p@ == path@,
    {
        match confined_path_try_from(path) {
            Some(path) => Some(TapMerklePath(path)),
            None => None,
        }
    }

    /// The branch hashes of the path.
    pub fn as_slice(&self) -> (path: &[TapBranchHash])
        ensures
            path@ == self@,
            path@.len() <= 0xFF,
    {
        proof {
            use_type_invariant(self);
        }
        confined_path_as_slice(&self.0)
    }
}

/// Taproot annex prefix.
pub const TAPROOT_ANNEX_PREFIX: u8 = 0x50;

/// Tapscript leaf version.
pub const TAPROOT_LEAF_TAPSCRIPT: u8 = 0xc0;

/// Tapleaf mask for getting the leaf version from first byte of control block.
pub const TAPROOT_LEAF_MASK: u8 = 0xfe;

/// Error: the byte is not a valid taproot leaf version.
#[derive(Copy, Clone, Debug, PartialEq, Eq, Structural, PartialOrd, Ord)]
pub struct InvalidLeafVer(u8);

impl View for InvalidLeafVer {
    type V = u8;

    closed spec fn view(&self) -> u8 {
        self.0
    }
}

impl InvalidLeafVer {
    /// The byte that was refused as a leaf version.
    pub fn value(&self) -> (r: u8)
        ensures
            r == self@,
    {
        self.0
    }
}

/// Whether a byte other than the tapscript version is a valid future leaf
/// version: it is even and differs from the annex prefix.
pub open spec fn is_future_leaf_ver(version: u8) -> bool {
    &&& version % 2 == 0
    &&& version != TAPROOT_ANNEX_PREFIX
    &&& version != TAPROOT_LEAF_TAPSCRIPT
}

/// Inner type representing future (non-tapscript) leaf versions.
///
/// It has no public constructor: the only way to get one is to parse a byte
/// into a [`LeafVer`].
#[derive(Copy, Clone, Debug, PartialEq, Eq, Structural, Hash, PartialOrd, Ord)]
pub struct FutureLeafVer(u8);

impl View for FutureLeafVer {
    type V = u8;

    closed spec fn view(&self) -> u8 {
        self.0
    }
}

impl FutureLeafVer {
    #[verifier::type_invariant]
    pub closed spec fn wf(self) -> bool {
        is_future_leaf_ver(self.0)
    }

    fn from_consensus(version: u8) -> (r: Result<FutureLeafVer, InvalidLeafVer>)
        requires
            version != TAPROOT_LEAF_TAPSCRIPT,
        ensures
            r is Ok <==> is_future_leaf_ver(version),
            r matches Ok(v) ==> v@ == version,
            r matches Err(e) ==> e@ == version,
    {
        if version == TAPROOT_ANNEX_PREFIX {
            Err(InvalidLeafVer(TAPROOT_ANNEX_PREFIX))
        } else if version & 0xFE != version {
            assert(version & 0xFE != version ==> version % 2 == 1) by (bit_vector);
            Err(InvalidLeafVer(version))
        } else {
            assert(version & 0xFE == version ==> version % 2 == 0) by (bit_vector);
            Ok(FutureLeafVer(version))
        }
    }

    /// Returns the consensus representation of this [`FutureLeafVer`].
    pub fn to_consensus(self) -> (r: u8)
        ensures
            r == self@,
            is_future_leaf_ver(r),
    {
        proof {
            use_type_invariant(&self);
        }
        self.0
    }
}

/// The leaf version for tapleafs.
#[derive(Copy, Clone, Debug, PartialEq, Eq, Structural, Hash, PartialOrd, Ord)]
pub enum LeafVer {
    /// BIP-342 tapscript.
    TapScript,
    /// Future leaf version.
    Future(FutureLeafVer),
}

impl LeafVer {
    /// The consensus byte of a leaf version.
    pub open spec fn consensus(self) -> u8 {
        match self {
            LeafVer::TapScript => TAPROOT_LEAF_TAPSCRIPT,
            LeafVer::Future(v) => v@,
        }
    }

    /// Whether the value is a leaf version that a parse could have given:
    /// a future version holds a valid future byte.
    pub open spec fn wf(self) -> bool {
        match self {
            LeafVer::TapScript => true,
            LeafVer::Future(v) => is_future_leaf_ver(v@),
        }
    }

    /// Creates a [`LeafVer`] from consensus byte representation.
    ///
    /// # Errors
    ///
    /// - If the last bit of the `version` is odd.
    /// - If the `version` is 0x50 ([`TAPROOT_ANNEX_PREFIX`]).
    pub fn from_consensus(version: u8) -> (r: Result<LeafVer, InvalidLeafVer>)
        ensures
            r is Ok <==> version == TAPROOT_LEAF_TAPSCRIPT || is_future_leaf_ver(version),
            r matches Ok(v) ==> v.consensus() == version,
            version == TAPROOT_LEAF_TAPSCRIPT ==> r == Ok::<LeafVer, InvalidLeafVer>(LeafVer::TapScript),
            r matches Err(e) ==> e@ == version,
    {
        if version == TAPROOT_LEAF_TAPSCRIPT {
            Ok(LeafVer::TapScript)
        } else if version == TAPROOT_ANNEX_PREFIX {
            Err(InvalidLeafVer(TAPROOT_ANNEX_PREFIX))
        } else {
            match FutureLeafVer::from_consensus(version) {
                Ok(v) => Ok(LeafVer::Future(v)),
                Err(e) => Err(e),
            }
        }
    }

    /// Returns the consensus representation of this [`LeafVer`].
    pub fn to_consensus(self) -> (r: u8)
        ensures
            r == self.consensus(),
            self.wf(),
    {
        match self {
            LeafVer::TapScript => TAPROOT_LEAF_TAPSCRIPT,
            LeafVer::Future(version) => version.to_consensus(),
        }
    }
}


impl Default for LeafVer {
    fn default() -> (v: LeafVer)
        ensures
            v == LeafVer::TapScript,
    {
        LeafVer::TapScript
    }
}

/// A leaf script: a script together with its leaf version.
#[derive(Debug, PartialEq, Eq, Hash, PartialOrd, Ord)]
pub struct LeafScript {
    pub version: LeafVer,
    pub script: ScriptBytes,
}

impl Clone for LeafScript {
    fn clone(&self) -> (copy: LeafScript)
        ensures
            copy.version == self.version,
            copy.script@ == self.script@,
    {
        LeafScript { version: self.version, script: self.script.clone() }
    }
}

impl Default for LeafScript {
    fn default() -> (leaf: LeafScript)
        ensures
            leaf.version == LeafVer::TapScript,
            leaf.script@ == Seq::<u8>::empty(),
    {
        LeafScript { version: LeafVer::TapScript, script: ScriptBytes::new() }
    }
}

impl From<TapScript> for LeafScript {
    fn from(tap_script: TapScript) -> (leaf: LeafScript)
        ensures
            leaf.version == LeafVer::TapScript,
            leaf.script@ == tap_script@,
    {
        LeafScript { version: LeafVer::TapScript, script: tap_script.0 }
    }
}

impl vstd::std_specs::convert::FromSpecImpl<TapScript> for LeafScript {
    open spec fn obeys_from_spec() -> bool {
        true
    }

    closed spec fn from_spec(tap_script: TapScript) -> LeafScript {
        LeafScript { version: LeafVer::TapScript, script: tap_script.0 }
    }
}

impl LeafScript {
    /// The leaf script of a tapscript: leaf version [`LeafVer::TapScript`].
    pub fn from_tap_script(tap_script: TapScript) -> (leaf: LeafScript)
        ensures
            leaf.version == LeafVer::TapScript,
            leaf.script@ == tap_script@,
    {
        Self::from(tap_script)
    }

    /// The TapLeaf hash of the leaf script.
    pub fn tap_leaf_hash(&self) -> (hash: TapLeafHash)
        ensures
            hash.0@ == tap_leaf_hash(self.version.consensus(), self.script@),
    {
        TapLeafHash::with_leaf_script(self)
    }
}

/// The opcodes that a tapscript is built of.
#[derive(Copy, Clone, Debug, PartialEq, Eq, Structural, Hash)]
pub enum TapCode {
    /// Push the next 32 bytes as an array onto the stack.
    PushBytes32,
    /// Synonym for OP_RETURN.
    Reserved,
    /// Fail the script immediately.
    Return,
    /// Read the next byte as N; push the next N bytes as an array onto the
    /// stack.
    PushData1,
    /// Read the next 2 bytes as N; push the next N bytes as an array onto
    /// the stack.
    PushData2,
    /// Read the next 4 bytes as N; push the next N bytes as an array onto
    /// the stack.
    PushData4,
}

impl TapCode {
    /// The opcode byte of the tapscript opcode.
    pub open spec fn code(self) -> u8 {
        match self {
            TapCode::PushBytes32 => OP_PUSHBYTES_32,
            TapCode::Reserved => OP_RESERVED,
            TapCode::Return => OP_RETURN,
            TapCode::PushData1 => OP_PUSHDATA1,
            TapCode::PushData2 => OP_PUSHDATA2,
            TapCode::PushData4 => OP_PUSHDATA4,
        }
    }

    /// Returns the opcode byte.
    pub fn into_u8(self) -> (code: u8)
        ensures
            code == self.code(),
    {
        match self {
            TapCode::PushBytes32 => OP_PUSHBYTES_32,
            TapCode::Reserved => OP_RESERVED,
            TapCode::Return => OP_RETURN,
            TapCode::PushData1 => OP_PUSHDATA1,
            TapCode::PushData2 => OP_PUSHDATA2,
            TapCode::PushData4 => OP_PUSHDATA4,
        }
    }

    /// The tapscript opcode of the byte; `None` where the byte is none of
    /// them.
    pub fn try_from_u8(code: u8) -> (op: Option<TapCode>)
        ensures
            op matches Some(c) ==> c.code() == code,
            op is None ==> forall|c: TapCode| c.code() != code,
    {
        if code == OP_PUSHBYTES_32 {
            Some(TapCode::PushBytes32)
        } else if code == OP_RESERVED {
            Some(TapCode::Reserved)
        } else if code == OP_RETURN {
            Some(TapCode::Return)
        } else if code == OP_PUSHDATA1 {
            Some(TapCode::PushData1)
        } else if code == OP_PUSHDATA2 {
            Some(TapCode::PushData2)
        } else if code == OP_PUSHDATA4 {
            Some(TapCode::PushData4)
        } else {
            None
        }
    }
}

/// A tapscript: the script of a leaf of leaf version 0xc0.
#[derive(Debug, PartialEq, Eq, Hash, PartialOrd, Ord)]
pub struct TapScript(ScriptBytes);

impl View for TapScript {
    type V = Seq<u8>;

    closed spec fn view(&self) -> Seq<u8> {
        self.0@
    }
}

impl Clone for TapScript {
    fn clone(&self) -> (copy: TapScript)
        ensures
            copy@ == self@,
    {
        TapScript(self.0.clone())
    }
}

impl Default for TapScript {
    fn default() -> (script: TapScript)
        ensures
            script@ == Seq::<u8>::empty(),
    {
        TapScript(ScriptBytes::new())
    }
}

impl TapScript {
    /// An empty tapscript.
    pub fn new() -> (script: TapScript)
        ensures
            script@ == Seq::<u8>::empty(),
    {
        Self::default()
    }

    /// An empty tapscript with room for `capacity` bytes.
    pub fn with_capacity(capacity: usize) -> (script: TapScript)
        ensures
            script@ == Seq::<u8>::empty(),
    {
        TapScript(ScriptBytes::with_capacity(capacity))
    }

    /// The tapscript of the given script bytes.
    pub fn from_inner(script: ScriptBytes) -> (tap_script: TapScript)
        ensures
            tap_script@ == script@,
    {
        TapScript(script)
    }

    /// The script bytes of the tapscript.
    pub fn into_inner(self) -> (script: ScriptBytes)
        ensures
            script@ == self@,
    {
        self.0
    }

    /// The bytes of the tapscript.
    pub fn as_slice(&self) -> (bytes: &[u8])
        ensures
            bytes@ == self@,
            bytes@.len() <= SCRIPT_MAX_LEN,
    {
        self.0.as_slice()
    }

    /// Adds a single opcode to the script.
    pub fn push_opcode(&mut self, op_code: TapCode)
        requires
            old(self)@.len() < SCRIPT_MAX_LEN,
        ensures
            final(self)@ == old(self)@.push(op_code.code()),
    {
        let pushed = self.0.push(op_code.into_u8());
    }
}

impl ScriptPubkey {
    /// The pay-to-taproot output script of an output key: witness version
    /// 1 and the 32-byte key.
    pub open spec fn p2tr_script(output_key: Seq<u8>) -> Seq<u8> {
        ScriptPubkey::witness_program(WitnessVer::V1, output_key)
    }

    /// The pay-to-taproot output script of an internal key and an optional
    /// merkle root.
    pub fn p2tr<H: IntoTapHash>(internal_key: InternalPk, merkle_root: Option<H>) -> (script: ScriptPubkey)
        requires
            output_key(internal_key.0@, tap_root(merkle_root)) is Some,
        ensures
            script@ == ScriptPubkey::p2tr_script(output_key(internal_key.0@, tap_root(merkle_root))->Some_0),
            ScriptPubkey::spec_is_p2tr(script@),
    {
        let output_key = internal_key.to_output_key(merkle_root);
        Self::p2tr_tweaked(output_key)
    }

    /// The pay-to-taproot output script of an internal key with no script
    /// tree.
    pub fn p2tr_key_only(internal_key: InternalPk) -> (script: ScriptPubkey)
        requires
            output_key(internal_key.0@, None) is Some,
        ensures
            script@ == ScriptPubkey::p2tr_script(output_key(internal_key.0@, None)->Some_0),
            ScriptPubkey::spec_is_p2tr(script@),
    {
        let output_key = internal_key.to_output_key(None::<TapNodeHash>);
        Self::p2tr_tweaked(output_key)
    }

    /// The pay-to-taproot output script of an internal key and the merkle
    /// root of its script tree.
    pub fn p2tr_scripted<H: IntoTapHash>(internal_key: InternalPk, merkle_root: H) -> (script: ScriptPubkey)
        requires
            output_key(internal_key.0@, Some(merkle_root.tap_hash())) is Some,
        ensures
            script@ == ScriptPubkey::p2tr_script(output_key(internal_key.0@, Some(merkle_root.tap_hash()))->Some_0),
            ScriptPubkey::spec_is_p2tr(script@),
    {
        let output_key = internal_key.to_output_key(Some(merkle_root));
        Self::p2tr_tweaked(output_key)
    }

    /// The pay-to-taproot output script of an already tweaked output key.
    pub fn p2tr_tweaked(output_key: XOnlyPk) -> (script: ScriptPubkey)
        ensures
            script@ == ScriptPubkey::p2tr_script(output_key@),
            script@ == seq![0x51u8, 0x20u8] + output_key@,
            ScriptPubkey::spec_is_p2tr(script@),
    {
        // the output key is 32 bytes long, which makes it a valid
        // witness program of version 1
        let key = output_key.to_byte_array();
        let script = Self::with_witness_program_unchecked(WitnessVer::V1, &key);
        proof {
            lemma_p2tr_script_is_p2tr(output_key@);
            lemma_p2tr_script_layout(output_key@);
            assert(ScriptPubkey::p2tr_script(output_key@) =~= seq![0x51u8, 0x20u8] + output_key@);
        }
        script
    }

    /// Whether the script is a pay-to-taproot output script: 34 bytes,
    /// starting with the witness version 1 opcode and a 32-byte push.
    pub open spec fn spec_is_p2tr(script: Seq<u8>) -> bool {
        &&& script.len() == 34
        &&& script[0] == WitnessVer::V1.spec_op_code()
        &&& script[1] == OP_PUSHBYTES_32
    }

    /// Whether the script is a pay-to-taproot output script.
    pub fn is_p2tr(&self) -> (r: bool)
        ensures
            r == ScriptPubkey::spec_is_p2tr(self@),
            r <==> (self@.len() == 34 && self@[0] == 0x51 && self@[1] == 0x20),
    {
        let bytes = self.as_slice();
        bytes.len() == 34 && bytes[0] == WitnessVer::V1.op_code() && bytes[1] == OP_PUSHBYTES_32
    }

    /// The pay-to-taproot output script of an internal key and an optional
    /// merkle root; `None` where no output key can be computed.
    pub fn checked_p2tr<H: IntoTapHash>(internal_key: InternalPk, merkle_root: Option<H>) -> (script: Option<ScriptPubkey>)
        ensures
            match output_key(internal_key.0@, tap_root(merkle_root)) {
                Some(key) => script matches Some(s) && s@ == ScriptPubkey::p2tr_script(key)
                    && ScriptPubkey::spec_is_p2tr(s@),
                None => script is None,
            },
    {
        let root = match merkle_root {
            Some(h) => Some(h.into_tap_hash()),
            None => None,
        };
        match internal_key.checked_output_key(root) {
            Some(_) => Some(Self::p2tr(internal_key, root)),
            None => None,
        }
    }

    /// The pay-to-taproot output script of an internal key with no script
    /// tree; `None` where no output key can be computed.
    pub fn checked_p2tr_key_only(internal_key: InternalPk) -> (script: Option<ScriptPubkey>)
        ensures
            match output_key(internal_key.0@, None) {
                Some(key) => script matches Some(s) && s@ == ScriptPubkey::p2tr_script(key)
                    && ScriptPubkey::spec_is_p2tr(s@),
                None => script is None,
            },
    {
        match internal_key.checked_output_key(None::<TapNodeHash>) {
            Some(_) => Some(Self::p2tr_key_only(internal_key)),
            None => None,
        }
    }

    /// The pay-to-taproot output script of an internal key and the merkle
    /// root of its script tree; `None` where no output key can be computed.
    pub fn checked_p2tr_scripted<H: IntoTapHash>(internal_key: InternalPk, merkle_root: H) -> (script: Option<ScriptPubkey>)
        ensures
            match output_key(internal_key.0@, Some(merkle_root.tap_hash())) {
                Some(key) => script matches Some(s) && s@ == ScriptPubkey::p2tr_script(key)
                    && ScriptPubkey::spec_is_p2tr(s@),
                None => script is None,
            },
    {
        let root = merkle_root.into_tap_hash();
        match internal_key.checked_output_key(Some(root)) {
            Some(_) => Some(Self::p2tr_scripted(internal_key, root)),
            None => None,
        }
    }
}

/// Two leaf versions with the same consensus byte are the same version.
pub proof fn lemma_leaf_ver_consensus_injective(a: LeafVer, b: LeafVer)
    requires
        a.wf(),
        b.wf(),
        a.consensus() == b.consensus(),
    ensures
        a == b,
{
    match (a, b) {
        (LeafVer::Future(x), LeafVer::Future(y)) => {
            assert(x.0 == y.0);
        },
        _ => {},
    }
}

/// Every leaf version is read back unchanged from its own consensus byte.
pub proof fn lemma_leaf_ver_round_trip(v: LeafVer, r: Result<LeafVer, InvalidLeafVer>)
    requires
        v.wf(),
        call_ensures(LeafVer::from_consensus, (v.consensus(),), r),
    ensures
        r == Ok::<LeafVer, InvalidLeafVer>(v),
{
    if let Ok(w) = r {
        lemma_leaf_ver_consensus_injective(v, w);
    }
}

/// A byte that parses as a leaf version is that version's consensus byte.
pub proof fn lemma_leaf_ver_parse_then_encode(version: u8, r: Result<LeafVer, InvalidLeafVer>)
    requires
        call_ensures(LeafVer::from_consensus, (version,), r),
        r is Ok,
    ensures
        r->Ok_0.consensus() == version,
        r->Ok_0.wf(),
{
}

/// The TapBranch hash does not depend on the order of the two children.
pub proof fn lemma_tap_branch_hash_commutative(node1: TapNodeHash, node2: TapNodeHash)
    ensures
        tap_branch_hash(node1, node2) == tap_branch_hash(node2, node1),
{
    let (a, b) = (node1.0@, node2.0@);
    lemma_lex_le_total(a, b);
    if lex_le(a, b) && lex_le(b, a) {
        lemma_lex_le_antisymmetric(a, b);
    }
    assert(tap_branch_msg(a, b) == tap_branch_msg(b, a));
}

/// The message that the TapLeaf hash commits to determines the leaf
/// version and the script: the length prefix leaves no two readings.
pub proof fn lemma_tap_leaf_msg_injective(version1: u8, script1: Seq<u8>, version2: u8, script2: Seq<u8>)
    requires
        script1.len() <= SCRIPT_MAX_LEN,
        script2.len() <= SCRIPT_MAX_LEN,
        tap_leaf_msg(version1, script1) == tap_leaf_msg(version2, script2),
    ensures
        version1 == version2,
        script1 == script2,
{
    let (m1, m2) = (tap_leaf_msg(version1, script1), tap_leaf_msg(version2, script2));
    assert(m1[0] == version1);
    assert(m2[0] == version2);
    assert(m1.subrange(1, 5) == u32_le_bytes(script1.len() as u32));
    assert(m2.subrange(1, 5) == u32_le_bytes(script2.len() as u32));
    lemma_u32_le_bytes_injective(script1.len() as u32, script2.len() as u32);
    assert(m1.subrange(5, m1.len() as int) == script1);
    assert(m2.subrange(5, m2.len() as int) == script2);
}

/// A leaf script made from a tapscript hashes to the TapLeaf hash of that
/// tapscript.
pub proof fn lemma_tap_script_leaf_hash(leaf: LeafScript, tap_script: TapScript)
    requires
        leaf.version == LeafVer::TapScript,
        leaf.script@ == tap_script@,
    ensures
        tap_leaf_hash(leaf.version.consensus(), leaf.script@)
            == tap_leaf_hash(TAPROOT_LEAF_TAPSCRIPT, tap_script@),
{
}

/// An internal key is read back unchanged from its own serialization.
pub proof fn lemma_internal_key_round_trip(key: InternalPk, data: [u8; 32], parsed: Option<InternalPk>)
    requires
        is_xonly_key(key.0@),
        data@ == key.0@,
        call_ensures(InternalPk::from_byte_array, (data,), parsed),
    ensures
        parsed == Some(key),
{
    let k = parsed->Some_0;
    lemma_xonly_key_view_injective(k.0, key.0);
}

/// Leaf and branch hashes keep their 32 bytes when taken as node hashes.
pub proof fn lemma_into_tap_hash_keeps_bytes(leaf: TapLeafHash, branch: TapBranchHash, node: TapNodeHash)
    ensures
        leaf.tap_hash().0 == leaf.0,
        branch.tap_hash().0 == branch.0,
        node.tap_hash() == node,
{
}

/// A pay-to-taproot output script of a 32-byte output key is recognized as
/// pay-to-taproot.
pub proof fn lemma_p2tr_script_is_p2tr(output_key: Seq<u8>)
    requires
        output_key.len() == 32,
    ensures
        ScriptPubkey::spec_is_p2tr(ScriptPubkey::p2tr_script(output_key)),
{
}

/// The pay-to-taproot output script of any output key is recognized as
/// pay-to-taproot.
pub proof fn lemma_p2tr_of_key_is_p2tr(output_key: XOnlyPk)
    ensures
        ScriptPubkey::spec_is_p2tr(ScriptPubkey::p2tr_script(output_key@)),
{
    lemma_xonly_key_len(output_key);
    lemma_p2tr_script_is_p2tr(output_key@);
}

/// The key-only and the scripted output scripts are the general one with no
/// merkle root and with the given one.
pub proof fn lemma_p2tr_variants<H: IntoTapHash>(internal_key: InternalPk, merkle_root: H)
    ensures
        output_key(internal_key.0@, tap_root(None::<H>)) == output_key(internal_key.0@, None),
        output_key(internal_key.0@, tap_root(Some(merkle_root)))
            == output_key(internal_key.0@, Some(merkle_root.tap_hash())),
{
}

/// Two tapscript opcodes with the same byte are the same opcode.
pub proof fn lemma_tap_code_injective(a: TapCode, b: TapCode)
    requires
        a.code() == b.code(),
    ensures
        a == b,
{
}

/// Every tapscript opcode is read back unchanged from its own byte.
pub proof fn lemma_tap_code_round_trip(op: TapCode, r: Option<TapCode>)
    requires
        call_ensures(TapCode::try_from_u8, (op.code(),), r),
    ensures
        r == Some(op),
{
    if let Some(c) = r {
        lemma_tap_code_injective(op, c);
    }
}

/// The TapBranch message holds the two children, each once, the one that
/// comes first in unsigned lexicographic byte order first: where the first
/// bytes differ, the child with the smaller first byte leads.
pub proof fn lemma_tap_branch_msg_sorted(a: Seq<u8>, b: Seq<u8>)
    requires
        a.len() == 32,
        b.len() == 32,
    ensures
        tap_branch_msg(a, b).len() == 64,
        (tap_branch_msg(a, b).subrange(0, 32) == a && tap_branch_msg(a, b).subrange(32, 64) == b)
            || (tap_branch_msg(a, b).subrange(0, 32) == b && tap_branch_msg(a, b).subrange(32, 64)
            == a),
        tap_branch_msg(a, b) == a + b || tap_branch_msg(a, b) == b + a,
        lex_le(tap_branch_msg(a, b).subrange(0, 32), tap_branch_msg(a, b).subrange(32, 64)),
        a[0] < b[0] ==> tap_branch_msg(a, b) == a + b,
        b[0] < a[0] ==> tap_branch_msg(a, b) == b + a,
{
    lemma_lex_le_total(a, b);
    assert((a + b).subrange(0, 32) =~= a);
    assert((a + b).subrange(32, 64) =~= b);
    assert((b + a).subrange(0, 32) =~= b);
    assert((b + a).subrange(32, 64) =~= a);
    if a[0] < b[0] {
        lemma_lex_le_first_difference(a, b, 0);
    }
    if b[0] < a[0] {
        lemma_lex_le_first_difference(b, a, 0);
    }
}

/// The TapBranch hash of two nodes is the tagged hash of the two node
/// hashes, the lexicographically smaller one first.
pub proof fn lemma_with_nodes_hashes_sorted_children(
    node1: TapNodeHash,
    node2: TapNodeHash,
    hash: TapBranchHash,
)
    requires
        call_ensures(TapBranchHash::with_nodes, (node1, node2), hash),
    ensures
        lex_le(node1.0@, node2.0@) ==> hash.0@ == tagged_sha256(MIDSTATE_TAPBRANCH@, node1.0@ + node2.0@),
        lex_le(node2.0@, node1.0@) ==> hash.0@ == tagged_sha256(MIDSTATE_TAPBRANCH@, node2.0@ + node1.0@),
        node1.0[0] < node2.0[0] ==> hash.0@ == tagged_sha256(MIDSTATE_TAPBRANCH@, node1.0@ + node2.0@),
{
    lemma_tap_branch_msg_sorted(node1.0@, node2.0@);
    if lex_le(node1.0@, node2.0@) && lex_le(node2.0@, node1.0@) {
        lemma_lex_le_antisymmetric(node1.0@, node2.0@);
    }
}

/// The TapTweak message is the internal key alone where there is no merkle
/// root, and the internal key followed by the root's 32 bytes where there
/// is one.
pub proof fn lemma_tap_tweak_msg_layout(internal_key: Seq<u8>, root: TapNodeHash)
    requires
        internal_key.len() == 32,
    ensures
        tap_tweak_msg(internal_key, None) == internal_key,
        tap_tweak_msg(internal_key, Some(root)).len() == 64,
        tap_tweak_msg(internal_key, Some(root)).subrange(0, 32) == internal_key,
        tap_tweak_msg(internal_key, Some(root)).subrange(32, 64) == root.0@,
{
    assert(tap_tweak_msg(internal_key, Some(root)).subrange(0, 32) =~= internal_key);
    assert(tap_tweak_msg(internal_key, Some(root)).subrange(32, 64) =~= root.0@);
}

/// The TapTweak hash commits to the key, then to the merkle root if there
/// is one, and to nothing else.
pub proof fn lemma_tap_tweak_hash_commits(key: InternalPk, merkle_root: Option<TapNodeHash>, tweak: [u8; 32])
    requires
        call_ensures(InternalPk::tap_tweak_hash, (&key, merkle_root), tweak),
    ensures
        merkle_root is None ==> tweak@ == tagged_sha256(MIDSTATE_TAPTWEAK@, key.0@),
        merkle_root matches Some(root) ==> tweak@ == tagged_sha256(MIDSTATE_TAPTWEAK@, key.0@ + root.0@),
{
}

/// The output key is the internal key tweaked by the tagged hash of the
/// key, followed by the merkle root where there is one.
pub proof fn lemma_to_output_key_tweak(key: InternalPk, merkle_root: Option<TapNodeHash>, output: XOnlyPk)
    requires
        call_ensures(InternalPk::to_output_key::<TapNodeHash>, (&key, merkle_root), output),
    ensures
        merkle_root is None ==> Some(output@) == tweaked_key(key.0@, tagged_sha256(MIDSTATE_TAPTWEAK@, key.0@)),
        merkle_root matches Some(root) ==> Some(output@) == tweaked_key(
            key.0@,
            tagged_sha256(MIDSTATE_TAPTWEAK@, key.0@ + root.0@),
        ),
{
    assert(tap_root(merkle_root) == merkle_root);
}

/// The pay-to-taproot script of a 32-byte output key is the witness
/// version 1 opcode, a 32-byte push, and the key unchanged.
pub proof fn lemma_p2tr_script_layout(output_key: Seq<u8>)
    requires
        output_key.len() == 32,
    ensures
        ScriptPubkey::p2tr_script(output_key).len() == 34,
        ScriptPubkey::p2tr_script(output_key)[0] == 0x51,
        ScriptPubkey::p2tr_script(output_key)[1] == 0x20,
        ScriptPubkey::p2tr_script(output_key).subrange(2, 34) == output_key,
{
    assert(ScriptPubkey::p2tr_script(output_key).subrange(2, 34) =~= output_key);
}

/// The script that `p2tr_tweaked` builds carries the output key unchanged
/// after the witness version 1 opcode and the 32-byte push.
pub proof fn lemma_p2tr_tweaked_carries_key(output_key: XOnlyPk, script: ScriptPubkey)
    requires
        call_ensures(ScriptPubkey::p2tr_tweaked, (output_key,), script),
    ensures
        script@ == seq![0x51u8, 0x20u8] + output_key@,
        script@.subrange(2, 34) == output_key@,
{
    lemma_xonly_key_len(output_key);
    assert(script@.subrange(2, 34) =~= output_key@);
}

/// A script is pay-to-taproot exactly when it is 34 bytes long and starts
/// with the witness version 1 opcode (0x51) and a 32-byte push (0x20); no
/// other witness version, such as version 0 (0x00), is taken for it.
pub proof fn lemma_is_p2tr_exact(script: Seq<u8>)
    ensures
        ScriptPubkey::spec_is_p2tr(script) <==> (script.len() == 34 && script[0] == 0x51 && script[1]
            == 0x20),
        script.len() > 0 && script[0] == 0x00 ==> !ScriptPubkey::spec_is_p2tr(script),
{
}

/// `is_p2tr` answers exactly whether the script is 34 bytes starting with
/// 0x51 0x20.
pub proof fn lemma_is_p2tr_answer(script: ScriptPubkey, answer: bool)
    requires
        call_ensures(ScriptPubkey::is_p2tr, (&script,), answer),
    ensures
        answer <==> (script@.len() == 34 && script@[0] == 0x51 && script@[1] == 0x20),
{
}

} // verus!
