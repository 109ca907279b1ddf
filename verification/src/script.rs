//! Script byte strings, witness versions and output scripts.

use vstd::prelude::*;

use amplify::confinement::{Confined, U32};

use crate::bytes::push_bytes;
use crate::opcodes::{OP_PUSHBYTES_0, OP_PUSHNUM_1};

verus! {

/// The largest number of bytes that a script may hold (4 GB): amplify's
/// `U32` confinement bound.
pub const SCRIPT_MAX_LEN: usize = 0xFFFF_FFFF;

/// amplify's byte vector confined to at most `U32` bytes, which a script is
/// kept in.
#[verifier::external_body]
#[derive(Debug, PartialEq, Eq, Hash, PartialOrd, Ord)]
pub struct ConfinedBytes {
    inner: Confined<Vec<u8>, 0, U32>,
}

/// The bytes that a confined byte vector holds.
pub uninterp spec fn confined_bytes(bytes: ConfinedBytes) -> Seq<u8>;

/// Trusted: `Confined::with_capacity` builds an empty collection (with
/// room for `capacity` items, which the contract leaves unsaid).
#[verifier::external_body]
fn confined_with_capacity(capacity: usize) -> (bytes: ConfinedBytes)
    ensures
        confined_bytes(bytes) == Seq::<u8>::empty(),
{
    ConfinedBytes { inner: Confined::with_capacity(capacity) }
}

/// Trusted: `Confined::try_from` keeps the vector exactly where its length
/// is within the bounds, here 0 to `U32`.
#[verifier::external_body]
fn confined_try_from(bytes: Vec<u8>) -> (confined: Option<ConfinedBytes>)
    ensures
        confined is Some <==> bytes@.len() <= SCRIPT_MAX_LEN,
        confined matches Some(c) ==> confined_bytes(c) == bytes@,
{
    match Confined::try_from(bytes) {
        Ok(inner) => Some(ConfinedBytes { inner }),
        Err(_) => None,
    }
}

/// Trusted: `Confined::push` appends the byte where the collection holds
/// fewer than `U32` bytes, and otherwise fails and leaves it as it was.
#[verifier::external_body]
fn confined_push(bytes: &mut ConfinedBytes, byte: u8) -> (pushed: bool)
    ensures
        pushed <==> confined_bytes(*old(bytes)).len() < SCRIPT_MAX_LEN,
        pushed ==> confined_bytes(*final(bytes)) == confined_bytes(*old(bytes)).push(byte),
        !pushed ==> confined_bytes(*final(bytes)) == confined_bytes(*old(bytes)),
{
    bytes.inner.push(byte).is_ok()
}

/// Trusted: the slice of the vector that the confinement holds (through
/// `Confined::as_unconfined`).
#[verifier::external_body]
fn confined_as_slice(bytes: &ConfinedBytes) -> (slice: &[u8])
    ensures
        slice@ == confined_bytes(*bytes),
{
    bytes.inner.as_unconfined().as_slice()
}

/// Trusted: the derived `Clone` of `Confined`, which clones the vector and
/// so keeps its bytes.
#[verifier::external_body]
fn confined_clone(bytes: &ConfinedBytes) -> (copy: ConfinedBytes)
    ensures
        confined_bytes(copy) == confined_bytes(*bytes),
{
    ConfinedBytes { inner: bytes.inner.clone() }
}

/// Trusted: `Confined::release` hands back the vector it holds.
#[verifier::external_body]
fn confined_release(bytes: ConfinedBytes) -> (vec: Vec<u8>)
    ensures
        vec@ == confined_bytes(bytes),
{
    bytes.inner.release()
}

/// A script: a byte string no longer than [`SCRIPT_MAX_LEN`].
#[derive(Debug, PartialEq, Eq, Hash, PartialOrd, Ord)]
pub struct ScriptBytes {
    bytes: ConfinedBytes,
}

impl View for ScriptBytes {
    type V = Seq<u8>;

    closed spec fn view(&self) -> Seq<u8> {
        confined_bytes(self.bytes)
    }
}

impl Clone for ScriptBytes {
    fn clone(&self) -> (copy: ScriptBytes)
        ensures
            copy@ == self@,
    {
        proof {
            use_type_invariant(self);
        }
        ScriptBytes { bytes: confined_clone(&self.bytes) }
    }
}

impl Default for ScriptBytes {
    fn default() -> (script: ScriptBytes)
        ensures
            script@ == Seq::<u8>::empty(),
    {
        ScriptBytes { bytes: confined_with_capacity(0) }
    }
}

impl ScriptBytes {
    #[verifier::type_invariant]
    closed spec fn wf(self) -> bool {
        confined_bytes(self.bytes).len() <= SCRIPT_MAX_LEN
    }

    /// An empty script.
    pub fn new() -> (script: ScriptBytes)
        ensures
            script@ == Seq::<u8>::empty(),
    {
        ScriptBytes { bytes: confined_with_capacity(0) }
    }

    /// An empty script with room for `capacity` bytes.
    pub fn with_capacity(capacity: usize) -> (script: ScriptBytes)
        ensures
            script@ == Seq::<u8>::empty(),
    {
        ScriptBytes { bytes: confined_with_capacity(capacity) }
    }

    /// The script holding `bytes`; `None` where they are longer than
    /// [`SCRIPT_MAX_LEN`].
    pub fn try_from_vec(bytes: Vec<u8>) -> (script: Option<ScriptBytes>)
        ensures
            script is Some <==> bytes@.len() <= SCRIPT_MAX_LEN,
            script matches Some(s) ==> s@ == bytes@,
    {
        match confined_try_from(bytes) {
            Some(bytes) => Some(ScriptBytes { bytes }),
            None => None,
        }
    }

    /// The number of bytes in the script.
    pub fn len(&self) -> (len: usize)
        ensures
            len == self@.len(),
            len <= SCRIPT_MAX_LEN,
    {
        proof {
            use_type_invariant(self);
        }
        confined_as_slice(&self.bytes).len()
    }

    /// The bytes of the script.
    pub fn as_slice(&self) -> (bytes: &[u8])
        ensures
            bytes@ == self@,
            bytes@.len() <= SCRIPT_MAX_LEN,
    {
        proof {
            use_type_invariant(self);
        }
        confined_as_slice(&self.bytes)
    }

    /// The bytes of the script, as a vector.
    pub fn into_vec(self) -> (bytes: Vec<u8>)
        ensures
            bytes@ == self@,
    {
        confined_release(self.bytes)
    }

    /// Appends a byte; refuses, and leaves the script as it was, where the
    /// script already holds [`SCRIPT_MAX_LEN`] bytes.
    pub fn push(&mut self, byte: u8) -> (pushed: bool)
        ensures
            pushed <==> old(self)@.len() < SCRIPT_MAX_LEN,
            pushed ==> final(self)@ == old(self)@.push(byte),
            !pushed ==> final(self)@ == old(self)@,
    {
        proof {
            use_type_invariant(&*self);
        }
        let mut bytes = confined_with_capacity(0);
        std::mem::swap(&mut bytes, &mut self.bytes);
        let pushed = confined_push(&mut bytes, byte);
        self.bytes = bytes;
        pushed
    }
}

/// Version of a witness program.
#[derive(Copy, Clone, Debug, PartialEq, Eq, Structural, Hash, PartialOrd, Ord)]
pub enum WitnessVer {
    /// Initial version of witness program (segwit v0).
    V0,
    /// Version of witness program used for taproot (segwit v1).
    V1,
    /// Future witness program version 2.
    V2,
    /// Future witness program version 3.
    V3,
    /// Future witness program version 4.
    V4,
    /// Future witness program version 5.
    V5,
    /// Future witness program version 6.
    V6,
    /// Future witness program version 7.
    V7,
    /// Future witness program version 8.
    V8,
    /// Future witness program version 9.
    V9,
    /// Future witness program version 10.
    V10,
    /// Future witness program version 11.
    V11,
    /// Future witness program version 12.
    V12,
    /// Future witness program version 13.
    V13,
    /// Future witness program version 14.
    V14,
    /// Future witness program version 15.
    V15,
    /// Future witness program version 16.
    V16,
}

impl WitnessVer {
    /// The version number, from 0 to 16.
    pub open spec fn number(self) -> u8 {
        match self {
            WitnessVer::V0 => 0,
            WitnessVer::V1 => 1,
            WitnessVer::V2 => 2,
            WitnessVer::V3 => 3,
            WitnessVer::V4 => 4,
            WitnessVer::V5 => 5,
            WitnessVer::V6 => 6,
            WitnessVer::V7 => 7,
            WitnessVer::V8 => 8,
            WitnessVer::V9 => 9,
            WitnessVer::V10 => 10,
            WitnessVer::V11 => 11,
            WitnessVer::V12 => 12,
            WitnessVer::V13 => 13,
            WitnessVer::V14 => 14,
            WitnessVer::V15 => 15,
            WitnessVer::V16 => 16,
        }
    }

    /// The opcode that pushes the version: `OP_PUSHBYTES_0` for version 0,
    /// `OP_PUSHNUM_1` to `OP_PUSHNUM_16` for the others.
    pub open spec fn spec_op_code(self) -> u8 {
        if self.number() == 0 {
            OP_PUSHBYTES_0
        } else {
            (OP_PUSHNUM_1 - 1 + self.number()) as u8
        }
    }

    /// Returns the opcode that pushes this witness version.
    pub fn op_code(self) -> (code: u8)
        ensures
            code == self.spec_op_code(),
    {
        match self {
            WitnessVer::V0 => OP_PUSHBYTES_0,
            WitnessVer::V1 => 0x51,
            WitnessVer::V2 => 0x52,
            WitnessVer::V3 => 0x53,
            WitnessVer::V4 => 0x54,
            WitnessVer::V5 => 0x55,
            WitnessVer::V6 => 0x56,
            WitnessVer::V7 => 0x57,
            WitnessVer::V8 => 0x58,
            WitnessVer::V9 => 0x59,
            WitnessVer::V10 => 0x5a,
            WitnessVer::V11 => 0x5b,
            WitnessVer::V12 => 0x5c,
            WitnessVer::V13 => 0x5d,
            WitnessVer::V14 => 0x5e,
            WitnessVer::V15 => 0x5f,
            WitnessVer::V16 => 0x60,
        }
    }
}

/// A script that locks a transaction output.
#[derive(Debug, PartialEq, Eq, Hash, PartialOrd, Ord)]
pub struct ScriptPubkey(ScriptBytes);

impl View for ScriptPubkey {
    type V = Seq<u8>;

    closed spec fn view(&self) -> Seq<u8> {
        self.0@
    }
}

impl Clone for ScriptPubkey {
    fn clone(&self) -> (copy: ScriptPubkey)
        ensures
            copy@ == self@,
    {
        ScriptPubkey(self.0.clone())
    }
}

impl ScriptPubkey {
    /// The script of the witness program `prog` of version `ver`: the
    /// version opcode, then a push of the program.
    pub open spec fn witness_program(ver: WitnessVer, prog: Seq<u8>) -> Seq<u8> {
        seq![ver.spec_op_code(), prog.len() as u8] + prog
    }

    /// Builds the output script of a witness program without checking that
    /// the program is valid for its version. The program is pushed with a
    /// single length byte, which the supported lengths (up to 75) allow.
    pub fn with_witness_program_unchecked(ver: WitnessVer, prog: &[u8]) -> (script: ScriptPubkey)
        requires
            prog@.len() <= 75,
        ensures
            script@ == Self::witness_program(ver, prog@),
    {
        let mut bytes: Vec<u8> = Vec::with_capacity(prog.len() + 2);
        bytes.push(ver.op_code());
        bytes.push(prog.len() as u8);
        push_bytes(&mut bytes, prog);
        assert(bytes@ =~= Self::witness_program(ver, prog@));
        match ScriptBytes::try_from_vec(bytes) {
            Some(script) => ScriptPubkey(script),
            None => vstd::pervasive::unreached(),
        }
    }

    /// The output script made of the given script bytes.
    pub fn from_script_bytes(script: ScriptBytes) -> (script_pubkey: ScriptPubkey)
        ensures
            script_pubkey@ == script@,
    {
        ScriptPubkey(script)
    }

    /// The bytes of the script.
    pub fn as_slice(&self) -> (bytes: &[u8])
        ensures
            bytes@ == self@,
    {
        self.0.as_slice()
    }

    /// The number of bytes in the script.
    pub fn len(&self) -> (len: usize)
        ensures
            len == self@.len(),
    {
        self.0.len()
    }
}

} // verus!
