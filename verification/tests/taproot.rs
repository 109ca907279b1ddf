use bp_primitives::keys::{scalar_is_in_range, XOnlyPk, SCALAR_MAX};
use bp_primitives::script::{ScriptBytes, ScriptPubkey, WitnessVer};
use bp_primitives::taproot::{
    tap_branch_preimage, tap_leaf_preimage, InternalPk, IntoTapHash, LeafScript, LeafVer,
    TapBranchHash, TapCode, TapLeafHash, TapMerklePath, TapNodeHash, TapScript,
    MIDSTATE_TAPBRANCH, MIDSTATE_TAPLEAF, MIDSTATE_TAPSIGHASH, MIDSTATE_TAPTWEAK,
    TAPROOT_ANNEX_PREFIX, TAPROOT_LEAF_MASK, TAPROOT_LEAF_TAPSCRIPT,
};
use commit_verify::{Digest, Sha256};

fn hex32(s: &str) -> [u8; 32] {
    let v = hex(s);
    let mut out = [0u8; 32];
    out.copy_from_slice(&v);
    out
}

fn hex(s: &str) -> Vec<u8> {
    (0..s.len()).step_by(2).map(|i| u8::from_str_radix(&s[i..i + 2], 16).unwrap()).collect()
}

/// SHA-256 of `tag` twice, then of the message: computed here with sha2
/// directly, independently of the library.
fn expected_tagged_hash(tag: &[u8], msg: &[u8]) -> [u8; 32] {
    let tag_hash = Sha256::digest(tag);
    let mut engine = Sha256::new();
    engine.update(tag_hash);
    engine.update(tag_hash);
    engine.update(msg);
    engine.finalize().into()
}

fn bip341_internal_key() -> InternalPk {
    let key = XOnlyPk::from_byte_array(hex32(
        "d6889cb081036e0faefa3a35157ad71086b123b2b144b649798b494c300a961d",
    ))
    .unwrap();
    InternalPk(key)
}

#[test]
fn midstate_tags_spell_their_names() {
    assert_eq!(&MIDSTATE_TAPLEAF, b"TapLeaf");
    assert_eq!(&MIDSTATE_TAPBRANCH, b"TapBranch");
    assert_eq!(&MIDSTATE_TAPTWEAK, b"TapTweak");
    assert_eq!(&MIDSTATE_TAPSIGHASH, b"TapSighash");
    assert_eq!(TAPROOT_ANNEX_PREFIX, 0x50);
    assert_eq!(TAPROOT_LEAF_TAPSCRIPT, 0xc0);
    assert_eq!(TAPROOT_LEAF_MASK, 0xfe);
}

#[test]
fn leaf_ver_from_consensus_tapscript() {
    assert_eq!(LeafVer::from_consensus(0xc0), Ok(LeafVer::TapScript));
    assert_eq!(LeafVer::TapScript.to_consensus(), 0xc0);
}

#[test]
fn leaf_ver_from_consensus_annex_is_refused() {
    let err = LeafVer::from_consensus(0x50).unwrap_err();
    assert_eq!(err.value(), 0x50);
}

#[test]
fn leaf_ver_from_consensus_odd_is_refused() {
    for b in [0x01u8, 0x51, 0xc1, 0xff] {
        let err = LeafVer::from_consensus(b).unwrap_err();
        assert_eq!(err.value(), b);
    }
}

#[test]
fn leaf_ver_from_consensus_future() {
    for b in [0x00u8, 0x02, 0x52, 0xc2, 0xfe] {
        let v = LeafVer::from_consensus(b).unwrap();
        match v {
            LeafVer::Future(f) => assert_eq!(f.to_consensus(), b),
            LeafVer::TapScript => panic!("0x{b:02x} is no tapscript version"),
        }
        assert_eq!(v.to_consensus(), b);
    }
}

#[test]
fn leaf_ver_round_trip_all_bytes() {
    for b in 0..=255u8 {
        let ok = b == 0xc0 || (b % 2 == 0 && b != 0x50);
        match LeafVer::from_consensus(b) {
            Ok(v) => {
                assert!(ok);
                assert_eq!(v.to_consensus(), b);
                assert_eq!(LeafVer::from_consensus(v.to_consensus()), Ok(v));
            }
            Err(e) => {
                assert!(!ok);
                assert_eq!(e.value(), b);
            }
        }
    }
}

#[test]
fn leaf_ver_default_is_tapscript() {
    assert_eq!(LeafVer::default(), LeafVer::TapScript);
}

#[test]
fn tap_code_bytes() {
    assert_eq!(TapCode::PushBytes32.into_u8(), 0x20);
    assert_eq!(TapCode::Reserved.into_u8(), 0x50);
    assert_eq!(TapCode::Return.into_u8(), 0x6a);
    assert_eq!(TapCode::PushData1.into_u8(), 0x4c);
    assert_eq!(TapCode::PushData2.into_u8(), 0x4d);
    assert_eq!(TapCode::PushData4.into_u8(), 0x4e);
}

#[test]
fn tap_code_round_trip_all_bytes() {
    let mut known = 0;
    for b in 0..=255u8 {
        if let Some(op) = TapCode::try_from_u8(b) {
            assert_eq!(op.into_u8(), b);
            known += 1;
        }
    }
    assert_eq!(known, 6);
    assert_eq!(TapCode::try_from_u8(0x00), None);
}

#[test]
fn tap_script_push_opcode_appends() {
    let mut script = TapScript::new();
    assert_eq!(script.as_slice(), &[] as &[u8]);
    script.push_opcode(TapCode::PushBytes32);
    script.push_opcode(TapCode::Return);
    assert_eq!(script.as_slice(), &[0x20, 0x6a]);
    let mut other = TapScript::with_capacity(16);
    other.push_opcode(TapCode::PushData4);
    assert_eq!(other.as_slice(), &[0x4e]);
}

#[test]
fn script_bytes_push_and_bounds() {
    let mut s = ScriptBytes::default();
    assert!(s.push(7));
    assert_eq!(s.as_slice(), &[7]);
    assert_eq!(s.len(), 1);
    let t = ScriptBytes::try_from_vec(vec![1, 2, 3]).unwrap();
    assert_eq!(t.clone().into_vec(), vec![1, 2, 3]);
}

#[test]
fn leaf_script_from_tap_script() {
    let mut script = TapScript::new();
    script.push_opcode(TapCode::Return);
    let leaf = LeafScript::from_tap_script(script.clone());
    assert_eq!(leaf.version, LeafVer::TapScript);
    assert_eq!(leaf.script.as_slice(), &[0x6a]);
    let leaf2: LeafScript = script.into();
    assert_eq!(leaf2, leaf);
    let dflt = LeafScript::default();
    assert_eq!(dflt.version, LeafVer::TapScript);
    assert_eq!(dflt.script.len(), 0);
}

#[test]
fn tap_leaf_preimage_layout() {
    let msg = tap_leaf_preimage(0xc0, &[0xaa, 0xbb, 0xcc]);
    assert_eq!(msg, vec![0xc0, 3, 0, 0, 0, 0xaa, 0xbb, 0xcc]);
    let long = vec![0x51u8; 300];
    let msg = tap_leaf_preimage(0x02, &long);
    assert_eq!(&msg[..5], &[0x02, 0x2c, 0x01, 0x00, 0x00]);
    assert_eq!(&msg[5..], &long[..]);
}

#[test]
fn tap_leaf_hash_matches_independent_hash() {
    let mut script = TapScript::new();
    script.push_opcode(TapCode::PushBytes32);
    script.push_opcode(TapCode::Return);
    let hash = TapLeafHash::with_tap_script(&script);
    let expected = expected_tagged_hash(b"TapLeaf", &[0xc0, 2, 0, 0, 0, 0x20, 0x6a]);
    assert_eq!(hash.0, expected);

    let leaf = LeafScript::from_tap_script(script.clone());
    assert_eq!(leaf.tap_leaf_hash(), hash);
    assert_eq!(TapLeafHash::with_leaf_script(&leaf), hash);
}

#[test]
fn tap_leaf_hash_depends_on_version() {
    let script = ScriptBytes::try_from_vec(vec![0x6a]).unwrap();
    let v2 = LeafVer::from_consensus(0x02).unwrap();
    let leaf = LeafScript { version: v2, script };
    let expected = expected_tagged_hash(b"TapLeaf", &[0x02, 1, 0, 0, 0, 0x6a]);
    assert_eq!(leaf.tap_leaf_hash().0, expected);
}

#[test]
fn tap_branch_hash_sorts_children() {
    let a = TapNodeHash([0x11; 32]);
    let mut b_bytes = [0x11; 32];
    b_bytes[31] = 0x12;
    let b = TapNodeHash(b_bytes);
    let ab = TapBranchHash::with_nodes(a, b);
    let ba = TapBranchHash::with_nodes(b, a);
    assert_eq!(ab, ba);
    let mut msg = a.0.to_vec();
    msg.extend_from_slice(&b.0);
    assert_eq!(tap_branch_preimage(&b, &a), msg);
    assert_eq!(ab.0, expected_tagged_hash(b"TapBranch", &msg));
}

#[test]
fn tap_branch_hash_of_equal_children() {
    let a = TapNodeHash([0x42; 32]);
    let h = TapBranchHash::with_nodes(a, a);
    assert_eq!(h.0, expected_tagged_hash(b"TapBranch", &[0x42; 64]));
}

#[test]
fn into_tap_hash_keeps_bytes() {
    let leaf = TapLeafHash([3; 32]);
    let branch = TapBranchHash([4; 32]);
    let node = TapNodeHash([5; 32]);
    assert_eq!(leaf.into_tap_hash(), TapNodeHash([3; 32]));
    assert_eq!(branch.into_tap_hash(), TapNodeHash([4; 32]));
    assert_eq!(node.into_tap_hash(), node);
}

#[test]
fn xonly_key_parsing() {
    assert!(XOnlyPk::from_byte_array([0xff; 32]).is_none());
    let bytes = hex32("d6889cb081036e0faefa3a35157ad71086b123b2b144b649798b494c300a961d");
    let key = XOnlyPk::from_byte_array(bytes).unwrap();
    assert_eq!(key.to_byte_array(), bytes);
}

#[test]
fn xonly_add_tweak_refuses_out_of_range_scalar() {
    let key = bip341_internal_key().0;
    assert!(key.add_tweak(&[0xff; 32]).is_none());
}

#[test]
fn output_key_key_only_bip341() {
    let internal = bip341_internal_key();
    let tweak_msg = internal.tap_tweak_preimage(None);
    assert_eq!(tweak_msg, internal.0.to_byte_array().to_vec());
    let out = internal.to_output_key(None::<TapNodeHash>);
    assert_eq!(
        out.to_byte_array(),
        hex32("53a1f6e454df1aa2776a2814a721372d6258050de330b3c6d10ee8f4e0dda343")
    );
    assert_eq!(internal.checked_output_key(None::<TapNodeHash>), Some(out));
}

#[test]
fn output_key_matches_secp256k1_tweak() {
    let internal = bip341_internal_key();
    let root = TapNodeHash([0x5a; 32]);
    let out = internal.to_output_key(Some(root));
    let mut msg = internal.0.to_byte_array().to_vec();
    msg.extend_from_slice(&root.0);
    assert_eq!(internal.tap_tweak_preimage(Some(root)), msg);
    let tweak = expected_tagged_hash(b"TapTweak", &msg);
    let key = secp256k1::XOnlyPublicKey::from_byte_array(internal.0.to_byte_array()).unwrap();
    let scalar = secp256k1::Scalar::from_be_bytes(tweak).unwrap();
    let (expected, _) = key.add_tweak(&scalar).unwrap();
    assert_eq!(out.to_byte_array(), expected.to_byte_array());
    assert_ne!(out, internal.to_output_key(None::<TapNodeHash>));
}

#[test]
fn p2tr_key_only_bip341() {
    let script = ScriptPubkey::p2tr_key_only(bip341_internal_key());
    assert_eq!(
        script.as_slice(),
        &hex("512053a1f6e454df1aa2776a2814a721372d6258050de330b3c6d10ee8f4e0dda343")[..]
    );
    assert!(script.is_p2tr());
    assert_eq!(ScriptPubkey::checked_p2tr_key_only(bip341_internal_key()), Some(script.clone()));
    assert_eq!(ScriptPubkey::p2tr(bip341_internal_key(), None::<TapNodeHash>), script);
    assert_eq!(ScriptPubkey::checked_p2tr(bip341_internal_key(), None::<TapLeafHash>), Some(script));
}

#[test]
fn p2tr_scripted_equals_p2tr_with_root() {
    let root = TapLeafHash([0x77; 32]);
    let a = ScriptPubkey::p2tr_scripted(bip341_internal_key(), root);
    let b = ScriptPubkey::p2tr(bip341_internal_key(), Some(root));
    assert_eq!(a, b);
    assert!(a.is_p2tr());
    assert_eq!(ScriptPubkey::checked_p2tr_scripted(bip341_internal_key(), root), Some(a.clone()));
    let out = bip341_internal_key().to_output_key(Some(root));
    assert_eq!(ScriptPubkey::p2tr_tweaked(out), a);
}

#[test]
fn is_p2tr_refuses_other_scripts() {
    let key = XOnlyPk::from_byte_array(hex32(
        "d6889cb081036e0faefa3a35157ad71086b123b2b144b649798b494c300a961d",
    ))
    .unwrap();
    let v0 = ScriptPubkey::with_witness_program_unchecked(WitnessVer::V0, &key.to_byte_array());
    assert_eq!(v0.as_slice()[0], 0x00);
    assert!(!v0.is_p2tr());
    let short = ScriptPubkey::with_witness_program_unchecked(WitnessVer::V1, &[1u8; 20]);
    assert!(!short.is_p2tr());
    let v1 = ScriptPubkey::with_witness_program_unchecked(WitnessVer::V1, &key.to_byte_array());
    assert!(v1.is_p2tr());
    assert_eq!(v1.len(), 34);
}

#[test]
fn witness_ver_op_codes() {
    assert_eq!(WitnessVer::V0.op_code(), 0x00);
    assert_eq!(WitnessVer::V1.op_code(), 0x51);
    assert_eq!(WitnessVer::V16.op_code(), 0x60);
}

#[test]
fn merkle_path_is_bounded() {
    let path = TapMerklePath::try_from_vec(vec![TapBranchHash([1; 32]); 3]).unwrap();
    assert_eq!(path.as_slice().len(), 3);
    assert!(TapMerklePath::try_from_vec(vec![TapBranchHash([1; 32]); 256]).is_none());
    assert!(TapMerklePath::try_from_vec(vec![TapBranchHash([1; 32]); 255]).is_some());
}

#[test]
fn xonly_key_round_trip() {
    let bytes = hex32("187791b6f712a8ea41c8ecdd0ee77fab3e85263b37e1ec18a3651926b3a6cf27");
    let key = XOnlyPk::from_byte_array(bytes).unwrap();
    assert_eq!(XOnlyPk::from_byte_array(key.to_byte_array()), Some(key));
}

#[test]
fn internal_key_from_bytes() {
    let bytes = hex32("d6889cb081036e0faefa3a35157ad71086b123b2b144b649798b494c300a961d");
    let pk = InternalPk::from_byte_array(bytes).unwrap();
    assert_eq!(pk, bip341_internal_key());
    assert_eq!(pk.to_byte_array(), bytes);
    assert!(InternalPk::from_byte_array([0xff; 32]).is_none());
}

#[test]
fn tap_leaf_preimage_tells_versions_and_scripts_apart() {
    let a = tap_leaf_preimage(0xc0, &[0x01, 0x02]);
    let b = tap_leaf_preimage(0xc2, &[0x01, 0x02]);
    let c = tap_leaf_preimage(0xc0, &[0x01]);
    assert_ne!(a, b);
    assert_ne!(a, c);
    assert_ne!(b, c);
}

#[test]
fn tap_script_inner_round_trip() {
    let bytes = ScriptBytes::try_from_vec(vec![0x20, 0x6a]).unwrap();
    let script = TapScript::from_inner(bytes);
    assert_eq!(script.as_slice(), &[0x20, 0x6a]);
    assert_eq!(script.into_inner().into_vec(), vec![0x20, 0x6a]);
}

#[test]
fn p2tr_scripted_bip341_merkle_root() {
    // A script tree whose merkle root is given directly as a node hash.
    let internal = InternalPk::from_byte_array(hex32(
        "187791b6f712a8ea41c8ecdd0ee77fab3e85263b37e1ec18a3651926b3a6cf27",
    ))
    .unwrap();
    let root = TapNodeHash(hex32("5b75adecf53548f3ec6ad7d78383bf84cc57b55a3127c72b9a2481752dd88b21"));
    let out = internal.to_output_key(Some(root));
    assert_eq!(
        out.to_byte_array(),
        hex32("147c9c57132f6e7ecddba9800bb0c4449251c92a1e60371ee77557b6620f3ea3")
    );
}

#[test]
fn tap_tweak_hash_matches_independent_hash() {
    let internal = bip341_internal_key();
    assert_eq!(
        internal.tap_tweak_hash(None),
        hex32("b86e7be8f39bab32a6f2c0443abbc210f0edac0e2c53d501b36b64437d9c6c70")
    );
    let root = TapNodeHash([9; 32]);
    let mut msg = internal.to_byte_array().to_vec();
    msg.extend_from_slice(&root.0);
    assert_eq!(internal.tap_tweak_hash(Some(root)), expected_tagged_hash(b"TapTweak", &msg));
}

#[test]
fn is_p2tr_on_arbitrary_scripts() {
    let mut bytes = vec![0x51, 0x20];
    bytes.extend_from_slice(&[0xab; 32]);
    let p2tr = ScriptPubkey::from_script_bytes(ScriptBytes::try_from_vec(bytes.clone()).unwrap());
    assert!(p2tr.is_p2tr());
    assert_eq!(p2tr.as_slice(), &bytes[..]);

    let mut long = bytes.clone();
    long.push(0);
    assert!(!ScriptPubkey::from_script_bytes(ScriptBytes::try_from_vec(long).unwrap()).is_p2tr());

    let mut wrong_push = bytes.clone();
    wrong_push[1] = 0x21;
    assert!(!ScriptPubkey::from_script_bytes(ScriptBytes::try_from_vec(wrong_push).unwrap()).is_p2tr());

    let mut v2 = bytes.clone();
    v2[0] = 0x52;
    assert!(!ScriptPubkey::from_script_bytes(ScriptBytes::try_from_vec(v2).unwrap()).is_p2tr());

    assert!(!ScriptPubkey::from_script_bytes(ScriptBytes::new()).is_p2tr());
}

#[test]
fn xonly_key_at_or_above_field_prime_is_refused() {
    let p = hex32("fffffffffffffffffffffffffffffffffffffffffffffffffffffffefffffc2f");
    assert!(XOnlyPk::from_byte_array(p).is_none());
    let mut above = p;
    above[31] = 0x30;
    assert!(XOnlyPk::from_byte_array(above).is_none());
}

#[test]
fn p2tr_outputs_are_p2tr() {
    let root = TapBranchHash([0x13; 32]);
    assert!(ScriptPubkey::p2tr_key_only(bip341_internal_key()).is_p2tr());
    assert!(ScriptPubkey::p2tr_scripted(bip341_internal_key(), root).is_p2tr());
    assert!(ScriptPubkey::p2tr(bip341_internal_key(), Some(root)).is_p2tr());
    let out = bip341_internal_key().to_output_key(Some(root));
    assert!(ScriptPubkey::p2tr_tweaked(out).is_p2tr());
}

#[test]
fn hash_conversions_keep_bytes() {
    let leaf: TapLeafHash = [1u8; 32].into();
    let branch: TapBranchHash = [2u8; 32].into();
    let node: TapNodeHash = [3u8; 32].into();
    assert_eq!(leaf, TapLeafHash([1; 32]));
    assert_eq!(branch, TapBranchHash([2; 32]));
    assert_eq!(node, TapNodeHash([3; 32]));
    assert_eq!(TapNodeHash::from(leaf), TapNodeHash([1; 32]));
    assert_eq!(TapNodeHash::from(branch), TapNodeHash([2; 32]));
}

#[test]
fn scalar_range_boundary() {
    assert!(scalar_is_in_range(&SCALAR_MAX));
    assert!(scalar_is_in_range(&[0u8; 32]));
    let mut above = SCALAR_MAX;
    above[31] = 0x41;
    assert!(!scalar_is_in_range(&above));
    assert!(!scalar_is_in_range(&[0xff; 32]));
    let key = bip341_internal_key().0;
    assert!(key.add_tweak(&SCALAR_MAX).is_some());
    assert!(key.add_tweak(&above).is_none());
    let expected = secp256k1::XOnlyPublicKey::from_byte_array(key.to_byte_array())
        .unwrap()
        .add_tweak(&secp256k1::Scalar::from_be_bytes(SCALAR_MAX).unwrap())
        .unwrap()
        .0;
    assert_eq!(key.add_tweak(&SCALAR_MAX).unwrap().to_byte_array(), expected.to_byte_array());
}

#[test]
fn internal_key_round_trip() {
    let pk = bip341_internal_key();
    assert_eq!(InternalPk::from_byte_array(pk.to_byte_array()), Some(pk));
}

#[test]
fn clones_keep_contents() {
    let path = TapMerklePath::try_from_vec(vec![TapBranchHash([7; 32]); 2]).unwrap();
    assert_eq!(path.clone(), path);
    let script = ScriptBytes::try_from_vec(vec![9, 8, 7]).unwrap();
    assert_eq!(script.clone().as_slice(), &[9, 8, 7]);
}
