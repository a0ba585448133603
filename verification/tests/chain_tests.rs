use diarychain::block::create_block_at;
use diarychain::chain::{append_block, find_by_filename, ingest_entry, sentinel_hash, verify_chain};
use diarychain::{encrypt_and_hash, Block, LedgerError};

const KEY: &[u8] = b"0123456789abcdef0123456789abcdef";

fn build_chain(entries: &[(&str, &str)]) -> Vec<Block> {
    let mut chain: Vec<Block> = Vec::new();
    for (filename, content) in entries {
        append_block(&mut chain, filename.to_string(), content, KEY).unwrap();
    }
    chain
}

#[test]
fn genesis_sentinel() {
    let mut chain: Vec<Block> = Vec::new();
    let block = append_block(&mut chain, "day1.md".to_string(), "dear diary", KEY).unwrap();
    assert_eq!(block.index, 0);
    assert_eq!(block.previous_hash, "0000000000000000");
    assert_eq!(chain.len(), 1);
    assert_eq!(chain[0].index, 0);
    assert_eq!(sentinel_hash(), "0000000000000000");
}

#[test]
fn contiguity_of_indices() {
    let chain = build_chain(&[("a.md", "one"), ("b.md", "two"), ("c.md", "three")]);
    for (i, block) in chain.iter().enumerate() {
        assert_eq!(block.index, i as u64);
        assert_eq!(block.metadata.block_index, i as u64);
    }
}

#[test]
fn link_invariant_holds_for_builder_chains() {
    let chain = build_chain(&[("a.md", "one"), ("b.md", "two"), ("c.md", "three")]);
    for i in 1..chain.len() {
        assert_eq!(chain[i].previous_hash, chain[i - 1].data_hash);
    }
    assert_eq!(verify_chain(&chain), Ok(3));
}

#[test]
fn verifier_accepts_empty_and_single() {
    let empty: Vec<Block> = Vec::new();
    assert_eq!(verify_chain(&empty), Ok(0));
    let one = build_chain(&[("a.md", "one")]);
    assert_eq!(verify_chain(&one), Ok(1));
}

#[test]
fn tamper_detection() {
    let mut chain = build_chain(&[("a.md", "one"), ("b.md", "two"), ("c.md", "three")]);
    chain[1].data_hash = "deadbeefdeadbeef".to_string();
    assert_eq!(verify_chain(&chain), Err(2));
}

#[test]
fn tamper_reports_first_violation() {
    let mut chain = build_chain(&[
        ("a.md", "one"),
        ("b.md", "two"),
        ("c.md", "three"),
        ("d.md", "four"),
    ]);
    chain[0].data_hash = "deadbeefdeadbeef".to_string();
    chain[2].data_hash = "feedfacefeedface".to_string();
    assert_eq!(verify_chain(&chain), Err(1));
}

fn fixed_block(index: u64, previous_hash: &str, data_hash: &str, filename: &str, timestamp: &str) -> Block {
    create_block_at(
        index,
        previous_hash.to_string(),
        data_hash.to_string(),
        filename.to_string(),
        timestamp.to_string(),
    )
}

#[test]
fn verifier_reports_position_not_index_field() {
    let chain = vec![
        fixed_block(7, "0000000000000000", "aa", "a.md", "t0"),
        fixed_block(3, "zz", "bb", "b.md", "t1"),
    ];
    assert_eq!(verify_chain(&chain), Err(1));
}

#[test]
fn verdict_depends_only_on_hash_fields() {
    let first = vec![
        fixed_block(7, "0000000000000000", "aa", "a.md", "t0"),
        fixed_block(3, "zz", "bb", "b.md", "t1"),
    ];
    let second = vec![
        fixed_block(0, "0000000000000000", "aa", "x.md", "s0"),
        fixed_block(1, "zz", "bb", "y.md", "s1"),
    ];
    assert_eq!(verify_chain(&first), verify_chain(&second));
    assert_eq!(verify_chain(&first), Err(1));
}

#[test]
fn digest_is_not_deterministic() {
    let (ct1, h1) = encrypt_and_hash("same content", KEY).unwrap();
    let (ct2, h2) = encrypt_and_hash("same content", KEY).unwrap();
    assert_ne!(h1, h2);
    assert_ne!(ct1, ct2);
}

#[test]
fn appending_same_content_twice_gives_two_digests() {
    let chain = build_chain(&[("a.md", "same"), ("b.md", "same")]);
    assert_ne!(chain[0].data_hash, chain[1].data_hash);
}

#[test]
fn encrypt_and_hash_shapes() {
    let content = "an entry of some length";
    let (ciphertext, hash) = encrypt_and_hash(content, KEY).unwrap();
    assert_eq!(ciphertext.len(), content.len() + 16);
    assert_eq!(hash.len(), 64);
    assert!(hash.chars().all(|c| c.is_ascii_hexdigit() && !c.is_ascii_uppercase()));
}

#[test]
fn lookup_finds_first_match() {
    let chain = build_chain(&[("a.md", "one"), ("b.md", "two"), ("b.md", "again")]);
    assert_eq!(find_by_filename(&chain, &"a.md".to_string()), Some(0));
    assert_eq!(find_by_filename(&chain, &"b.md".to_string()), Some(1));
}

#[test]
fn lookup_misses_absent_filename() {
    let chain = build_chain(&[("a.md", "one"), ("b.md", "two")]);
    assert_eq!(find_by_filename(&chain, &"missing.md".to_string()), None);
    let empty: Vec<Block> = Vec::new();
    assert_eq!(find_by_filename(&empty, &"a.md".to_string()), None);
}

#[test]
fn ingest_skips_when_sidecar_exists() {
    let mut chain = build_chain(&[("a.md", "one")]);
    let before: Vec<(u64, String)> = chain
        .iter()
        .map(|b| (b.index, b.data_hash.clone()))
        .collect();
    let r = ingest_entry(&mut chain, "a.md".to_string(), "edited content", KEY, true).unwrap();
    assert!(r.is_none());
    assert_eq!(chain.len(), 1);
    let after: Vec<(u64, String)> = chain
        .iter()
        .map(|b| (b.index, b.data_hash.clone()))
        .collect();
    assert_eq!(before, after);
}

#[test]
fn ingest_appends_when_sidecar_absent() {
    let mut chain = build_chain(&[("a.md", "one")]);
    let r = ingest_entry(&mut chain, "b.md".to_string(), "two", KEY, false).unwrap();
    let block = r.expect("a new block");
    assert_eq!(block.index, 1);
    assert_eq!(chain.len(), 2);
    assert_eq!(chain[1].previous_hash, chain[0].data_hash);
    assert_eq!(verify_chain(&chain), Ok(2));
}

#[test]
fn metadata_mirrors_block() {
    let chain = build_chain(&[("a.md", "one")]);
    let block = &chain[0];
    assert_eq!(block.metadata.filename, "a.md");
    assert_eq!(block.metadata.hash, block.data_hash);
    assert_eq!(block.metadata.timestamp, block.timestamp);
    assert_eq!(block.metadata.block_index, block.index);
    assert_eq!(block.metadata.previous_hash, block.previous_hash);
}

#[test]
fn timestamp_is_taipei_rfc3339() {
    let chain = build_chain(&[("a.md", "one")]);
    assert!(chain[0].timestamp.ends_with("+08:00"));
}

#[test]
fn error_values_compare() {
    assert_eq!(LedgerError::EncryptionFailure, LedgerError::EncryptionFailure);
    assert_ne!(LedgerError::KeyLength, LedgerError::ChainRead);
}
