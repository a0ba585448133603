use diarychain::block::create_block_at;
use diarychain::chain_to_csv;
use diarychain::report::u64_to_string;
use diarychain::Block;

fn fixed_block(index: u64, previous_hash: &str, data_hash: &str, filename: &str, timestamp: &str) -> Block {
    create_block_at(
        index,
        previous_hash.to_string(),
        data_hash.to_string(),
        filename.to_string(),
        timestamp.to_string(),
    )
}

#[test]
fn u64_rendering() {
    assert_eq!(u64_to_string(0), "0");
    assert_eq!(u64_to_string(7), "7");
    assert_eq!(u64_to_string(10), "10");
    assert_eq!(u64_to_string(12345), "12345");
    assert_eq!(u64_to_string(u64::MAX), "18446744073709551615");
}

#[test]
fn csv_of_empty_chain_is_header_only() {
    let chain: Vec<Block> = Vec::new();
    assert_eq!(chain_to_csv(&chain), "index,filename,timestamp,hash,previous_hash\n");
}

#[test]
fn csv_exact_rows() {
    let chain = vec![
        fixed_block(0, "0000000000000000", "aa11", "a.md", "2024-01-01T08:00:00+08:00"),
        fixed_block(1, "aa11", "bb22", "b.md", "2024-01-02T08:00:00+08:00"),
    ];
    let expected = "index,filename,timestamp,hash,previous_hash\n\
                    0,a.md,2024-01-01T08:00:00+08:00,aa11,0000000000000000\n\
                    1,b.md,2024-01-02T08:00:00+08:00,bb22,aa11\n";
    assert_eq!(chain_to_csv(&chain), expected);
}

#[test]
fn csv_line_count_is_blocks_plus_header() {
    let chain = vec![
        fixed_block(0, "0000000000000000", "aa11", "a.md", "t0"),
        fixed_block(1, "aa11", "bb22", "b.md", "t1"),
        fixed_block(2, "bb22", "cc33", "c.md", "t2"),
    ];
    let csv = chain_to_csv(&chain);
    assert_eq!(csv.matches('\n').count(), chain.len() + 1);
    assert!(csv.ends_with('\n'));
}

#[test]
fn block_fields_appear_verbatim_in_row() {
    let chain = vec![fixed_block(42, "prevhash", "datahash", "entry.md", "stamp")];
    let csv = chain_to_csv(&chain);
    let lines: Vec<&str> = csv.lines().collect();
    assert_eq!(lines.len(), 2);
    assert_eq!(lines[0], "index,filename,timestamp,hash,previous_hash");
    assert_eq!(lines[1], "42,entry.md,stamp,datahash,prevhash");
}
