//! The chain itself: the well-formedness invariant, the builder that
//! appends a block for a new entry, the verifier that certifies the
//! backward-link invariant, and the lookup by filename.

use vstd::prelude::*;
use vstd::string::{StringExecFns, StringSliceAdditionalSpecFns};

use crate::block::{block_wf, create_block, Block};
use crate::crypto::{
    aes_gcm_ct, encrypt_and_hash, lemma_hex_newline_free, lower_hex, sha256_hex_of, CONTENT_MAX,
    KEY_LEN, NONCE_LEN,
};
use crate::newline_free;
use crate::report::{block_newline_free, chain_newline_free};
use crate::LedgerError;

verus! {

/// The `previous_hash` of a genesis block: sixteen zero characters.
pub open spec fn spec_sentinel() -> Seq<char> {
    "0000000000000000"@
}

/// The sentinel `previous_hash` of a genesis block, as a value.
pub fn sentinel_hash() -> (s: String)
    ensures
        s@ == spec_sentinel(),
{
    String::from_str("0000000000000000")
}

/// The backward link at position `i` holds: the block names the digest of
/// its predecessor.
pub open spec fn link_ok(c: Seq<Block>, i: int) -> bool {
    c[i].previous_hash@ == c[i - 1].data_hash@
}

/// Every backward link of the chain holds.
pub open spec fn links_ok(c: Seq<Block>) -> bool {
    forall|i: int| 1 <= i < c.len() ==> link_ok(c, i)
}

/// The chain invariant the builder maintains: indices are contiguous from
/// zero, the first block points at the sentinel, every later block points
/// at its predecessor's digest, and each block's metadata view agrees with
/// the block.
pub open spec fn chain_wf(c: Seq<Block>) -> bool {
    &&& forall|i: int| 0 <= i < c.len() ==> #[trigger] c[i].index == i
    &&& c.len() > 0 ==> c[0].previous_hash@ == spec_sentinel()
    &&& links_ok(c)
    &&& forall|i: int| 0 <= i < c.len() ==> block_wf(#[trigger] c[i])
}

/// The empty chain is well-formed: the builder may start from nothing.
pub proof fn lemma_empty_chain_wf()
    ensures
        chain_wf(Seq::<Block>::empty()),
{
}

/// Contiguity: in a well-formed chain, every block's `index` field equals
/// its position.
pub proof fn lemma_chain_contiguity(c: Seq<Block>)
    requires
        chain_wf(c),
    ensures
        forall|i: int| 0 <= i < c.len() ==> #[trigger] c[i].index == i,
{
}

/// Link invariant: in a well-formed chain, every block past the first
/// carries its predecessor's digest as `previous_hash`.
pub proof fn lemma_chain_links(c: Seq<Block>)
    requires
        chain_wf(c),
    ensures
        forall|i: int| 1 <= i < c.len() ==> c[i].previous_hash@ == c[i - 1].data_hash@,
{
    assert forall|i: int| 1 <= i < c.len() implies c[i].previous_hash@ == c[i
        - 1].data_hash@ by {
        assert(link_ok(c, i));
    }
}

/// Appends one block for `filename` with the given `content` to the chain.
///
/// The new block's `previous_hash` is the last block's digest, or the
/// sentinel on an empty chain; its `index` is the old length; its
/// `data_hash` is the hex digest of the content's ciphertext under a fresh
/// nonce. Whatever the outcome, the old blocks stay untouched (the chain is
/// append-only), well-formedness is preserved, and so is freedom from
/// newlines when the new filename is free of them. The cipher refuses only
/// content above its length limit; on failure the chain is unchanged.
pub fn append_block(
    chain: &mut Vec<Block>,
    filename: String,
    content: &str,
    key_bytes: &[u8],
) -> (r: Result<Block, LedgerError>)
    requires
        key_bytes@.len() == KEY_LEN,
    ensures
        r is Ok ==> {
            let b = r->Ok_0;
            &&& final(chain)@ == old(chain)@.push(b)
            &&& b.index == old(chain)@.len()
            &&& b.previous_hash@ == if old(chain)@.len() == 0 {
                spec_sentinel()
            } else {
                old(chain)@.last().data_hash@
            }
            &&& b.metadata.filename == filename
            &&& block_wf(b)
            &&& exists|nonce: Seq<u8>|
                nonce.len() == NONCE_LEN && b.data_hash@ == sha256_hex_of(
                    aes_gcm_ct(key_bytes@, nonce, content.spec_bytes()),
                )
            &&& b.data_hash@.len() == 64
            &&& lower_hex(b.data_hash@)
            &&& newline_free(b.timestamp@)
        },
        content.spec_bytes().len() <= CONTENT_MAX ==> r is Ok,
        r is Err ==> final(chain)@ == old(chain)@ && r->Err_0
            == LedgerError::EncryptionFailure,
        old(chain)@.is_prefix_of(final(chain)@),
        chain_wf(old(chain)@) ==> chain_wf(final(chain)@),
        chain_newline_free(old(chain)@) && newline_free(filename@) ==> chain_newline_free(
            final(chain)@,
        ),
{
    let previous_hash = if chain.len() == 0 {
        sentinel_hash()
    } else {
        chain[chain.len() - 1].data_hash.clone()
    };
    let index = chain.len() as u64;
    let data_hash = match encrypt_and_hash(content, key_bytes) {
        Ok(pair) => pair.1,
        Err(e) => {
            proof {
                assert(old(chain)@ =~= chain@.subrange(0, old(chain)@.len() as int));
            }
            return Err(e);
        },
    };
    let block = create_block(index, previous_hash, data_hash, filename);
    chain.push(block.clone());
    proof {
        let oldc = old(chain)@;
        let newc = chain@;
        assert(newc == oldc.push(block));
        if chain_wf(oldc) {
            assert forall|i: int| 0 <= i < newc.len() implies #[trigger] newc[i].index == i by {
                if i < oldc.len() {
                    assert(newc[i] == oldc[i]);
                }
            }
            assert forall|i: int| 1 <= i < newc.len() implies link_ok(newc, i) by {
                if i < oldc.len() {
                    assert(link_ok(oldc, i));
                    assert(newc[i] == oldc[i] && newc[i - 1] == oldc[i - 1]);
                } else {
                    assert(newc[i] == block);
                    assert(newc[i - 1] == oldc[i - 1] && i - 1 == oldc.len() - 1);
                }
            }
            assert forall|i: int| 0 <= i < newc.len() implies block_wf(#[trigger] newc[i]) by {
                if i < oldc.len() {
                    assert(newc[i] == oldc[i]);
                }
            }
            assert(chain_wf(newc));
        }
        assert(oldc.is_prefix_of(newc)) by {
            assert(oldc =~= newc.subrange(0, oldc.len() as int));
        }
        if chain_newline_free(oldc) && newline_free(filename@) {
            lemma_hex_newline_free(block.data_hash@);
            if oldc.len() == 0 {
                reveal_strlit("0000000000000000");
                assert(newline_free(spec_sentinel()));
            } else {
                assert(block_newline_free(oldc.last()));
            }
            assert(block_newline_free(block));
            assert forall|i: int| 0 <= i < newc.len() implies block_newline_free(
                #[trigger] newc[i],
            ) by {
                if i < oldc.len() {
                    assert(block_newline_free(oldc[i]));
                    assert(newc[i] == oldc[i]);
                }
            }
            assert(chain_newline_free(newc));
        }
    }
    Ok(block)
}

/// Certifies the backward-link invariant by a single forward scan.
///
/// Returns the block count when every link holds; otherwise stops at the
/// first broken link and reports the position of the block whose
/// `previous_hash` does not match. The verdict depends on the
/// `previous_hash`/`data_hash` sequence alone: neither index contiguity
/// nor timestamps are examined.
pub fn verify_chain(chain: &Vec<Block>) -> (r: Result<usize, u64>)
    ensures
        r is Ok <==> links_ok(chain@),
        r is Ok ==> r->Ok_0 == chain@.len(),
        r is Err ==> {
            let j = r->Err_0 as int;
            &&& 1 <= j < chain@.len()
            &&& !link_ok(chain@, j)
            &&& forall|k: int| 1 <= k < j ==> link_ok(chain@, k)
        },
{
    let n = chain.len();
    let mut i: usize = 1;
    while i < n
        invariant
            1 <= i,
            n == chain@.len(),
            forall|k: int| 1 <= k < i ==> link_ok(chain@, k),
        decreases n - i,
    {
        if !(chain[i].previous_hash == chain[i - 1].data_hash) {
            proof {
                assert(!link_ok(chain@, i as int));
            }
            return Err(i as u64);
        }
        proof {
            assert(link_ok(chain@, i as int));
        }
        i = i + 1;
    }
    Ok(n)
}

/// Finds the position of the first block whose metadata filename equals
/// `filename`, scanning in chain order; `None` when no block matches.
pub fn find_by_filename(chain: &Vec<Block>, filename: &String) -> (r: Option<usize>)
    ensures
        r is Some ==> {
            &&& r->0 < chain@.len()
            &&& chain@[r->0 as int].metadata.filename@ == filename@
            &&& forall|k: int|
                0 <= k < r->0 ==> #[trigger] chain@[k].metadata.filename@ != filename@
        },
        r is None ==> forall|k: int|
            0 <= k < chain@.len() ==> #[trigger] chain@[k].metadata.filename@ != filename@,
{
    let n = chain.len();
    let mut i: usize = 0;
    while i < n
        invariant
            n == chain@.len(),
            forall|k: int| 0 <= k < i ==> #[trigger] chain@[k].metadata.filename@ != filename@,
        decreases n - i,
    {
        if chain[i].metadata.filename == *filename {
            return Some(i);
        }
        i = i + 1;
    }
    None
}

/// Ingests one candidate entry under the batch policy: an entry whose
/// metadata sidecar already exists is skipped — and only such an entry —
/// leaving the chain unchanged; otherwise a block is appended as
/// `append_block` does and returned. Whatever the outcome, the old blocks
/// stay untouched, well-formedness is preserved, and so is freedom from
/// newlines when the new filename is free of them.
pub fn ingest_entry(
    chain: &mut Vec<Block>,
    filename: String,
    content: &str,
    key_bytes: &[u8],
    sidecar_exists: bool,
) -> (r: Result<Option<Block>, LedgerError>)
    requires
        key_bytes@.len() == KEY_LEN,
    ensures
        sidecar_exists ==> r is Ok && r->Ok_0 is None,
        r is Ok && r->Ok_0 is None ==> sidecar_exists && final(chain)@ == old(chain)@,
        r is Ok && r->Ok_0 is Some ==> {
            let b = r->Ok_0->0;
            &&& !sidecar_exists
            &&& final(chain)@ == old(chain)@.push(b)
            &&& b.index == old(chain)@.len()
            &&& b.previous_hash@ == if old(chain)@.len() == 0 {
                spec_sentinel()
            } else {
                old(chain)@.last().data_hash@
            }
            &&& b.metadata.filename == filename
            &&& block_wf(b)
            &&& exists|nonce: Seq<u8>|
                nonce.len() == NONCE_LEN && b.data_hash@ == sha256_hex_of(
                    aes_gcm_ct(key_bytes@, nonce, content.spec_bytes()),
                )
            &&& b.data_hash@.len() == 64
            &&& lower_hex(b.data_hash@)
        },
        !sidecar_exists && content.spec_bytes().len() <= CONTENT_MAX ==> r is Ok && r->Ok_0
            is Some,
        r is Err ==> final(chain)@ == old(chain)@ && r->Err_0
            == LedgerError::EncryptionFailure,
        old(chain)@.is_prefix_of(final(chain)@),
        chain_wf(old(chain)@) ==> chain_wf(final(chain)@),
        chain_newline_free(old(chain)@) && newline_free(filename@) ==> chain_newline_free(
            final(chain)@,
        ),
{
    if sidecar_exists {
        proof {
            assert(old(chain)@ =~= chain@.subrange(0, old(chain)@.len() as int));
        }
        return Ok(None);
    }
    match append_block(chain, filename, content, key_bytes) {
        Ok(b) => Ok(Some(b)),
        Err(e) => Err(e),
    }
}

} // verus!
