//! The block model: one chained, timestamped record of an encrypted entry,
//! together with its denormalized metadata view.

use vstd::prelude::*;

use chrono::Utc;
use chrono_tz::Asia::Taipei;

verus! {

/// The denormalized view of a block, persisted as a per-entry sidecar:
/// `hash` mirrors the block's `data_hash`, `block_index` its `index`,
/// `previous_hash` and `timestamp` the fields of the same name.
pub struct DiaryMetadata {
    pub filename: String,
    pub hash: String,
    pub timestamp: String,
    pub block_index: u64,
    pub previous_hash: String,
}

/// One link in the chain: position, creation time, the digest of this
/// entry's ciphertext, and the previous block's digest.
pub struct Block {
    pub index: u64,
    pub timestamp: String,
    pub previous_hash: String,
    pub data_hash: String,
    pub metadata: DiaryMetadata,
}

impl Clone for DiaryMetadata {
    /// A clone is equal to the original, field for field.
    fn clone(&self) -> (res: DiaryMetadata)
        ensures
            res == *self,
    {
        DiaryMetadata {
            filename: self.filename.clone(),
            hash: self.hash.clone(),
            timestamp: self.timestamp.clone(),
            block_index: self.block_index,
            previous_hash: self.previous_hash.clone(),
        }
    }
}

impl Clone for Block {
    /// A clone is equal to the original, field for field.
    fn clone(&self) -> (res: Block)
        ensures
            res == *self,
    {
        Block {
            index: self.index,
            timestamp: self.timestamp.clone(),
            previous_hash: self.previous_hash.clone(),
            data_hash: self.data_hash.clone(),
            metadata: self.metadata.clone(),
        }
    }
}

/// The metadata view agrees with the block it belongs to.
pub open spec fn block_wf(b: Block) -> bool {
    &&& b.metadata.hash@ == b.data_hash@
    &&& b.metadata.block_index == b.index
    &&& b.metadata.previous_hash@ == b.previous_hash@
    &&& b.metadata.timestamp@ == b.timestamp@
}

/// Relies on chrono's `Utc::now`, `DateTime::with_timezone` and
/// `DateTime::to_rfc3339`, and on chrono-tz's `Asia::Taipei`, for the
/// current civil time in Taipei with its offset. The value depends on the
/// clock, so only what holds of every RFC 3339 rendering is promised: it is
/// non-empty and drawn from digits, `T`, `Z`, `:`, `+`, `-` and `.`, so it
/// holds no newline and no comma. The offset itself is not promised: the
/// zone's historical daylight-saving years render differently.
#[verifier::external_body]
fn now_taipei_rfc3339() -> (r: String)
    ensures
        r@.len() > 0,
        crate::newline_free(r@),
        forall|i: int| 0 <= i < r@.len() ==> r@[i] != ',',
{
    Utc::now().with_timezone(&Taipei).to_rfc3339()
}

/// Builds the block deterministically from its fields, the creation time
/// supplied by the caller.
pub fn create_block_at(
    index: u64,
    previous_hash: String,
    data_hash: String,
    filename: String,
    timestamp: String,
) -> (b: Block)
    ensures
        b.index == index,
        b.timestamp == timestamp,
        b.previous_hash == previous_hash,
        b.data_hash == data_hash,
        b.metadata.filename == filename,
        b.metadata.hash == data_hash,
        b.metadata.timestamp == timestamp,
        b.metadata.block_index == index,
        b.metadata.previous_hash == previous_hash,
        block_wf(b),
{
    let metadata = DiaryMetadata {
        filename,
        hash: data_hash.clone(),
        timestamp: timestamp.clone(),
        block_index: index,
        previous_hash: previous_hash.clone(),
    };
    Block { index, timestamp, previous_hash, data_hash, metadata }
}

/// Builds the block with the creation time captured at this moment.
/// Everything but the timestamp's value is pinned down; of the timestamp
/// only its clock-independent shape is known.
pub fn create_block(
    index: u64,
    previous_hash: String,
    data_hash: String,
    filename: String,
) -> (b: Block)
    ensures
        b.index == index,
        b.previous_hash == previous_hash,
        b.data_hash == data_hash,
        b.metadata.filename == filename,
        b.metadata.hash == data_hash,
        b.metadata.timestamp == b.timestamp,
        b.metadata.block_index == index,
        b.metadata.previous_hash == previous_hash,
        block_wf(b),
        b.timestamp@.len() > 0,
        crate::newline_free(b.timestamp@),
        forall|i: int| 0 <= i < b.timestamp@.len() ==> b.timestamp@[i] != ',',
{
    let timestamp = now_taipei_rfc3339();
    create_block_at(index, previous_hash, data_hash, filename, timestamp)
}

} // verus!
