//! CSV rendering of a chain: one header line, then one line per block with
//! the fields in documented column order, unquoted.

use vstd::prelude::*;
use vstd::string::StringExecFns;

use crate::block::Block;
use crate::newline_free;

verus! {

/// The decimal digit `d` as a one-character string.
pub open spec fn digit_str(d: nat) -> Seq<char> {
    if d == 0 {
        "0"@
    } else if d == 1 {
        "1"@
    } else if d == 2 {
        "2"@
    } else if d == 3 {
        "3"@
    } else if d == 4 {
        "4"@
    } else if d == 5 {
        "5"@
    } else if d == 6 {
        "6"@
    } else if d == 7 {
        "7"@
    } else if d == 8 {
        "8"@
    } else {
        "9"@
    }
}

/// The usual decimal rendering of `n`, most significant digit first, no
/// leading zeros (a single zero for 0).
pub open spec fn dec_str(n: nat) -> Seq<char>
    decreases n,
{
    if n < 10 {
        digit_str(n)
    } else {
        dec_str(n / 10) + digit_str(n % 10)
    }
}

/// The header line of the export.
pub open spec fn csv_header() -> Seq<char> {
    "index,filename,timestamp,hash,previous_hash"@ + "\n"@
}

/// One exported row: the block's index, filename, timestamp, data hash and
/// previous hash, comma-separated, newline-terminated.
pub open spec fn csv_row(b: Block) -> Seq<char> {
    dec_str(b.index as nat) + ","@ + b.metadata.filename@ + ","@ + b.metadata.timestamp@ + ","@
        + b.data_hash@ + ","@ + b.previous_hash@ + "\n"@
}

/// The rows of the export, in chain order.
pub open spec fn csv_rows(c: Seq<Block>) -> Seq<char>
    decreases c.len(),
{
    if c.len() == 0 {
        Seq::empty()
    } else {
        csv_rows(c.drop_last()) + csv_row(c.last())
    }
}

/// The whole export: header line, then the rows.
pub open spec fn csv_spec(c: Seq<Block>) -> Seq<char> {
    csv_header() + csv_rows(c)
}

fn digit_literal(d: u64) -> (s: &'static str)
    requires
        d < 10,
    ensures
        s@ == digit_str(d as nat),
{
    if d == 0 {
        "0"
    } else if d == 1 {
        "1"
    } else if d == 2 {
        "2"
    } else if d == 3 {
        "3"
    } else if d == 4 {
        "4"
    } else if d == 5 {
        "5"
    } else if d == 6 {
        "6"
    } else if d == 7 {
        "7"
    } else if d == 8 {
        "8"
    } else {
        "9"
    }
}

/// Renders `n` in decimal.
pub fn u64_to_string(n: u64) -> (s: String)
    ensures
        s@ == dec_str(n as nat),
    decreases n,
{
    if n < 10 {
        digit_literal(n).to_owned()
    } else {
        let mut s = u64_to_string(n / 10);
        s.append(digit_literal(n % 10));
        s
    }
}

proof fn lemma_csv_rows_snoc(c: Seq<Block>, i: int)
    requires
        0 <= i < c.len(),
    ensures
        csv_rows(c.subrange(0, i + 1)) == csv_rows(c.subrange(0, i)) + csv_row(c[i]),
{
    let s = c.subrange(0, i + 1);
    assert(s.drop_last() =~= c.subrange(0, i));
    assert(s.last() == c[i]);
}

/// How many newline characters `s` holds: with every line of a text ending
/// in one, this is its line count.
pub open spec fn newline_count(s: Seq<char>) -> nat
    decreases s.len(),
{
    if s.len() == 0 {
        0
    } else {
        newline_count(s.drop_last()) + (if s.last() == '\n' {
            1nat
        } else {
            0nat
        })
    }
}

/// The textual fields of the block hold no newline, so its row is one line.
pub open spec fn block_newline_free(b: Block) -> bool {
    &&& newline_free(b.metadata.filename@)
    &&& newline_free(b.metadata.timestamp@)
    &&& newline_free(b.data_hash@)
    &&& newline_free(b.previous_hash@)
}

/// Every block's textual fields are free of newlines. The builder
/// maintains this for any chain whose filenames are newline-free.
pub open spec fn chain_newline_free(c: Seq<Block>) -> bool {
    forall|i: int| 0 <= i < c.len() ==> block_newline_free(#[trigger] c[i])
}

proof fn lemma_newline_count_add(a: Seq<char>, b: Seq<char>)
    ensures
        newline_count(a + b) == newline_count(a) + newline_count(b),
    decreases b.len(),
{
    if b.len() == 0 {
        assert(a + b =~= a);
    } else {
        assert((a + b).drop_last() =~= a + b.drop_last());
        assert((a + b).last() == b.last());
        lemma_newline_count_add(a, b.drop_last());
    }
}

proof fn lemma_newline_count_zero(s: Seq<char>)
    requires
        newline_free(s),
    ensures
        newline_count(s) == 0,
    decreases s.len(),
{
    if s.len() > 0 {
        lemma_newline_count_zero(s.drop_last());
    }
}

proof fn lemma_dec_str_newline_free(n: nat)
    ensures
        newline_free(dec_str(n)),
    decreases n,
{
    reveal_strlit("0");
    reveal_strlit("1");
    reveal_strlit("2");
    reveal_strlit("3");
    reveal_strlit("4");
    reveal_strlit("5");
    reveal_strlit("6");
    reveal_strlit("7");
    reveal_strlit("8");
    reveal_strlit("9");
    if n >= 10 {
        lemma_dec_str_newline_free(n / 10);
    }
}

proof fn lemma_newline_count_single()
    ensures
        newline_count("\n"@) == 1,
{
    reveal_strlit("\n");
    assert(newline_count(Seq::<char>::empty()) == 0);
    assert("\n"@.drop_last() =~= Seq::<char>::empty());
    assert("\n"@.last() == '\n');
}

proof fn lemma_csv_row_count(b: Block)
    requires
        block_newline_free(b),
    ensures
        newline_count(csv_row(b)) == 1,
{
    reveal_strlit(",");
    reveal_strlit("\n");
    lemma_dec_str_newline_free(b.index as nat);
    let head = dec_str(b.index as nat) + ","@ + b.metadata.filename@ + ","@
        + b.metadata.timestamp@ + ","@ + b.data_hash@ + ","@ + b.previous_hash@;
    assert(newline_free(head));
    lemma_newline_count_zero(head);
    lemma_newline_count_add(head, "\n"@);
    lemma_newline_count_single();
}

proof fn lemma_csv_rows_count(c: Seq<Block>)
    requires
        chain_newline_free(c),
    ensures
        newline_count(csv_rows(c)) == c.len(),
    decreases c.len(),
{
    if c.len() > 0 {
        lemma_csv_rows_count(c.drop_last());
        lemma_csv_row_count(c.last());
        lemma_newline_count_add(csv_rows(c.drop_last()), csv_row(c.last()));
    }
}

/// Export fidelity: when no field of any block holds a newline, the CSV
/// text of an N-block chain holds exactly N + 1 newline characters — the
/// header line plus one line per block.
pub proof fn lemma_csv_line_count(c: Seq<Block>)
    requires
        chain_newline_free(c),
    ensures
        newline_count(csv_spec(c)) == c.len() + 1,
{
    reveal_strlit("index,filename,timestamp,hash,previous_hash");
    reveal_strlit("\n");
    let head = "index,filename,timestamp,hash,previous_hash"@;
    assert(newline_free(head));
    lemma_newline_count_zero(head);
    lemma_newline_count_add(head, "\n"@);
    lemma_newline_count_single();
    lemma_csv_rows_count(c);
    lemma_newline_count_add(csv_header(), csv_rows(c));
}

/// Renders the chain as CSV: the header line, then one line per block in
/// chain order with the fields verbatim.
pub fn chain_to_csv(chain: &Vec<Block>) -> (s: String)
    ensures
        s@ == csv_spec(chain@),
{
    let mut s = "index,filename,timestamp,hash,previous_hash".to_owned();
    s.append("\n");
    let n = chain.len();
    let mut i: usize = 0;
    proof {
        assert(chain@.subrange(0, 0) =~= Seq::<Block>::empty());
    }
    while i < n
        invariant
            i <= n,
            n == chain@.len(),
            s@ == csv_header() + csv_rows(chain@.subrange(0, i as int)),
        decreases n - i,
    {
        let num = u64_to_string(chain[i].index);
        s.append(num.as_str());
        s.append(",");
        s.append(chain[i].metadata.filename.as_str());
        s.append(",");
        s.append(chain[i].metadata.timestamp.as_str());
        s.append(",");
        s.append(chain[i].data_hash.as_str());
        s.append(",");
        s.append(chain[i].previous_hash.as_str());
        s.append("\n");
        proof {
            lemma_csv_rows_snoc(chain@, i as int);
            assert(s@ =~= csv_header() + csv_rows(chain@.subrange(0, i + 1)));
        }
        i = i + 1;
    }
    proof {
        assert(chain@.subrange(0, n as int) =~= chain@);
    }
    s
}

} // verus!
