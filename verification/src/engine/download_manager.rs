use std::path::PathBuf;
use vstd::prelude::*;
use vstd::arithmetic::div_mod::lemma_fundamental_div_mod;

use super::task_manager::Priority;

verus! {

/// A download for the block-wise downloader.
pub struct DownloadRequest {
    pub url: String,
    pub path: PathBuf,
    pub sha1: Option<String>,
    pub priority: Priority,
}

/// The size of the blocks a large file is fetched in: 8 MiB.
pub const BLOCK_SIZE: usize = 8 * 1024 * 1024;

/// One ranged request of a download: bytes from `start`, `size` of them,
/// with `end` the end of the range as it is written in the `Range` header.
#[derive(Debug, PartialEq, Eq, Structural)]
pub struct Block {
    pub start: usize,
    pub end: usize,
    pub size: usize,
}

/// The character of a decimal digit.
pub open spec fn digit(d: nat) -> char {
    (d + 48) as char
}

/// The decimal numeral of `n`, without sign or leading zeros.
pub open spec fn decimal(n: nat) -> Seq<char>
    decreases n,
{
    if n < 10 {
        seq![digit(n)]
    } else {
        decimal(n / 10).push(digit(n % 10))
    }
}

/// The value of a `Range` header from `start` to `end`: `bytes=start-end`.
pub open spec fn range_text(start: nat, end: nat) -> Seq<char> {
    seq!['b', 'y', 't', 'e', 's', '='] + decimal(start) + seq!['-'] + decimal(end)
}

/// `ToString::to_string` on a `usize`: std's `Display` for integers writes
/// the decimal numeral, without sign or leading zeros.
#[verifier::external_body]
fn decimal_text(n: usize) -> (text: String)
    ensures
        text@ == decimal(n as nat),
{
    n.to_string()
}

impl Block {
    /// The value of the `Range` header that requests this block.
    pub fn range_value(&self) -> (r: String)
        ensures
            r@ == range_text(self.start as nat, self.end as nat),
    {
        let mut text = String::from_str("bytes=");
        let start = decimal_text(self.start);
        text.append(start.as_str());
        text.append("-");
        let end = decimal_text(self.end);
        text.append(end.as_str());
        proof {
            reveal_strlit("bytes=");
            reveal_strlit("-");
            assert(text@ =~= range_text(self.start as nat, self.end as nat));
        }
        text
    }
}

pub open spec fn min(a: int, b: int) -> int {
    if a <= b {
        a
    } else {
        b
    }
}

/// The number of blocks of a file of `size` bytes: one for a file that fits
/// in a block, else one per started block.
pub open spec fn block_count(size: nat) -> nat {
    if size <= BLOCK_SIZE {
        1
    } else {
        ((size + BLOCK_SIZE - 1) / (BLOCK_SIZE as int)) as nat
    }
}

/// Block `k` of a file of `size` bytes.
pub open spec fn block_at(size: nat, k: nat) -> Block {
    let start = k * BLOCK_SIZE;
    let len = min(size - start, BLOCK_SIZE as int);
    Block { start: start as usize, end: (start + len) as usize, size: len as usize }
}

/// Splits a file of `size` bytes into the ranged requests that fetch it:
/// a file that fits in one block is fetched whole, a larger one in blocks of
/// `BLOCK_SIZE` bytes, the last of which may be shorter.
pub fn plan_blocks(size: usize) -> (r: Vec<Block>)
    ensures
        r@.len() == block_count(size as nat),
        forall|k: int| 0 <= k < r@.len() ==> #[trigger] r@[k] == block_at(size as nat, k as nat),
{
    let mut blocks: Vec<Block> = Vec::new();
    if size <= BLOCK_SIZE {
        blocks.push(Block { start: 0, end: size, size });
        return blocks;
    }
    let mut i: usize = 0;
    let mut k: usize = 0;
    while i < size
        invariant
            BLOCK_SIZE < size,
            blocks@.len() == k,
            i == min(k * BLOCK_SIZE, size as int),
            k == 0 || (k - 1) * BLOCK_SIZE < size,
            forall|j: int| 0 <= j < k ==> #[trigger] blocks@[j] == block_at(size as nat, j as nat),
        decreases size - i,
    {
        assert(i == k * BLOCK_SIZE);
        assert((k + 1) * BLOCK_SIZE == k * BLOCK_SIZE + BLOCK_SIZE) by (nonlinear_arith);
        assert(k <= k * BLOCK_SIZE) by (nonlinear_arith)
            requires
                BLOCK_SIZE >= 1,
        ;
        let len: usize = if size - i < BLOCK_SIZE { size - i } else { BLOCK_SIZE };
        blocks.push(Block { start: i, end: i + len, size: len });
        assert(blocks@[k as int] == block_at(size as nat, k as nat));
        i = i + len;
        k = k + 1;
    }
    assert(k * BLOCK_SIZE >= size);
    assert(k == (size + BLOCK_SIZE - 1) / (BLOCK_SIZE as int)) by (nonlinear_arith)
        requires
            k * BLOCK_SIZE >= size,
            k >= 1,
            (k - 1) * BLOCK_SIZE < size,
            BLOCK_SIZE == 8388608,
    ;
    blocks
}

/// How a file is fetched once its size is known.
#[derive(Debug)]
pub enum DownloadPlan {
    /// In one request for the whole file.
    Whole(Block),
    /// In concurrent requests for these blocks.
    Split(Vec<Block>),
}

/// The plan for a file of `size` bytes: a file that fits in one block is
/// fetched whole, a larger one in the blocks of `plan_blocks`.
pub fn plan_download(size: usize) -> (r: DownloadPlan)
    ensures
        size <= BLOCK_SIZE ==> r == DownloadPlan::Whole(block_at(size as nat, 0)),
        size > BLOCK_SIZE ==> (r matches DownloadPlan::Split(v) && v@.len() == block_count(size as nat)
            && forall|k: int| 0 <= k < v@.len() ==> #[trigger] v@[k] == block_at(size as nat, k as nat)),
{
    if size <= BLOCK_SIZE {
        DownloadPlan::Whole(Block { start: 0, end: size, size })
    } else {
        DownloadPlan::Split(plan_blocks(size))
    }
}

proof fn lemma_count_bounds(size: nat)
    requires
        size > BLOCK_SIZE,
    ensures
        (block_count(size) - 1) * BLOCK_SIZE < size,
        size <= block_count(size) * BLOCK_SIZE,
        block_count(size) >= 2,
{
    let c = (size + BLOCK_SIZE - 1) / (BLOCK_SIZE as int);
    assert((c - 1) * BLOCK_SIZE < size && size <= c * BLOCK_SIZE && c >= 2) by (nonlinear_arith)
        requires
            c == (size + BLOCK_SIZE - 1) / (BLOCK_SIZE as int),
            size > BLOCK_SIZE,
            BLOCK_SIZE == 8388608,
    ;
}

/// The blocks of a download tile the file: the first starts at 0, each
/// ends where the next starts, the last ends at the file's size, and no
/// block is longer than `BLOCK_SIZE` (or empty, for a file that is not).
pub proof fn lemma_blocks_tile(size: nat)
    requires
        size <= usize::MAX,
    ensures
        block_at(size, 0).start == 0,
        block_at(size, (block_count(size) - 1) as nat).end == size,
        forall|k: nat| k + 1 < block_count(size) ==> (#[trigger] block_at(size, k)).end == block_at(size, k + 1).start,
        forall|k: nat| k < block_count(size) ==> (#[trigger] block_at(size, k)).size <= BLOCK_SIZE
            && (size > 0 ==> block_at(size, k).size > 0),
{
    if size > BLOCK_SIZE {
        lemma_count_bounds(size);
        let c = block_count(size);
        assert(c * BLOCK_SIZE == (c - 1) * BLOCK_SIZE + BLOCK_SIZE) by (nonlinear_arith);
        assert forall|k: nat| k < c implies (#[trigger] block_at(size, k)).size <= BLOCK_SIZE
            && (size > 0 ==> block_at(size, k).size > 0) by {
            assert(k * BLOCK_SIZE <= (c - 1) * BLOCK_SIZE) by (nonlinear_arith)
                requires
                    k <= c - 1,
                    BLOCK_SIZE >= 0,
            ;
        }
        assert forall|k: nat| k + 1 < c implies (#[trigger] block_at(size, k)).end == block_at(size, k + 1).start by {
            assert((k + 1) * BLOCK_SIZE <= (c - 1) * BLOCK_SIZE) by (nonlinear_arith)
                requires
                    k + 1 <= c - 1,
                    BLOCK_SIZE >= 0,
            ;
            assert((k + 1) * BLOCK_SIZE == k * BLOCK_SIZE + BLOCK_SIZE) by (nonlinear_arith);
        }
    }
}

/// The number a string of decimal digits stands for.
pub open spec fn digits_value(s: Seq<char>) -> int
    decreases s.len(),
{
    if s.len() == 0 {
        0
    } else {
        digits_value(s.drop_last()) * 10 + (s.last() as int - 48)
    }
}

/// The decimal numeral of `n` is made of digits only, has no leading zero,
/// and stands for `n`.
pub proof fn lemma_decimal_reads_back(n: nat)
    ensures
        digits_value(decimal(n)) == n,
        decimal(n).len() >= 1,
        forall|i: int| 0 <= i < decimal(n).len() ==> '0' <= #[trigger] decimal(n)[i] <= '9',
        n > 0 ==> decimal(n)[0] != '0',
    decreases n,
{
    if n >= 10 {
        lemma_decimal_reads_back(n / 10);
        lemma_fundamental_div_mod(n as int, 10);
        let d = decimal(n / 10);
        assert(decimal(n) == d.push(digit(n % 10)));
        assert(decimal(n).drop_last() =~= d);
        assert forall|i: int| 0 <= i < decimal(n).len() implies '0' <= #[trigger] decimal(n)[i] <= '9' by {
            if i < d.len() {
                assert(decimal(n)[i] == d[i]);
            }
        }
        assert(decimal(n)[0] == d[0]);
        assert(digit(n % 10) as int == n % 10 + 48);
        assert(digits_value(decimal(n)) == digits_value(d) * 10 + (digit(n % 10) as int - 48));
    } else {
        assert(digit(n) as int == n + 48);
        assert(digits_value(Seq::<char>::empty()) == 0);
        assert(decimal(n) == seq![digit(n)]);
        assert(decimal(n).drop_last() =~= Seq::<char>::empty());
    }
}

/// A range header reads `bytes=`, the start in decimal, `-`, the end in
/// decimal: the two numbers read back from it.
pub proof fn lemma_range_text_reads_back(start: nat, end: nat)
    ensures ({
        let t = range_text(start, end);
        let a = decimal(start).len() as int;
        &&& t.subrange(0, 6) == seq!['b', 'y', 't', 'e', 's', '=']
        &&& digits_value(t.subrange(6, 6 + a)) == start
        &&& t[6 + a] == '-'
        &&& digits_value(t.subrange(7 + a, t.len() as int)) == end
        &&& t.len() == 7 + a + decimal(end).len()
    }),
{
    lemma_decimal_reads_back(start);
    lemma_decimal_reads_back(end);
    let t = range_text(start, end);
    let a = decimal(start).len() as int;
    assert(t.subrange(0, 6) =~= seq!['b', 'y', 't', 'e', 's', '=']);
    assert(t.subrange(6, 6 + a) =~= decimal(start));
    assert(t.subrange(7 + a, t.len() as int) =~= decimal(end));
}

/// Each block ends where its bytes end: `end == start + size`.
pub proof fn lemma_block_end(size: nat, k: nat)
    requires
        size <= usize::MAX,
        k < block_count(size),
    ensures
        block_at(size, k).end == block_at(size, k).start + block_at(size, k).size,
        block_at(size, k).start == k * BLOCK_SIZE,
{
    lemma_blocks_tile(size);
    if size > BLOCK_SIZE {
        lemma_count_bounds(size);
        assert(k * BLOCK_SIZE <= (block_count(size) - 1) * BLOCK_SIZE) by (nonlinear_arith)
            requires
                k <= block_count(size) - 1,
                BLOCK_SIZE >= 0,
        ;
    }
}

} // verus!
