//! Chunk planning: a file of a known size is cut into byte ranges of a fixed
//! length, the last of which may be shorter. Chunks that the progress ledger
//! already holds are left out of the work list.

use crate::progress::ProgressLedger;
use crate::text::{decimal, to_decimal};
use vstd::prelude::*;

verus! {

/// One byte range of the file, the unit of fetching and of retry.
/// `start` and `end` are offsets into the file; `end` is inclusive.
#[derive(Clone, Copy, Debug, PartialEq, Eq, Structural)]
pub struct ChunkTask {
    pub id: u64,
    pub start: u64,
    pub end: u64,
}

impl ChunkTask {
    /// The number of bytes in the range.
    pub open spec fn spec_len(self) -> int {
        self.end - self.start + 1
    }

    /// The value of the `Range` header that asks for this chunk.
    pub open spec fn spec_range_header(self) -> Seq<char> {
        "bytes="@ + decimal(self.start as nat) + "-"@ + decimal(self.end as nat)
    }

    /// The value of the `Range` header that asks for this chunk:
    /// `bytes=<start>-<end>`.
    pub fn range_header(&self) -> (header: String)
        ensures
            header@ == self.spec_range_header(),
    {
        let mut header = String::from_str("bytes=");
        header.append(to_decimal(self.start).as_str());
        header.append("-");
        header.append(to_decimal(self.end).as_str());
        header
    }
}

/// What a job has to fetch, and how many chunks the file has in all.
pub struct DownloadPlan {
    pub tasks: Vec<ChunkTask>,
    pub total_chunks: u64,
}

/// The number of chunks of length `chunk` that cover `size` bytes:
/// `size / chunk`, rounded up.
pub open spec fn chunk_count(size: nat, chunk: nat) -> nat
    recommends
        chunk > 0,
{
    (size + chunk - 1) as nat / chunk
}

/// Chunk number `id` of a file of `size` bytes cut at every `chunk` bytes.
pub open spec fn chunk_at(id: nat, size: nat, chunk: nat) -> ChunkTask
    recommends
        chunk > 0,
        id < chunk_count(size, chunk),
{
    ChunkTask {
        id: id as u64,
        start: (id * chunk) as u64,
        end: (if (id + 1) * chunk < size {
            (id + 1) * chunk - 1
        } else {
            size - 1
        }) as u64,
    }
}

/// Every chunk of the file, in order of offset.
pub open spec fn full_plan(size: u64, chunk: u64) -> Seq<ChunkTask>
    recommends
        chunk > 0,
{
    Seq::new(chunk_count(size as nat, chunk as nat), |i: int| chunk_at(i as nat, size as nat, chunk as nat))
}

/// The chunks that are still to fetch: those of the full plan whose id is
/// not in `done`, in the order of the full plan.
pub open spec fn residual_plan(size: u64, chunk: u64, done: Set<u64>) -> Seq<ChunkTask>
    recommends
        chunk > 0,
{
    full_plan(size, chunk).filter(|t: ChunkTask| !done.contains(t.id))
}

/// The bytes covered by a list of chunks, counted with repetition.
pub open spec fn total_len(tasks: Seq<ChunkTask>) -> int
    decreases tasks.len(),
{
    if tasks.len() == 0 {
        0
    } else {
        total_len(tasks.drop_last()) + tasks.last().spec_len()
    }
}

/// Chunk `id` exists exactly when it begins inside the file.
pub proof fn lemma_chunk_count(id: nat, size: nat, chunk: nat)
    requires
        chunk > 0,
    ensures
        id < chunk_count(size, chunk) <==> id * chunk < size,
        chunk_count(size, chunk) <= size,
        size > 0 ==> chunk_count(size, chunk) > 0,
{
    let n = chunk_count(size, chunk);
    let top = (size + chunk - 1) as nat;
    vstd::arithmetic::div_mod::lemma_fundamental_div_mod(top as int, chunk as int);
    vstd::arithmetic::div_mod::lemma_mod_bound(top as int, chunk as int);
    // top == chunk * n + r, with 0 <= r < chunk
    assert(chunk * n + chunk == chunk * (n + 1)) by (nonlinear_arith);
    if id < n {
        assert(chunk * (id + 1) <= chunk * n) by (nonlinear_arith)
            requires
                id + 1 <= n,
                chunk > 0,
        ;
        assert(chunk * (id + 1) == id * chunk + chunk) by (nonlinear_arith);
    } else {
        assert(chunk * n <= chunk * id) by (nonlinear_arith)
            requires
                n <= id,
                chunk > 0,
        ;
        assert(chunk * id == id * chunk) by (nonlinear_arith);
        assert(chunk * n == n * chunk) by (nonlinear_arith);
    }
    assert(chunk * n >= n) by (nonlinear_arith)
        requires
            chunk >= 1,
    ;
    if n == 0 {
        assert(chunk * n == 0) by (nonlinear_arith)
            requires
                n == 0,
        ;
    }
    if n > size {
        assert(chunk * n >= chunk * (size + 1)) by (nonlinear_arith)
            requires
                n >= size + 1,
                chunk > 0,
        ;
        assert(chunk * (size + 1) == chunk * size + chunk) by (nonlinear_arith);
        assert(chunk * size >= size) by (nonlinear_arith)
            requires
                chunk >= 1,
        ;
    }
}

/// The count is the quotient, and one more where a remainder is left.
pub proof fn lemma_chunk_count_by_remainder(size: nat, chunk: nat)
    requires
        chunk > 0,
    ensures
        chunk_count(size, chunk) == if size % chunk == 0 {
            size / chunk
        } else {
            size / chunk + 1
        },
{
    let s = size as int;
    let c = chunk as int;
    let q = s / c;
    let r = s % c;
    vstd::arithmetic::div_mod::lemma_fundamental_div_mod(s, c);
    vstd::arithmetic::div_mod::lemma_mod_bound(s, c);
    vstd::arithmetic::div_mod::lemma_div_pos_is_pos(s, c);
    if r == 0 {
        vstd::arithmetic::div_mod::lemma_fundamental_div_mod_converse(s + c - 1, c, q, c - 1);
    } else {
        assert(c * q + c == c * (q + 1)) by (nonlinear_arith);
        vstd::arithmetic::div_mod::lemma_fundamental_div_mod_converse(s + c - 1, c, q + 1, r - 1);
    }
}

/// The number of chunks of the file.
pub fn count_chunks(size: u64, chunk: u64) -> (n: u64)
    requires
        chunk > 0,
    ensures
        n == chunk_count(size as nat, chunk as nat),
{
    proof {
        lemma_chunk_count_by_remainder(size as nat, chunk as nat);
        lemma_chunk_count(0, size as nat, chunk as nat);
    }
    if size % chunk == 0 {
        size / chunk
    } else {
        size / chunk + 1
    }
}

/// The fields of chunk `id`, without the casts of `chunk_at`.
pub proof fn lemma_chunk_fields(id: nat, size: u64, chunk: u64)
    requires
        chunk > 0,
        id < chunk_count(size as nat, chunk as nat),
    ensures
        ({
            let t = chunk_at(id, size as nat, chunk as nat);
            &&& t == full_plan(size, chunk)[id as int]
            &&& t.id == id
            &&& t.start == id * chunk
            &&& t.start <= t.end < size
            &&& t.spec_len() <= chunk
            &&& t.start + chunk < size ==> t.end == t.start + chunk - 1
            &&& t.start + chunk >= size ==> t.end == size - 1
            &&& (id + 1 < chunk_count(size as nat, chunk as nat) <==> t.start + chunk < size)
        }),
{
    lemma_chunk_count(id, size as nat, chunk as nat);
    lemma_chunk_count(id + 1, size as nat, chunk as nat);
    assert((id + 1) * chunk == id * chunk + chunk) by (nonlinear_arith);
}

/// Cuts the file into chunks and leaves out those that `done` holds.
///
/// The work list holds the remaining chunks in order of offset;
/// `total_chunks` counts every chunk of the file, fetched or not.
/// An empty file has no chunks.
pub fn plan_chunks(size: u64, chunk: u64, done: &ProgressLedger) -> (plan: DownloadPlan)
    requires
        chunk > 0,
    ensures
        plan.total_chunks == chunk_count(size as nat, chunk as nat),
        plan.tasks@ == residual_plan(size, chunk, done@),
{
    let total: u64 = count_chunks(size, chunk);
    let ghost full = full_plan(size, chunk);
    let ghost todo = |t: ChunkTask| !done@.contains(t.id);
    let mut tasks: Vec<ChunkTask> = Vec::new();
    let mut id: u64 = 0;
    proof {
        reveal(Seq::filter);
    }
    while id < total
        invariant
            chunk > 0,
            id <= total,
            total == chunk_count(size as nat, chunk as nat),
            full == full_plan(size, chunk),
            todo == |t: ChunkTask| !done@.contains(t.id),
            tasks@ == full.take(id as int).filter(todo),
        decreases total - id,
    {
        proof {
            lemma_chunk_fields(id as nat, size, chunk);
        }
        let start: u64 = id * chunk;
        let end: u64 = if size - start > chunk {
            start + chunk - 1
        } else {
            size - 1
        };
        let task = ChunkTask { id, start, end };
        let fetched = done.contains(id);
        if !fetched {
            tasks.push(task);
        }
        proof {
            reveal(Seq::filter);
            let next = full.take(id + 1);
            assert(next.drop_last() =~= full.take(id as int));
        }
        id += 1;
    }
    assert(full.take(total as int) =~= full);
    DownloadPlan { tasks, total_chunks: total }
}

/// The bytes covered by the first `k` chunks of the plan.
proof fn lemma_prefix_len(size: u64, chunk: u64, k: nat)
    requires
        chunk > 0,
        k <= chunk_count(size as nat, chunk as nat),
    ensures
        total_len(full_plan(size, chunk).take(k as int)) == if k == 0 {
            0
        } else {
            full_plan(size, chunk)[k - 1].end + 1
        },
    decreases k,
{
    let plan = full_plan(size, chunk);
    if k > 0 {
        lemma_prefix_len(size, chunk, (k - 1) as nat);
        lemma_chunk_fields((k - 1) as nat, size, chunk);
        assert(plan.take(k as int).drop_last() =~= plan.take(k - 1));
        if k > 1 {
            lemma_chunk_fields((k - 2) as nat, size, chunk);
            assert((k - 1) * chunk == (k - 2) * chunk + chunk) by (nonlinear_arith);
        }
    }
}

/// The chunks of a non-empty file tile it exactly. They are numbered from 0
/// in order of offset; the first begins at offset 0 and the last ends at
/// the last byte; each begins right after the one before it ends, so no two
/// overlap and their lengths add up to the size of the file. Every chunk
/// but the last is `chunk` bytes long, and the last holds the remainder of
/// `size / chunk`, or `chunk` bytes where there is no remainder.
pub proof fn lemma_plan_partitions(size: u64, chunk: u64)
    requires
        size > 0,
        chunk > 0,
    ensures
        ({
            let plan = full_plan(size, chunk);
            &&& plan.len() == chunk_count(size as nat, chunk as nat)
            &&& plan.len() > 0
            &&& plan[0].start == 0
            &&& plan.last().end == size - 1
            &&& forall|i: int|
                0 <= i < plan.len() ==> (#[trigger] plan[i]).id == i && plan[i].start <= plan[i].end
            &&& forall|i: int|
                0 <= i < plan.len() - 1 ==> (#[trigger] plan[i]).end + 1 == plan[i + 1].start
                    && plan[i].spec_len() == chunk
            &&& forall|i: int, j: int|
                0 <= i < j < plan.len() ==> (#[trigger] plan[i]).end < (#[trigger] plan[j]).start
            &&& total_len(plan) == size
            &&& plan.last().spec_len() == if size % chunk == 0 {
                chunk
            } else {
                size % chunk
            }
        }),
{
    let plan = full_plan(size, chunk);
    let n = chunk_count(size as nat, chunk as nat);
    lemma_chunk_count(0, size as nat, chunk as nat);
    lemma_chunk_fields(0, size, chunk);
    lemma_chunk_fields((n - 1) as nat, size, chunk);
    assert forall|i: int| 0 <= i < plan.len() implies (#[trigger] plan[i]).id == i && plan[i].start
        <= plan[i].end by {
        lemma_chunk_fields(i as nat, size, chunk);
    }
    assert forall|i: int| 0 <= i < plan.len() - 1 implies (#[trigger] plan[i]).end + 1 == plan[i
        + 1].start && plan[i].spec_len() == chunk by {
        lemma_chunk_fields(i as nat, size, chunk);
        lemma_chunk_fields((i + 1) as nat, size, chunk);
        assert((i + 1) * chunk == i * chunk + chunk) by (nonlinear_arith);
    }
    assert forall|i: int, j: int| 0 <= i < j < plan.len() implies (#[trigger] plan[i]).end < (
    #[trigger] plan[j]).start by {
        lemma_chunk_fields(i as nat, size, chunk);
        lemma_chunk_fields(j as nat, size, chunk);
        assert(j * chunk >= i * chunk + chunk) by (nonlinear_arith)
            requires
                j >= i + 1,
                chunk > 0,
        ;
    }
    lemma_prefix_len(size, chunk, n);
    assert(plan.take(n as int) =~= plan);
    // The last chunk: what is left after n - 1 whole chunks.
    lemma_chunk_count_by_remainder(size as nat, chunk as nat);
    vstd::arithmetic::div_mod::lemma_fundamental_div_mod(size as int, chunk as int);
    let q = size as int / chunk as int;
    if size % chunk == 0 {
        assert((q - 1) * chunk == chunk * q - chunk) by (nonlinear_arith);
    } else {
        assert(q * chunk == chunk * q) by (nonlinear_arith);
    }
}

/// The work list holds exactly the chunks of the file whose id is not in
/// `done`, each once and in order of id. Where `done` holds every id of the
/// file, the list is empty; where it holds none of them, the list is the
/// full plan.
pub proof fn lemma_residual_plan(size: u64, chunk: u64, done: Set<u64>)
    requires
        chunk > 0,
    ensures
        ({
            let full = full_plan(size, chunk);
            let rest = residual_plan(size, chunk, done);
            &&& forall|t: ChunkTask| #[trigger]
                rest.contains(t) <==> full.contains(t) && !done.contains(t.id)
            &&& forall|i: int, j: int|
                0 <= i < j < rest.len() ==> (#[trigger] rest[i]).id < (#[trigger] rest[j]).id
            &&& (forall|id: u64| id < full.len() ==> done.contains(id)) ==> rest.len() == 0
            &&& (forall|id: u64| id < full.len() ==> !done.contains(id)) ==> rest == full
        }),
{
    let full = full_plan(size, chunk);
    let n = chunk_count(size as nat, chunk as nat);
    lemma_residual_prefix(size, chunk, done, n);
    assert(full.take(n as int) =~= full);
}

/// `lemma_residual_plan`, for the first `k` chunks of the file.
proof fn lemma_residual_prefix(size: u64, chunk: u64, done: Set<u64>, k: nat)
    requires
        chunk > 0,
        k <= chunk_count(size as nat, chunk as nat),
    ensures
        ({
            let head = full_plan(size, chunk).take(k as int);
            let rest = head.filter(|t: ChunkTask| !done.contains(t.id));
            &&& forall|t: ChunkTask| #[trigger]
                rest.contains(t) <==> head.contains(t) && !done.contains(t.id)
            &&& forall|i: int| 0 <= i < rest.len() ==> (#[trigger] rest[i]).id < k
            &&& forall|i: int, j: int|
                0 <= i < j < rest.len() ==> (#[trigger] rest[i]).id < (#[trigger] rest[j]).id
            &&& (forall|id: u64| id < k ==> done.contains(id)) ==> rest.len() == 0
            &&& (forall|id: u64| id < k ==> !done.contains(id)) ==> rest == head
        }),
    decreases k,
{
    reveal(Seq::filter);
    let todo = |t: ChunkTask| !done.contains(t.id);
    let head = full_plan(size, chunk).take(k as int);
    let rest = head.filter(todo);
    if k == 0 {
        assert(rest =~= Seq::<ChunkTask>::empty());
        assert(head =~= Seq::<ChunkTask>::empty());
    } else {
        lemma_residual_prefix(size, chunk, done, (k - 1) as nat);
        lemma_chunk_fields((k - 1) as nat, size, chunk);
        let before = full_plan(size, chunk).take(k - 1);
        let last = head.last();
        assert(head.drop_last() =~= before);
        assert(head =~= before.push(last));
        assert(last.id == k - 1);
        let kept = before.filter(todo);
        assert forall|t: ChunkTask| #[trigger] rest.contains(t) <==> head.contains(t) && todo(t) by {
            if rest.contains(t) {
                let i = choose|i: int| 0 <= i < rest.len() && rest[i] == t;
                if todo(last) && i == rest.len() - 1 {
                    assert(head[k - 1] == t);
                } else {
                    assert(kept[i] == t);
                    assert(kept.contains(t));
                    let m = choose|m: int| 0 <= m < before.len() && before[m] == t;
                    assert(head[m] == t);
                }
            }
            if head.contains(t) && todo(t) {
                let m = choose|m: int| 0 <= m < head.len() && head[m] == t;
                if m == k - 1 {
                    assert(rest[rest.len() - 1] == t);
                } else {
                    assert(before[m] == t);
                    assert(before.contains(t));
                    assert(kept.contains(t));
                    let i = choose|i: int| 0 <= i < kept.len() && kept[i] == t;
                    assert(rest[i] == t);
                }
            }
        }
        if forall|id: u64| id < k ==> done.contains(id) {
            assert(done.contains((k - 1) as u64));
            assert(rest.len() == 0);
        }
        if forall|id: u64| id < k ==> !done.contains(id) {
            assert(!done.contains((k - 1) as u64));
            assert(rest =~= head);
        }
    }
}

} // verus!
