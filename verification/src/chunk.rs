//! The chunk planner: splits the content of an oversized payload into an
//! ordered sequence of chunks.

use vstd::prelude::*;
use crate::error::Error;
use crate::transaction_id::{chunk_transaction_id, TransactionId};

verus! {

/// The limits that a plan must keep.
#[derive(Clone, Copy, Debug, PartialEq, Eq)]
pub struct ChunkPolicy {
    /// The largest number of content bytes in one chunk.
    pub chunk_size: usize,
    /// The largest number of chunks in one plan.
    pub max_chunks: usize,
}

impl ChunkPolicy {
    /// A policy is usable when a chunk can hold at least one byte.
    pub open spec fn wf(&self) -> bool {
        self.chunk_size > 0
    }

    /// The policy with the given limits, unless a chunk could hold nothing.
    pub fn new(chunk_size: usize, max_chunks: usize) -> (p: Option<ChunkPolicy>)
        ensures
            p == if chunk_size > 0 {
                Some(ChunkPolicy { chunk_size, max_chunks })
            } else {
                None
            },
    {
        if chunk_size > 0 {
            Some(ChunkPolicy { chunk_size, max_chunks })
        } else {
            None
        }
    }
}

/// One chunk of a plan.
#[derive(Debug)]
pub struct Chunk {
    /// The identifier of the first chunk, shared by all chunks of the plan.
    pub initial_transaction_id: TransactionId,
    /// The chunk's position in the plan, from 0.
    pub index: usize,
    /// The number of chunks in the plan.
    pub total: usize,
    /// The chunk's part of the content.
    pub data: Vec<u8>,
}

impl Chunk {
    /// The identifier under which the chunk is sent: the shared first
    /// identifier for the first chunk, and that identifier with the chunk's
    /// index as its nonce for a later one. There is none for an index that
    /// no nonce can hold.
    pub fn transaction_id(&self) -> (id: Option<TransactionId>)
        ensures
            id == if self.index <= u32::MAX {
                Some(chunk_transaction_id(self.initial_transaction_id, self.index as int))
            } else {
                None
            },
    {
        if self.index <= u32::MAX as usize {
            Some(self.initial_transaction_id.for_chunk(self.index as u32))
        } else {
            None
        }
    }
}

/// The number of chunks of at most `chunk_size` bytes that `len` bytes need:
/// `len / chunk_size`, rounded up.
pub open spec fn required_chunks(len: int, chunk_size: int) -> int
    recommends
        chunk_size > 0,
{
    len / chunk_size + if len % chunk_size == 0 {
        0int
    } else {
        1int
    }
}

/// The byte range of chunk `index`: `chunk_size` bytes from
/// `index * chunk_size`, or what is left of the content.
pub open spec fn chunk_range(content: Seq<u8>, chunk_size: int, index: int) -> Seq<u8> {
    content.subrange(
        index * chunk_size,
        if (index + 1) * chunk_size < content.len() {
            (index + 1) * chunk_size
        } else {
            content.len() as int
        },
    )
}

/// The data of the chunks of `plan`, one after the other.
pub open spec fn concat_chunks(plan: Seq<Chunk>) -> Seq<u8>
    decreases plan.len(),
{
    if plan.len() == 0 {
        Seq::empty()
    } else {
        concat_chunks(plan.drop_last()) + plan.last().data@
    }
}

/// Whether `plan` is the plan for `content`: as many chunks as the content
/// needs, numbered from 0 without a gap, each holding its range of the
/// content and the shared first identifier.
pub open spec fn is_plan_for(
    plan: Seq<Chunk>,
    content: Seq<u8>,
    base: TransactionId,
    chunk_size: int,
) -> bool {
    &&& plan.len() == required_chunks(content.len() as int, chunk_size)
    &&& forall|i: int|
        0 <= i < plan.len() ==> {
            &&& (#[trigger] plan[i]).index == i
            &&& plan[i].total == plan.len()
            &&& plan[i].initial_transaction_id == base
            &&& plan[i].data@ == chunk_range(content, chunk_size, i)
        }
}

/// `required_chunks` is the ceiling of the quotient: that many chunks hold
/// the content, and one fewer would not.
pub proof fn lemma_required_chunks_is_ceiling(len: int, chunk_size: int)
    requires
        len >= 0,
        chunk_size > 0,
    ensures
        required_chunks(len, chunk_size) >= 0,
        required_chunks(len, chunk_size) * chunk_size >= len,
        len > 0 ==> (required_chunks(len, chunk_size) - 1) * chunk_size < len,
        len == 0 ==> required_chunks(len, chunk_size) == 0,
{
    let q = len / chunk_size;
    let r = len % chunk_size;
    assert(len == q * chunk_size + r && 0 <= r < chunk_size && q >= 0) by (nonlinear_arith)
        requires
            q == len / chunk_size,
            r == len % chunk_size,
            len >= 0,
            chunk_size > 0,
    ;
    assert((q + 1) * chunk_size == q * chunk_size + chunk_size) by (nonlinear_arith);
    assert((q - 1) * chunk_size == q * chunk_size - chunk_size) by (nonlinear_arith);
    if len == 0 {
        assert(q == 0) by (nonlinear_arith)
            requires
                0 == q * chunk_size + r,
                0 <= r,
                q >= 0,
                chunk_size > 0,
        ;
    }
}

/// Every chunk before the last is full, and chunk `index` starts inside the
/// content.
proof fn lemma_chunk_start(len: int, chunk_size: int, index: int)
    requires
        len >= 0,
        chunk_size > 0,
        0 <= index < required_chunks(len, chunk_size),
    ensures
        0 <= index * chunk_size < len,
        (index + 1) * chunk_size == index * chunk_size + chunk_size,
        index + 1 < required_chunks(len, chunk_size) ==> (index + 1) * chunk_size < len,
        index + 1 == required_chunks(len, chunk_size) ==> (index + 1) * chunk_size >= len,
{
    lemma_required_chunks_is_ceiling(len, chunk_size);
    let c = required_chunks(len, chunk_size);
    assert((index + 1) * chunk_size == index * chunk_size + chunk_size) by (nonlinear_arith);
    assert(index * chunk_size >= 0) by (nonlinear_arith)
        requires
            index >= 0,
            chunk_size > 0,
    ;
    assert((index + 1) * chunk_size <= (c - 1) * chunk_size || index + 1 >= c)
        by (nonlinear_arith)
        requires
            chunk_size > 0,
    ;
    assert(index * chunk_size <= (c - 1) * chunk_size) by (nonlinear_arith)
        requires
            index <= c - 1,
            chunk_size > 0,
    ;
}

/// The chunks of a plan, put together in order, are the content.
pub proof fn lemma_plan_reconstructs(
    plan: Seq<Chunk>,
    content: Seq<u8>,
    base: TransactionId,
    chunk_size: int,
)
    requires
        chunk_size > 0,
        is_plan_for(plan, content, base, chunk_size),
    ensures
        concat_chunks(plan) == content,
{
    lemma_concat_prefix(plan, content, chunk_size, plan.len() as int);
    assert(plan.subrange(0, plan.len() as int) =~= plan);
    let c = plan.len() as int;
    if c == 0 {
        lemma_required_chunks_is_ceiling(content.len() as int, chunk_size);
        assert(content =~= Seq::empty());
    } else {
        lemma_chunk_start(content.len() as int, chunk_size, c - 1);
        assert(content.subrange(0, content.len() as int) =~= content);
    }
}

/// Every chunk of a plan but the last is full, and the last holds at least
/// one byte and at most a full chunk.
pub proof fn lemma_chunk_sizes(
    plan: Seq<Chunk>,
    content: Seq<u8>,
    base: TransactionId,
    chunk_size: int,
)
    requires
        chunk_size > 0,
        is_plan_for(plan, content, base, chunk_size),
    ensures
        forall|i: int| 0 <= i < plan.len() - 1 ==> (#[trigger] plan[i]).data@.len() == chunk_size,
        plan.len() > 0 ==> 1 <= plan.last().data@.len() <= chunk_size,
{
    assert forall|i: int| 0 <= i < plan.len() - 1 implies (#[trigger] plan[i]).data@.len()
        == chunk_size by {
        lemma_chunk_start(content.len() as int, chunk_size, i);
    }
    if plan.len() > 0 {
        lemma_chunk_start(content.len() as int, chunk_size, plan.len() - 1);
        assert(plan.last() == plan[plan.len() - 1]);
    }
}

/// The content, the first identifier and the chunk size determine the plan:
/// two plans for the same input have the same chunks.
pub proof fn lemma_plan_is_unique(
    first: Seq<Chunk>,
    second: Seq<Chunk>,
    content: Seq<u8>,
    base: TransactionId,
    chunk_size: int,
)
    requires
        is_plan_for(first, content, base, chunk_size),
        is_plan_for(second, content, base, chunk_size),
    ensures
        first.len() == second.len(),
        forall|i: int|
            0 <= i < first.len() ==> {
                &&& (#[trigger] first[i]).index == second[i].index
                &&& first[i].total == second[i].total
                &&& first[i].initial_transaction_id == second[i].initial_transaction_id
                &&& first[i].data@ == second[i].data@
            },
{
}

/// The first `n` chunks of a plan, put together, are the content up to the
/// start of chunk `n`.
proof fn lemma_concat_prefix(plan: Seq<Chunk>, content: Seq<u8>, chunk_size: int, n: int)
    requires
        chunk_size > 0,
        0 <= n <= plan.len(),
        plan.len() == required_chunks(content.len() as int, chunk_size),
        forall|i: int|
            0 <= i < plan.len() ==> (#[trigger] plan[i]).data@ == chunk_range(
                content,
                chunk_size,
                i,
            ),
    ensures
        concat_chunks(plan.subrange(0, n)) == content.subrange(
            0,
            if n * chunk_size < content.len() {
                n * chunk_size
            } else {
                content.len() as int
            },
        ),
    decreases n,
{
    if n == 0 {
        assert(0 * chunk_size == 0) by (nonlinear_arith);
        assert(concat_chunks(plan.subrange(0, 0)) =~= content.subrange(0, 0));
    } else {
        lemma_concat_prefix(plan, content, chunk_size, n - 1);
        lemma_chunk_start(content.len() as int, chunk_size, n - 1);
        assert(plan.subrange(0, n).drop_last() =~= plan.subrange(0, n - 1));
        assert(plan.subrange(0, n).last() == plan[n - 1]);
        let end = if n * chunk_size < content.len() {
            n * chunk_size
        } else {
            content.len() as int
        };
        assert(content.subrange(0, (n - 1) * chunk_size) + content.subrange(
            (n - 1) * chunk_size,
            end,
        ) =~= content.subrange(0, end));
    }
}

/// Plans the chunks of `content`: contiguous ranges of `policy.chunk_size`
/// bytes, the last one shorter where the content does not divide evenly.
/// Fails, before anything is built, when the content needs more chunks than
/// `policy.max_chunks`.
pub fn plan_chunks(content: &[u8], base: TransactionId, policy: &ChunkPolicy) -> (r: Result<
    Vec<Chunk>,
    Error,
>)
    requires
        policy.wf(),
    ensures
        r is Ok <==> required_chunks(content@.len() as int, policy.chunk_size as int)
            <= policy.max_chunks,
        r matches Ok(plan) ==> is_plan_for(plan@, content@, base, policy.chunk_size as int)
            && concat_chunks(plan@) == content@,
        r matches Err(e) ==> e == (Error::ChunkCountExceeded {
            required: required_chunks(content@.len() as int, policy.chunk_size as int) as usize,
            max: policy.max_chunks,
        }),
{
    let len = content.len();
    let size = policy.chunk_size;
    let extra: usize = if len % size == 0 {
        0
    } else {
        1
    };
    proof {
        lemma_required_chunks_is_ceiling(len as int, size as int);
        assert(len / size < len || len == 0 || size == 1) by (nonlinear_arith)
            requires
                size > 0,
        ;
        assert(size == 1 ==> len % size == 0) by (nonlinear_arith);
        assert(len / size <= len) by (nonlinear_arith)
            requires
                size > 0,
                len >= 0,
        ;
    }
    let count: usize = len / size + extra;
    if count > policy.max_chunks {
        return Err(Error::ChunkCountExceeded { required: count, max: policy.max_chunks });
    }
    let mut plan: Vec<Chunk> = Vec::new();
    let mut i: usize = 0;
    let mut start: usize = 0;
    while i < count
        invariant
            size > 0,
            len == content@.len(),
            count == required_chunks(len as int, size as int),
            i <= count,
            start == if i * size < len {
                i * size
            } else {
                len as int
            },
            plan@.len() == i,
            forall|j: int|
                0 <= j < i ==> {
                    &&& (#[trigger] plan@[j]).index == j
                    &&& plan@[j].total == count
                    &&& plan@[j].initial_transaction_id == base
                    &&& plan@[j].data@ == chunk_range(content@, size as int, j)
                },
        decreases count - i,
    {
        proof {
            lemma_chunk_start(len as int, size as int, i as int);
        }
        let end: usize = if len - start < size {
            len
        } else {
            start + size
        };
        let mut data: Vec<u8> = Vec::new();
        let mut k: usize = start;
        while k < end
            invariant
                start <= k <= end <= len,
                len == content@.len(),
                data@ == content@.subrange(start as int, k as int),
            decreases end - k,
        {
            data.push(content[k]);
            assert(data@ =~= content@.subrange(start as int, k + 1));
            k += 1;
        }
        plan.push(Chunk { initial_transaction_id: base, index: i, total: count, data });
        start = end;
        i += 1;
    }
    proof {
        lemma_plan_reconstructs(plan@, content@, base, size as int);
    }
    Ok(plan)
}

} // verus!
