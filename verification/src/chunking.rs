//! Chunking and reassembly at the content boundary.
//!
//! A byte buffer is containerized by cutting it into chunks of the largest
//! allowed size — the last chunk holds the remainder — and reassembled by
//! laying the chunks' bytes out again in index order.

use vstd::prelude::*;

use crate::ids::{Chunk, CHUNK_MAX_LEN};

verus! {

/// The bytes described by a list of chunk bodies, one after another.
pub open spec fn assembled(pieces: Seq<Seq<u8>>) -> Seq<u8>
    decreases pieces.len(),
{
    if pieces.len() == 0 {
        Seq::empty()
    } else {
        assembled(pieces.drop_last()) + pieces.last()
    }
}

/// Growing the prefix by one piece appends that piece's bytes.
proof fn lemma_assembled_take_one_more(pieces: Seq<Seq<u8>>, i: int)
    requires
        0 <= i < pieces.len(),
    ensures
        assembled(pieces.take(i + 1)) == assembled(pieces.take(i)) + pieces[i],
{
    assert(pieces.take(i + 1).drop_last() =~= pieces.take(i));
    assert(pieces.take(i + 1).last() == pieces[i]);
}

/// A longer prefix describes at least as many bytes.
proof fn lemma_assembled_take_mono(pieces: Seq<Seq<u8>>, i: int, j: int)
    requires
        0 <= i <= j <= pieces.len(),
    ensures
        assembled(pieces.take(i)).len() <= assembled(pieces.take(j)).len(),
    decreases j - i,
{
    if i < j {
        lemma_assembled_take_one_more(pieces, j - 1);
        lemma_assembled_take_mono(pieces, i, j - 1);
    }
}

/// Cuts a byte buffer into chunks: every chunk but the last is full, the
/// last holds the remainder, and laying the chunks out again yields the
/// buffer. An empty buffer yields no chunks.
pub fn split_into_chunks(data: &Vec<u8>) -> (r: Vec<Chunk>)
    ensures
        forall|i: int| 0 <= i < r@.len() ==> (#[trigger] r@[i]).wf(),
        forall|i: int| 0 <= i < r@.len() - 1 ==> (#[trigger] r@[i])@.len() == CHUNK_MAX_LEN,
        assembled(r@.map_values(|c: Chunk| c@)) == data@,
        data@.len() == 0 ==> r@.len() == 0,
        data@.len() > 0 ==> (r@.len() - 1) * (CHUNK_MAX_LEN as int) < data@.len() <= r@.len() * (
        CHUNK_MAX_LEN as int),
{
    let mut r: Vec<Chunk> = Vec::new();
    let mut pos: usize = 0;
    while pos < data.len()
        invariant
            pos <= data@.len(),
            assembled(r@.map_values(|c: Chunk| c@)) == data@.take(pos as int),
            forall|i: int| 0 <= i < r@.len() ==> (#[trigger] r@[i]).wf(),
            forall|i: int|
                0 <= i < r@.len() ==> ((#[trigger] r@[i])@.len() == CHUNK_MAX_LEN || (i == r@.len()
                    - 1 && pos == data@.len())),
            pos == r@.len() * (CHUNK_MAX_LEN as int) || (pos == data@.len() && r@.len() > 0 && (
            r@.len() - 1) * (CHUNK_MAX_LEN as int) < pos <= r@.len() * (CHUNK_MAX_LEN as int)),
            pos < data@.len() ==> pos == r@.len() * (CHUNK_MAX_LEN as int),
        decreases data@.len() - pos,
    {
        let end = if data.len() - pos > CHUNK_MAX_LEN {
            pos + CHUNK_MAX_LEN
        } else {
            data.len()
        };
        let mut piece: Vec<u8> = Vec::new();
        let mut j = pos;
        while j < end
            invariant
                pos <= j <= end,
                end <= data@.len(),
                piece@ == data@.subrange(pos as int, j as int),
            decreases end - j,
        {
            piece.push(data[j]);
            assert(piece@ =~= data@.subrange(pos as int, j + 1));
            j = j + 1;
        }
        let ghost prev = r@.map_values(|c: Chunk| c@);
        r.push(Chunk { data: piece });
        proof {
            let cur = r@.map_values(|c: Chunk| c@);
            assert(cur.drop_last() =~= prev);
            assert(cur.last() == data@.subrange(pos as int, end as int));
            assert(assembled(cur) =~= data@.take(end as int)) by {
                assert(data@.take(pos as int) + data@.subrange(pos as int, end as int) =~= data@.take(
                    end as int,
                ));
            }
        }
        pos = end;
    }
    proof {
        assert(data@.take(data@.len() as int) =~= data@);
    }
    r
}

/// Lays a list of chunks out again as one byte buffer; refused only when
/// the total length cannot be addressed on this machine.
pub fn assemble(chunks: &Vec<Chunk>) -> (r: Option<Vec<u8>>)
    ensures
        match r {
            Some(v) => v@ == assembled(chunks@.map_values(|c: Chunk| c@)),
            None => assembled(chunks@.map_values(|c: Chunk| c@)).len() > usize::MAX,
        },
{
    let ghost pieces = chunks@.map_values(|c: Chunk| c@);
    let mut total: usize = 0;
    let mut i: usize = 0;
    while i < chunks.len()
        invariant
            i <= chunks@.len(),
            pieces == chunks@.map_values(|c: Chunk| c@),
            total == assembled(pieces.take(i as int)).len(),
        decreases chunks@.len() - i,
    {
        proof {
            lemma_assembled_take_one_more(pieces, i as int);
        }
        let len = chunks[i].data.len();
        if usize::MAX - total < len {
            proof {
                lemma_assembled_take_mono(pieces, i + 1, pieces.len() as int);
                assert(pieces.take(pieces.len() as int) =~= pieces);
            }
            return None;
        }
        total = total + len;
        i = i + 1;
    }
    let mut v: Vec<u8> = Vec::new();
    let mut k: usize = 0;
    while k < chunks.len()
        invariant
            k <= chunks@.len(),
            pieces == chunks@.map_values(|c: Chunk| c@),
            v@ == assembled(pieces.take(k as int)),
        decreases chunks@.len() - k,
    {
        proof {
            lemma_assembled_take_one_more(pieces, k as int);
        }
        let ghost prev = v@;
        let chunk = &chunks[k];
        let mut j: usize = 0;
        while j < chunk.data.len()
            invariant
                j <= chunk.data@.len(),
                v@ == prev + chunk.data@.take(j as int),
            decreases chunk.data@.len() - j,
        {
            v.push(chunk.data[j]);
            assert(v@ =~= prev + chunk.data@.take(j + 1));
            j = j + 1;
        }
        proof {
            assert(chunk.data@.take(chunk.data@.len() as int) =~= chunk.data@);
            assert(pieces[k as int] == chunk.data@);
        }
        k = k + 1;
    }
    proof {
        assert(pieces.take(pieces.len() as int) =~= pieces);
    }
    Some(v)
}

} // verus!
