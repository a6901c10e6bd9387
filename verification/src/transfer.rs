//! The buffered byte copy at the heart of download and upload.
//!
//! Both directions move bytes the same way: read into a fixed-size buffer,
//! write the bytes the read returned in full, and stop at the first
//! zero-length read, which signals end-of-stream. The model below states what
//! such a copy writes ([`copied`]) and how a source is cut into reads
//! ([`chunked`]), and proves that the copy is faithful: downloading a file
//! and re-uploading the downloaded bytes reproduces the original content.

use vstd::prelude::*;

verus! {

/// The size of the intermediate copy buffer, in bytes.
pub const CHUNK_SIZE: usize = 8192;

/// The views of a sequence of byte chunks.
pub open spec fn chunk_models(chunks: Seq<Vec<u8>>) -> Seq<Seq<u8>> {
    chunks.map_values(|c: Vec<u8>| c@)
}

/// A sequence of chunks concatenated back in order.
pub open spec fn joined(chunks: Seq<Seq<u8>>) -> Seq<u8>
    decreases chunks.len(),
{
    if chunks.len() == 0 {
        Seq::empty()
    } else {
        chunks.first() + joined(chunks.drop_first())
    }
}

/// `data` cut into the successive reads a buffered copy makes of it: full
/// `size`-byte chunks, then whatever shorter tail is left. A zero `size`
/// yields no chunks.
pub open spec fn chunked(data: Seq<u8>, size: nat) -> Seq<Seq<u8>>
    decreases data.len(),
{
    if size == 0 || data.len() == 0 {
        Seq::empty()
    } else if data.len() <= size {
        seq![data]
    } else {
        seq![data.subrange(0, size as int)] + chunked(data.skip(size as int), size)
    }
}

/// What a buffered copy writes, given the byte chunks its successive reads
/// return: each chunk in turn, in full, stopping at the first zero-length
/// read.
pub open spec fn copied(reads: Seq<Seq<u8>>) -> Seq<u8>
    decreases reads.len(),
{
    if reads.len() == 0 || reads.first().len() == 0 {
        Seq::empty()
    } else {
        reads.first() + copied(reads.drop_first())
    }
}

/// Chunking loses nothing: the chunks of `data`, written back in order, are
/// `data` again.
pub proof fn lemma_chunked_joins_back(data: Seq<u8>, size: nat)
    requires
        size > 0,
    ensures
        joined(chunked(data, size)) == data,
    decreases data.len(),
{
    if data.len() == 0 {
        assert(joined(chunked(data, size)) =~= data);
    } else if data.len() <= size {
        assert(chunked(data, size) == seq![data]);
        assert(seq![data].drop_first() =~= Seq::<Seq<u8>>::empty());
        assert(joined(Seq::<Seq<u8>>::empty()) == Seq::<u8>::empty());
        assert(joined(seq![data]) == data + Seq::<u8>::empty());
        assert(data + Seq::<u8>::empty() =~= data);
    } else {
        let head = data.subrange(0, size as int);
        let tail = data.skip(size as int);
        lemma_chunked_joins_back(tail, size);
        let all = seq![head] + chunked(tail, size);
        assert(all.first() == head);
        assert(all.drop_first() =~= chunked(tail, size));
        assert(joined(all) == head + tail);
        assert(head + tail =~= data);
    }
}

/// Every chunk of a chunking is nonempty and at most `size` bytes, and only
/// an empty source has no chunks.
pub proof fn lemma_chunked_sizes(data: Seq<u8>, size: nat)
    requires
        size > 0,
    ensures
        forall|i: int|
            0 <= i < chunked(data, size).len() ==> 1 <= (#[trigger] chunked(data, size)[i]).len()
                <= size,
        chunked(data, size).len() == 0 <==> data.len() == 0,
    decreases data.len(),
{
    if data.len() > size {
        lemma_chunked_sizes(data.skip(size as int), size);
        let all = seq![data.subrange(0, size as int)] + chunked(data.skip(size as int), size);
        assert forall|i: int| 0 <= i < all.len() implies 1 <= (#[trigger] all[i]).len()
            <= size by {
            if i > 0 {
                assert(all[i] == chunked(data.skip(size as int), size)[i - 1]);
            }
        }
    }
}

/// A copy whose reads return only nonempty chunks, followed by the
/// end-of-stream read, writes exactly those chunks in order.
pub proof fn lemma_copied_joins(chunks: Seq<Seq<u8>>)
    requires
        forall|i: int| 0 <= i < chunks.len() ==> (#[trigger] chunks[i]).len() > 0,
    ensures
        copied(chunks.push(Seq::empty())) == joined(chunks),
        copied(chunks) == joined(chunks),
    decreases chunks.len(),
{
    let ended = chunks.push(Seq::empty());
    if chunks.len() == 0 {
        assert(ended.first().len() == 0);
        assert(copied(ended) =~= joined(chunks));
        assert(copied(chunks) =~= joined(chunks));
    } else {
        assert(chunks[0].len() > 0);
        lemma_copied_joins(chunks.drop_first());
        assert(ended.first() == chunks.first());
        assert(ended.drop_first() =~= chunks.drop_first().push(Seq::empty()));
        assert(copied(ended) == chunks.first() + copied(chunks.drop_first().push(Seq::empty())));
        assert(copied(chunks) == chunks.first() + copied(chunks.drop_first()));
    }
}

/// Round-trip fidelity: a download reads the remote content chunk by chunk
/// until the zero-length read and writes exactly the original bytes locally;
/// re-uploading those bytes through the same buffered copy writes exactly
/// them again.
pub proof fn lemma_round_trip(data: Seq<u8>, size: nat)
    requires
        size > 0,
    ensures
        copied(chunked(data, size).push(Seq::empty())) == data,
        joined(chunked(data, size)) == data,
{
    lemma_chunked_sizes(data, size);
    lemma_copied_joins(chunked(data, size));
    lemma_chunked_joins_back(data, size);
}

/// A zero-byte source produces a zero-byte destination: the copy stops at the
/// first zero-length read having written nothing, and an empty source has no
/// chunks to write at all.
pub proof fn lemma_zero_byte_source(reads: Seq<Seq<u8>>, size: nat)
    requires
        reads.len() > 0,
        reads.first().len() == 0,
        size > 0,
    ensures
        copied(reads) == Seq::<u8>::empty(),
        chunked(Seq::<u8>::empty(), size) == Seq::<Seq<u8>>::empty(),
{
}

/// One turn of the buffered copy, decided by how many bytes the last read
/// returned.
pub enum CopyStep {
    /// the read returned bytes: write exactly these, in full, then read again
    Write(Vec<u8>),
    /// the read returned no bytes: end-of-stream, the copy is complete
    Done,
}

/// Decide one turn of the buffered copy: a zero-length read ends the copy;
/// otherwise exactly the first `n_read` bytes of the buffer are to be
/// written before the next read.
pub fn copy_step(buffer: &Vec<u8>, n_read: usize) -> (s: CopyStep)
    requires
        n_read <= buffer@.len(),
    ensures
        match s {
            CopyStep::Done => n_read == 0,
            CopyStep::Write(c) => n_read > 0 && c@ == buffer@.subrange(0, n_read as int),
        },
{
    if n_read == 0 {
        CopyStep::Done
    } else {
        let mut c: Vec<u8> = Vec::new();
        let mut j: usize = 0;
        while j < n_read
            invariant
                j <= n_read,
                n_read <= buffer@.len(),
                c@ == buffer@.subrange(0, j as int),
            decreases n_read - j,
        {
            c.push(buffer[j]);
            proof {
                assert(c@ =~= buffer@.subrange(0, j + 1));
            }
            j = j + 1;
        }
        CopyStep::Write(c)
    }
}

/// Cut `data` into the successive buffer loads an upload reads from it: the
/// executable counterpart of [`chunked`] at the fixed buffer size.
pub fn split_chunks(data: &Vec<u8>) -> (r: Vec<Vec<u8>>)
    ensures
        chunk_models(r@) == chunked(data@, CHUNK_SIZE as nat),
        data@.len() == 0 ==> r@.len() == 0,
{
    let mut r: Vec<Vec<u8>> = Vec::new();
    let mut pos: usize = 0;
    proof {
        assert(data@.skip(0) =~= data@);
        assert(chunk_models(r@) + chunked(data@, CHUNK_SIZE as nat) =~= chunked(
            data@,
            CHUNK_SIZE as nat,
        ));
    }
    while pos < data.len()
        invariant
            pos <= data@.len(),
            chunked(data@, CHUNK_SIZE as nat) == chunk_models(r@) + chunked(
                data@.skip(pos as int),
                CHUNK_SIZE as nat,
            ),
        decreases data@.len() - pos,
    {
        let end: usize = if data.len() - pos > CHUNK_SIZE {
            pos + CHUNK_SIZE
        } else {
            data.len()
        };
        let mut c: Vec<u8> = Vec::new();
        let mut j: usize = pos;
        while j < end
            invariant
                pos <= j <= end,
                end <= data@.len(),
                c@ == data@.subrange(pos as int, j as int),
            decreases end - j,
        {
            c.push(data[j]);
            proof {
                assert(c@ =~= data@.subrange(pos as int, j + 1));
            }
            j = j + 1;
        }
        proof {
            let rest = data@.skip(pos as int);
            let size = CHUNK_SIZE as nat;
            if rest.len() <= size {
                assert(c@ =~= rest);
                assert(chunked(rest, size) == seq![rest]);
                assert(chunk_models(r@.push(c)) =~= chunk_models(r@) + seq![rest]);
                assert(data@.skip(end as int) =~= Seq::<u8>::empty());
                assert(chunk_models(r@.push(c)) + chunked(data@.skip(end as int), size)
                    =~= chunk_models(r@) + chunked(rest, size));
            } else {
                assert(c@ =~= rest.subrange(0, size as int));
                assert(rest.skip(size as int) =~= data@.skip(end as int));
                assert(chunked(rest, size) == seq![c@] + chunked(data@.skip(end as int), size));
                assert(chunk_models(r@.push(c)) + chunked(data@.skip(end as int), size)
                    =~= chunk_models(r@) + chunked(rest, size));
            }
        }
        r.push(c);
        pos = end;
    }
    proof {
        assert(data@.skip(pos as int) =~= Seq::<u8>::empty());
        assert(chunk_models(r@) + chunked(data@.skip(pos as int), CHUNK_SIZE as nat)
            =~= chunk_models(r@));
    }
    r
}

/// Run the write side of a buffered copy over the given read results: each
/// read's bytes are handed to [`copy_step`] in turn and the directed writes
/// collected, stopping at the first zero-length read. This is the loop the
/// download and upload drivers run, with the reads coming from the wire or
/// the disk instead of a vector.
pub fn run_copy(reads: &Vec<Vec<u8>>) -> (out: Vec<u8>)
    ensures
        out@ == copied(chunk_models(reads@)),
{
    let mut out: Vec<u8> = Vec::new();
    let mut i: usize = 0;
    let mut done: bool = false;
    proof {
        assert(chunk_models(reads@).skip(0) =~= chunk_models(reads@));
    }
    while i < reads.len() && !done
        invariant
            i <= reads@.len(),
            done ==> out@ == copied(chunk_models(reads@)),
            !done ==> copied(chunk_models(reads@)) == out@ + copied(
                chunk_models(reads@).skip(i as int),
            ),
        decreases reads@.len() - i, (if done { 0int } else { 1int }),
    {
        let chunk = &reads[i];
        match copy_step(chunk, chunk.len()) {
            CopyStep::Done => {
                proof {
                    assert(chunk_models(reads@).skip(i as int).first() == reads@[i as int]@);
                    assert(copied(chunk_models(reads@).skip(i as int)) =~= Seq::<u8>::empty());
                    assert(out@ + Seq::<u8>::empty() =~= out@);
                }
                done = true;
            },
            CopyStep::Write(mut c) => {
                proof {
                    let remaining = chunk_models(reads@).skip(i as int);
                    assert(remaining.first() == reads@[i as int]@);
                    assert(c@ =~= reads@[i as int]@);
                    assert(remaining.drop_first() =~= chunk_models(reads@).skip(i + 1));
                    assert(copied(remaining) == c@ + copied(chunk_models(reads@).skip(i + 1)));
                    assert(out@ + copied(remaining) =~= (out@ + c@) + copied(
                        chunk_models(reads@).skip(i + 1),
                    ));
                }
                out.append(&mut c);
                i = i + 1;
            },
        }
    }
    proof {
        if !done {
            assert(chunk_models(reads@).skip(i as int) =~= Seq::<Seq<u8>>::empty());
            assert(out@ + copied(chunk_models(reads@).skip(i as int)) =~= out@);
        }
    }
    out
}

} // verus!
