//! Piece store: per-piece byte buffers that accept partial writes and are
//! checked for completion against expected 20-byte digests.

use vstd::prelude::*;
use sha1::Digest;

verus! {

/// The SHA-1 digest of a byte sequence, as the `sha1` crate computes it.
/// The digest depends on the input bytes alone.
pub uninterp spec fn sha1_of(data: Seq<u8>) -> Seq<u8>;

/// Relies on `sha1::Sha1` (through the `Digest` trait of the `sha1` crate):
/// returns the 20-byte SHA-1 digest of the input, a function of the input
/// bytes alone.
#[verifier::external_body]
fn sha1_digest(data: &Vec<u8>) -> (r: Vec<u8>)
    ensures
        r@ == sha1_of(data@),
        r@.len() == 20,
{
    sha1::Sha1::digest(data.as_slice()).to_vec()
}

/// The buffer that results from writing `block` at `offset` into `buf`:
/// the buffer grows (zero-filled) to at least `offset + block.len()`, and
/// the written range is overwritten; everything else is kept.
pub open spec fn write_block(buf: Seq<u8>, offset: int, block: Seq<u8>) -> Seq<u8> {
    Seq::new(
        vstd::math::max(buf.len() as int, offset + block.len()) as nat,
        |j: int|
            if offset <= j < offset + block.len() {
                block[j - offset]
            } else if j < buf.len() {
                buf[j]
            } else {
                0u8
            },
    )
}

/// One growable buffer per expected piece, each capped at `piece_size` bytes.
pub struct PieceCollection {
    pieces: Vec<Vec<u8>>,
    piece_size: usize,
}

impl PieceCollection {
    /// The byte contents of each buffer.
    pub closed spec fn spec_pieces(&self) -> Seq<Seq<u8>> {
        self.pieces@.map_values(|p: Vec<u8>| p@)
    }

    /// The fixed per-piece capacity.
    pub closed spec fn spec_piece_size(&self) -> usize {
        self.piece_size
    }

    /// A fresh collection of `pieces` empty buffers with capacity `size`.
    pub fn new(pieces: usize, size: usize) -> (r: PieceCollection)
        ensures
            r.spec_piece_size() == size,
            r.spec_pieces().len() == pieces,
            forall|i: int| 0 <= i < pieces ==> r.spec_pieces()[i] == Seq::<u8>::empty(),
    {
        let mut vec: Vec<Vec<u8>> = Vec::new();
        let mut i: usize = 0;
        while i < pieces
            invariant
                i <= pieces,
                vec@.len() == i,
                forall|j: int| 0 <= j < i ==> vec@[j]@ == Seq::<u8>::empty(),
            decreases pieces - i,
        {
            vec.push(Vec::new());
            i += 1;
        }
        PieceCollection { pieces: vec, piece_size: size }
    }

    /// Writes `block` at `offset` into the buffer at `index`.
    ///
    /// Fails (returning `false`, with no mutation) when `index` is out of
    /// range or the write would exceed the per-piece capacity; otherwise the
    /// target buffer becomes `write_block` of its old contents.
    pub fn add(&mut self, index: usize, offset: usize, block: Vec<u8>) -> (ok: bool)
        ensures
            ok == (index < old(self).spec_pieces().len()
                && offset + block@.len() <= old(self).spec_piece_size()),
            !ok ==> *final(self) == *old(self),
            ok ==> {
                &&& final(self).spec_piece_size() == old(self).spec_piece_size()
                &&& final(self).spec_pieces().len() == old(self).spec_pieces().len()
                &&& forall|j: int|
                    0 <= j < final(self).spec_pieces().len() && j != index
                        ==> final(self).spec_pieces()[j] == old(self).spec_pieces()[j]
                &&& final(self).spec_pieces()[index as int]
                    == write_block(old(self).spec_pieces()[index as int], offset as int, block@)
            },
    {
        if index >= self.pieces.len() {
            return false;
        }
        if offset > self.piece_size {
            return false;
        }
        if block.len() > self.piece_size - offset {
            return false;
        }
        let need: usize = offset + block.len();
        let old_len: usize = self.pieces[index].len();
        let new_len: usize = if old_len > need {
            old_len
        } else {
            need
        };
        let ghost target = write_block(self.pieces@[index as int]@, offset as int, block@);
        let mut nb: Vec<u8> = Vec::new();
        let mut j: usize = 0;
        while j < new_len
            invariant
                j <= new_len,
                nb@.len() == j,
                need == offset + block@.len(),
                new_len == vstd::math::max(old_len as int, need as int),
                index < self.pieces@.len(),
                old_len == self.pieces@[index as int]@.len(),
                target == write_block(self.pieces@[index as int]@, offset as int, block@),
                target.len() == new_len,
                forall|k: int| 0 <= k < j ==> nb@[k] == target[k],
            decreases new_len - j,
        {
            let v: u8 = if offset <= j && j < need {
                block[j - offset]
            } else if j < old_len {
                self.pieces[index][j]
            } else {
                0u8
            };
            nb.push(v);
            j += 1;
        }
        proof {
            assert(nb@ =~= target);
        }
        self.pieces[index] = nb;
        proof {
            assert(self.spec_pieces() =~= old(self).spec_pieces().update(index as int, target));
        }
        true
    }

    /// The buffer at `index`.
    pub fn get_buffer(&self, index: usize) -> (r: &Vec<u8>)
        requires
            index < self.spec_pieces().len(),
        ensures
            r@ == self.spec_pieces()[index as int],
    {
        &self.pieces[index]
    }
}

/// True iff the two byte vectors hold the same bytes.
fn bytes_eq(a: &Vec<u8>, b: &Vec<u8>) -> (r: bool)
    ensures
        r == (a@ == b@),
{
    if a.len() != b.len() {
        return false;
    }
    let mut i: usize = 0;
    while i < a.len()
        invariant
            i <= a@.len(),
            a@.len() == b@.len(),
            forall|j: int| 0 <= j < i ==> a@[j] == b@[j],
        decreases a@.len() - i,
    {
        if a[i] != b[i] {
            return false;
        }
        i += 1;
    }
    proof {
        assert(a@ =~= b@);
    }
    true
}

/// A partially downloaded file: one buffer per expected piece, plus the
/// expected 20-byte digest of each piece.
pub struct PartialFile {
    collection: PieceCollection,
    checksums: Vec<Vec<u8>>,
}

impl PartialFile {
    /// The byte contents of each piece buffer.
    pub closed spec fn spec_buffers(&self) -> Seq<Seq<u8>> {
        self.collection.spec_pieces()
    }

    /// The expected digest of each piece.
    pub closed spec fn spec_checksums(&self) -> Seq<Seq<u8>> {
        self.checksums@.map_values(|c: Vec<u8>| c@)
    }

    /// The fixed per-piece capacity.
    pub closed spec fn spec_piece_size(&self) -> usize {
        self.collection.spec_piece_size()
    }

    /// One buffer per expected digest.
    pub open spec fn wf(&self) -> bool {
        self.spec_buffers().len() == self.spec_checksums().len()
    }

    /// Piece `i` is complete when its buffer's digest equals the expected one.
    pub open spec fn spec_piece_complete(&self, i: int) -> bool {
        sha1_of(self.spec_buffers()[i]) == self.spec_checksums()[i]
    }

    /// A fresh store: one empty buffer per expected digest.
    pub fn new(piece_length: usize, checksums: Vec<Vec<u8>>) -> (r: PartialFile)
        ensures
            r.wf(),
            r.spec_piece_size() == piece_length,
            r.spec_checksums() == checksums@.map_values(|c: Vec<u8>| c@),
            r.spec_buffers().len() == checksums@.len(),
            forall|i: int| 0 <= i < checksums@.len() ==> r.spec_buffers()[i] == Seq::<u8>::empty(),
    {
        let n = checksums.len();
        PartialFile { collection: PieceCollection::new(n, piece_length), checksums }
    }

    /// Writes `block` at `offset` into piece `index`; see `PieceCollection::add`.
    /// The expected digests and the capacity never change.
    pub fn add_piece(&mut self, index: usize, offset: usize, block: Vec<u8>) -> (ok: bool)
        ensures
            ok == (index < old(self).spec_buffers().len()
                && offset + block@.len() <= old(self).spec_piece_size()),
            !ok ==> *final(self) == *old(self),
            final(self).spec_checksums() == old(self).spec_checksums(),
            final(self).spec_piece_size() == old(self).spec_piece_size(),
            final(self).spec_buffers().len() == old(self).spec_buffers().len(),
            ok ==> {
                &&& forall|j: int|
                    0 <= j < final(self).spec_buffers().len() && j != index
                        ==> final(self).spec_buffers()[j] == old(self).spec_buffers()[j]
                &&& final(self).spec_buffers()[index as int]
                    == write_block(old(self).spec_buffers()[index as int], offset as int, block@)
            },
    {
        self.collection.add(index, offset, block)
    }

    /// True iff the current contents of buffer `index` hash to the expected
    /// digest for that piece. Digests are recomputed on every call.
    pub fn is_piece_complete(&self, index: usize) -> (r: bool)
        requires
            self.wf(),
            index < self.spec_buffers().len(),
        ensures
            r == self.spec_piece_complete(index as int),
    {
        let digest = sha1_digest(&self.collection.pieces[index]);
        bytes_eq(&digest, &self.checksums[index])
    }

    /// The protocol "have" bitfield: entry `i` is `is_piece_complete(i)`.
    pub fn bit_array(&self) -> (r: Vec<bool>)
        requires
            self.wf(),
        ensures
            r@.len() == self.spec_buffers().len(),
            forall|i: int| 0 <= i < r@.len() ==> r@[i] == self.spec_piece_complete(i),
    {
        let mut out: Vec<bool> = Vec::new();
        let mut i: usize = 0;
        while i < self.checksums.len()
            invariant
                self.wf(),
                i <= self.spec_buffers().len(),
                self.checksums@.len() == self.spec_buffers().len(),
                out@.len() == i,
                forall|j: int| 0 <= j < i ==> out@[j] == self.spec_piece_complete(j),
            decreases self.checksums@.len() - i,
        {
            let c = self.is_piece_complete(i);
            out.push(c);
            i += 1;
        }
        out
    }

    /// True iff every piece is complete.
    pub fn is_complete(&self) -> (r: bool)
        requires
            self.wf(),
        ensures
            r == forall|i: int|
                0 <= i < self.spec_buffers().len() ==> self.spec_piece_complete(i),
    {
        let mut i: usize = 0;
        while i < self.checksums.len()
            invariant
                self.wf(),
                i <= self.spec_buffers().len(),
                self.checksums@.len() == self.spec_buffers().len(),
                forall|j: int| 0 <= j < i ==> self.spec_piece_complete(j),
            decreases self.checksums@.len() - i,
        {
            if !self.is_piece_complete(i) {
                return false;
            }
            i += 1;
        }
        true
    }
}

/// An untouched store reports no piece complete, provided no expected digest
/// happens to equal the digest of the empty byte string.
pub proof fn lemma_untouched_store_incomplete(f: PartialFile)
    requires
        f.wf(),
        forall|i: int| 0 <= i < f.spec_buffers().len() ==> f.spec_buffers()[i] == Seq::<u8>::empty(),
        forall|i: int|
            0 <= i < f.spec_checksums().len()
                ==> f.spec_checksums()[i] != sha1_of(Seq::<u8>::empty()),
    ensures
        forall|i: int| 0 <= i < f.spec_buffers().len() ==> !f.spec_piece_complete(i),
{
}

/// A whole-buffer write into an empty buffer leaves exactly the written
/// bytes, so a piece written in one exact block whose digest matches the
/// expected digest becomes complete.
pub proof fn lemma_exact_write_completes(pre: PartialFile, post: PartialFile, index: int, block: Seq<u8>)
    requires
        0 <= index < pre.spec_buffers().len(),
        pre.spec_buffers()[index].len() == 0,
        post.spec_checksums() == pre.spec_checksums(),
        post.spec_buffers() == pre.spec_buffers().update(
            index,
            write_block(pre.spec_buffers()[index], 0, block),
        ),
        sha1_of(block) == pre.spec_checksums()[index],
    ensures
        post.spec_piece_complete(index),
{
    assert(write_block(pre.spec_buffers()[index], 0, block) =~= block);
}

} // verus!
