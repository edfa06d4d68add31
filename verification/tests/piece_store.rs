use rustorrent::file::{PartialFile, PieceCollection};
use sha1::Digest;

// SHA-1 of the three bytes "abc".
const ABC_DIGEST: [u8; 20] = [
    0xa9, 0x99, 0x3e, 0x36, 0x47, 0x06, 0x81, 0x6a, 0xba, 0x3e, 0x25, 0x71, 0x78, 0x50, 0xc2,
    0x6c, 0x9c, 0xd0, 0xd8, 0x9d,
];

fn two_piece_store() -> PartialFile {
    PartialFile::new(16, vec![vec![1u8; 20], vec![2u8; 20]])
}

#[test]
fn untouched_store_reports_all_false() {
    let f = two_piece_store();
    let bits = f.bit_array();
    assert_eq!(bits, vec![false, false]);
    assert!(!f.is_complete());
}

#[test]
fn untouched_store_no_piece_complete() {
    let f = two_piece_store();
    assert!(!f.is_piece_complete(0));
    assert!(!f.is_piece_complete(1));
}

#[test]
fn exact_write_completes_piece() {
    let mut f = PartialFile::new(16, vec![ABC_DIGEST.to_vec()]);
    assert!(!f.is_piece_complete(0));
    assert!(f.add_piece(0, 0, b"abc".to_vec()));
    assert!(f.is_piece_complete(0));
    assert!(f.is_complete());
    assert_eq!(f.bit_array(), vec![true]);
}

#[test]
fn flipping_a_byte_breaks_completion() {
    let mut f = PartialFile::new(16, vec![ABC_DIGEST.to_vec()]);
    assert!(f.add_piece(0, 0, b"abc".to_vec()));
    assert!(f.is_piece_complete(0));
    // Overwrite the first byte with a different value.
    assert!(f.add_piece(0, 0, b"x".to_vec()));
    assert!(!f.is_piece_complete(0));
    // Writing the right byte back restores completion.
    assert!(f.add_piece(0, 0, b"a".to_vec()));
    assert!(f.is_piece_complete(0));
}

#[test]
fn digest_matches_real_sha1() {
    let computed = sha1::Sha1::digest(b"abc").to_vec();
    assert_eq!(computed, ABC_DIGEST.to_vec());
    let mut f = PartialFile::new(8, vec![computed]);
    assert!(f.add_piece(0, 0, b"abc".to_vec()));
    assert!(f.is_piece_complete(0));
}

#[test]
fn oversized_write_is_rejected_without_mutation() {
    let mut f = PartialFile::new(4, vec![ABC_DIGEST.to_vec()]);
    assert!(f.add_piece(0, 0, b"abc".to_vec()));
    assert!(f.is_piece_complete(0));
    // offset + len exceeds the piece length: refused, nothing changes.
    assert!(!f.add_piece(0, 3, vec![9, 9]));
    assert!(!f.add_piece(0, 5, vec![]));
    assert!(!f.add_piece(0, 0, vec![0; 5]));
    assert!(f.is_piece_complete(0));
    // index out of range: refused.
    assert!(!f.add_piece(1, 0, vec![1]));
    assert!(!f.add_piece(usize::MAX, 0, vec![]));
    assert!(f.is_piece_complete(0));
}

#[test]
fn gap_write_zero_fills() {
    // Piece is the four bytes [0, 0, 0, 7]: writing only the last byte
    // grows the buffer and zero-fills the gap.
    let digest = sha1::Sha1::digest(&[0u8, 0, 0, 7]).to_vec();
    let mut f = PartialFile::new(4, vec![digest]);
    assert!(f.add_piece(0, 3, vec![7]));
    assert!(f.is_piece_complete(0));
}

#[test]
fn overlapping_write_last_wins() {
    let digest = sha1::Sha1::digest(b"abcd").to_vec();
    let mut f = PartialFile::new(4, vec![digest]);
    assert!(f.add_piece(0, 0, b"abzz".to_vec()));
    assert!(!f.is_piece_complete(0));
    assert!(f.add_piece(0, 2, b"cd".to_vec()));
    assert!(f.is_piece_complete(0));
}

#[test]
fn piece_collection_accepts_and_rejects() {
    let mut c = PieceCollection::new(3, 8);
    assert!(c.add(0, 0, vec![1, 2, 3]));
    assert!(c.add(2, 4, vec![4, 4, 4, 4]));
    assert!(!c.add(3, 0, vec![1]));
    assert!(!c.add(0, 7, vec![1, 2]));
}

#[test]
fn buffers_grow_zero_filled_and_rejections_leave_them_alone() {
    let mut c = PieceCollection::new(2, 8);
    assert_eq!(c.get_buffer(0), &Vec::<u8>::new());
    assert!(c.add(0, 2, vec![5]));
    assert_eq!(c.get_buffer(0), &vec![0, 0, 5]);
    assert!(c.add(0, 1, vec![9, 9]));
    assert_eq!(c.get_buffer(0), &vec![0, 9, 9]);
    assert!(!c.add(0, 7, vec![1, 2]));
    assert_eq!(c.get_buffer(0), &vec![0, 9, 9]);
    assert_eq!(c.get_buffer(1), &Vec::<u8>::new());
}
