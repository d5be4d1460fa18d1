//! Checking that a finished download is an image: large enough, and with a
//! known signature in its first bytes.
use vstd::prelude::*;
use crate::error::VerifyFailure;

verus! {

/// Files smaller than this are never accepted.
pub const MIN_IMAGE_BYTES: u64 = 1024;

/// How many leading bytes the signature check reads.
pub const HEADER_LEN: usize = 12;

/// JPEG: `FF D8 FF`.
pub open spec fn is_jpeg(h: Seq<u8>) -> bool {
    h.len() >= 3 && h[0] == 0xFFu8 && h[1] == 0xD8u8 && h[2] == 0xFFu8
}

/// PNG: `89 50 4E 47 0D 0A 1A 0A`.
pub open spec fn is_png(h: Seq<u8>) -> bool {
    h.len() >= 8 && h.subrange(0, 8) == seq![0x89u8, 0x50u8, 0x4Eu8, 0x47u8, 0x0Du8, 0x0Au8, 0x1Au8, 0x0Au8]
}

/// GIF: `GIF8`.
pub open spec fn is_gif(h: Seq<u8>) -> bool {
    h.len() >= 4 && h.subrange(0, 4) == seq![0x47u8, 0x49u8, 0x46u8, 0x38u8]
}

/// WebP: `RIFF`, four bytes of length, then `WEBP`.
pub open spec fn is_webp(h: Seq<u8>) -> bool {
    h.len() >= 12 && h.subrange(0, 4) == seq![0x52u8, 0x49u8, 0x46u8, 0x46u8]
        && h.subrange(8, 12) == seq![0x57u8, 0x45u8, 0x42u8, 0x50u8]
}

pub open spec fn image_signature(h: Seq<u8>) -> bool {
    is_jpeg(h) || is_png(h) || is_gif(h) || is_webp(h)
}

/// The verdict on a file: `size` is `None` when the file is not on disk,
/// `h` its first bytes.
pub open spec fn content_verdict(size: Option<u64>, h: Seq<u8>) -> Result<(), VerifyFailure> {
    match size {
        None => Err(VerifyFailure::Missing),
        Some(n) => if n < MIN_IMAGE_BYTES {
            Err(VerifyFailure::TooSmall { size: n })
        } else if !image_signature(h) {
            Err(VerifyFailure::NotImage)
        } else {
            Ok(())
        },
    }
}

fn starts_with(h: &[u8], magic: &[u8]) -> (r: bool)
    ensures
        r == (h@.len() >= magic@.len() && h@.subrange(0, magic@.len() as int) == magic@),
{
    if h.len() < magic.len() {
        return false;
    }
    let mut i: usize = 0;
    while i < magic.len()
        invariant
            i <= magic@.len() <= h@.len(),
            forall|k: int| 0 <= k < i ==> h@[k] == magic@[k],
        decreases magic@.len() - i,
    {
        if h[i] != magic[i] {
            proof {
                assert(h@.subrange(0, magic@.len() as int)[i as int] != magic@[i as int]);
            }
            return false;
        }
        i = i + 1;
    }
    proof {
        assert(h@.subrange(0, magic@.len() as int) =~= magic@);
    }
    true
}

/// Whether the leading bytes of a file carry a JPEG, PNG, GIF or WebP
/// signature.
pub fn is_valid_image(header: &[u8]) -> (r: bool)
    ensures
        r == image_signature(header@),
{
    let jpeg = header.len() >= 3 && header[0] == 0xFF && header[1] == 0xD8 && header[2] == 0xFF;
    let png = starts_with(header, &[0x89u8, 0x50, 0x4E, 0x47, 0x0D, 0x0A, 0x1A, 0x0A]);
    let gif = starts_with(header, &[0x47u8, 0x49, 0x46, 0x38]);
    let mut webp = false;
    if header.len() >= 12 && starts_with(header, &[0x52u8, 0x49, 0x46, 0x46]) {
        webp = header[8] == 0x57 && header[9] == 0x45 && header[10] == 0x42 && header[11] == 0x50;
        proof {
            let tail = header@.subrange(8, 12);
            assert(webp == (tail =~= seq![0x57u8, 0x45u8, 0x42u8, 0x50u8])) by {
                assert(tail[0] == header@[8] && tail[1] == header@[9]);
                assert(tail[2] == header@[10] && tail[3] == header@[11]);
            }
        }
    }
    proof {
        assert(seq![0x89u8, 0x50u8, 0x4Eu8, 0x47u8, 0x0Du8, 0x0Au8, 0x1Au8, 0x0Au8].len() == 8);
        assert(seq![0x47u8, 0x49u8, 0x46u8, 0x38u8].len() == 4);
    }
    jpeg || png || gif || webp
}

/// The verdict on a finished download: `size` is the file's length, or
/// `None` when it is not on disk; `header` its first bytes (up to
/// `HEADER_LEN`).
pub fn verify_content(size: Option<u64>, header: &[u8]) -> (r: Result<(), VerifyFailure>)
    ensures
        r == content_verdict(size, header@),
{
    match size {
        None => Err(VerifyFailure::Missing),
        Some(n) => {
            if n < MIN_IMAGE_BYTES {
                Err(VerifyFailure::TooSmall { size: n })
            } else if !is_valid_image(header) {
                Err(VerifyFailure::NotImage)
            } else {
                Ok(())
            }
        },
    }
}

impl VerifyFailure {
    /// Whether the rejected file is to be removed: every rejection of a file
    /// that exists removes it.
    pub fn removes_file(&self) -> (r: bool)
        ensures
            r == !(*self is Missing),
    {
        match self {
            VerifyFailure::Missing => false,
            _ => true,
        }
    }
}

/// A file that starts with the PNG signature passes once it holds at least
/// `MIN_IMAGE_BYTES`; cut below that, the same file fails as too small and is
/// removed.
pub proof fn lemma_png_round_trip(h: Seq<u8>, size: u64, cut: u64)
    requires
        h.len() >= 8,
        h.subrange(0, 8) == seq![0x89u8, 0x50u8, 0x4Eu8, 0x47u8, 0x0Du8, 0x0Au8, 0x1Au8, 0x0Au8],
        size >= MIN_IMAGE_BYTES,
        cut < MIN_IMAGE_BYTES,
    ensures
        content_verdict(Some(size), h) == Ok::<(), VerifyFailure>(()),
        content_verdict(Some(cut), h) == Err::<(), VerifyFailure>(VerifyFailure::TooSmall { size: cut }),
        !(VerifyFailure::TooSmall { size: cut } is Missing),
{
    assert(is_png(h));
}

} // verus!
