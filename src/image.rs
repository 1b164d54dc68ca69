use vstd::prelude::*;
use pelite::pe64::Pe;

verus! {

/// The code range a PE32+ image declares: `BaseOfCode`, and `BaseOfCode +
/// SizeOfCode` wrapped to 32 bits, read from the optional header that
/// `e_lfanew` (at 0x3C) points 24 bytes short of.
pub open spec fn declared_code_range(img: Seq<u8>) -> (u32, u32) {
    let opt = le_u32(img, 0x3c) + 24;
    let base = le_u32(img, opt + 20);
    let size = le_u32(img, opt + 4);
    (base as u32, ((base + size) % 0x1_0000_0000) as u32)
}

/// Relies on `pelite::pe64::PeView::from_bytes`, which accepts a mapped
/// PE32+ image after checking its DOS and NT headers (and that the buffer is
/// 4-byte aligned in memory, so acceptance is not stated here), and on
/// `Headers::code_range`, which reads the code range from the accepted
/// image's optional header.
#[verifier::external_body]
pub(crate) fn code_range(image: &[u8]) -> (r: Option<(u32, u32)>)
    ensures
        r.is_some() ==> r == Some(declared_code_range(image@)),
{
    match pelite::pe64::PeView::from_bytes(image) {
        Ok(view) => {
            let range = view.headers().code_range();
            Some((range.start, range.end))
        },
        Err(_) => None,
    }
}

/// How a captured address is turned into the value that is recorded.
#[derive(Clone, Copy, Debug, PartialEq, Eq, Structural)]
pub enum Reading {
    /// The captured address itself.
    Address,
    /// The target of the signed 32-bit displacement stored at the captured
    /// address, relative to the end of those four bytes, plus a fixed
    /// adjustment.
    Relative(u32),
    /// The little-endian 32-bit value stored at the captured address.
    U32,
    /// The byte stored at the captured address.
    U8,
}

/// The little-endian 32-bit value at `at`.
pub open spec fn le_u32(img: Seq<u8>, at: int) -> int {
    img[at] + img[at + 1] * 256 + img[at + 2] * 65536 + img[at + 3] * 16777216
}

/// The value a reading records for a capture at `at`, or `None` when the
/// bytes it needs lie past the end of the image. A signed displacement added
/// modulo 2^32 in its two's-complement form gives the same address as a
/// signed addition.
pub open spec fn read_value(img: Seq<u8>, at: int, r: Reading) -> Option<u32> {
    match r {
        Reading::Address => if 0 <= at <= u32::MAX {
            Some(at as u32)
        } else {
            None
        },
        Reading::U8 => if 0 <= at < img.len() {
            Some(img[at] as u32)
        } else {
            None
        },
        Reading::U32 => if 0 <= at && at + 4 <= img.len() {
            Some(le_u32(img, at) as u32)
        } else {
            None
        },
        Reading::Relative(extra) => if 0 <= at && at + 4 <= img.len() {
            Some(((at + 4 + le_u32(img, at) + extra) % 0x1_0000_0000) as u32)
        } else {
            None
        },
    }
}

fn load_le_u32(img: &[u8], at: usize) -> (r: u64)
    requires
        at + 4 <= img@.len(),
    ensures
        r == le_u32(img@, at as int),
        r <= u32::MAX,
{
    let b0 = img[at] as u64;
    let b1 = img[at + 1] as u64;
    let b2 = img[at + 2] as u64;
    let b3 = img[at + 3] as u64;
    b0 + b1 * 256 + b2 * 65536 + b3 * 16777216
}

/// Applies a reading to a captured address.
pub fn read_value_at(img: &[u8], at: u32, r: Reading) -> (v: Option<u32>)
    ensures
        v == read_value(img@, at as int, r),
{
    let n = img.len();
    match r {
        Reading::Address => Some(at),
        Reading::U8 => {
            if (at as usize) < n {
                Some(img[at as usize] as u32)
            } else {
                None
            }
        },
        Reading::U32 => {
            if n >= 4 && (at as usize) <= n - 4 {
                Some(load_le_u32(img, at as usize) as u32)
            } else {
                None
            }
        },
        Reading::Relative(extra) => {
            if n >= 4 && (at as usize) <= n - 4 {
                let d = load_le_u32(img, at as usize);
                let t = (at as u64 + 4 + d + extra as u64) % 0x1_0000_0000;
                Some(t as u32)
            } else {
                None
            }
        },
    }
}

} // verus!
