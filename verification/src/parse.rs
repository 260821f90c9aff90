//! The boundary parser: maps a short, case-insensitive window-family tag to a
//! `WindowType`, or reports `UnknownWindowFamily`.

use vstd::prelude::*;
use vstd::string::StringSliceAdditionalSpecFns;

use crate::TaperError;
use crate::WindowType;

verus! {

/// ASCII-lowercases one byte: the upper-case letters `A ..= Z` move down to
/// `a ..= z`, every other byte is unchanged.
pub open spec fn spec_lower_byte(b: u8) -> u8 {
    if 65 <= b && b <= 90 {
        (b + 32) as u8
    } else {
        b
    }
}

/// ASCII-lowercases a byte sequence.
pub open spec fn spec_lower_bytes(s: Seq<u8>) -> Seq<u8> {
    s.map_values(|b: u8| spec_lower_byte(b))
}

/// ASCII-lowercases the bytes of a tag.
fn lower_ascii_bytes(s: &[u8]) -> (r: Vec<u8>)
    ensures
        r@ == spec_lower_bytes(s@),
{
    let mut out: Vec<u8> = Vec::new();
    let mut i: usize = 0;
    while i < s.len()
        invariant
            i <= s@.len(),
            out@.len() == i,
            forall|k: int| 0 <= k < i ==> out@[k] == spec_lower_byte(s@[k]),
        decreases s@.len() - i,
    {
        let b: u8 = s[i];
        if 65 <= b && b <= 90 {
            out.push(b + 32);
        } else {
            out.push(b);
        }
        i = i + 1;
    }
    proof {
        assert(out@ =~= spec_lower_bytes(s@));
    }
    out
}

/// Whether two byte slices hold the same bytes.
fn bytes_eq(a: &[u8], b: &[u8]) -> (r: bool)
    ensures
        r == (a@ == b@),
{
    if a.len() != b.len() {
        return false;
    }
    let mut i: usize = 0;
    while i < a.len()
        invariant
            a@.len() == b@.len(),
            i <= a@.len(),
            forall|k: int| 0 <= k < i ==> a@[k] == b@[k],
        decreases a@.len() - i,
    {
        if a[i] != b[i] {
            return false;
        }
        i = i + 1;
    }
    proof {
        assert(a@ =~= b@);
    }
    true
}

/// The window family a tag names, compared byte for byte after ASCII
/// lowercasing: `"linear"`, `"hann"`, `"cos"` or `"cosine"`, `"blackman"`.
pub open spec fn spec_window_type_of_tag(s: Seq<u8>) -> Option<WindowType> {
    if spec_lower_bytes(s) == ("linear").spec_bytes() {
        Some(WindowType::Linear)
    } else if spec_lower_bytes(s) == ("hann").spec_bytes() {
        Some(WindowType::Hann)
    } else if spec_lower_bytes(s) == ("cos").spec_bytes() {
        Some(WindowType::Cosine)
    } else if spec_lower_bytes(s) == ("cosine").spec_bytes() {
        Some(WindowType::Cosine)
    } else if spec_lower_bytes(s) == ("blackman").spec_bytes() {
        Some(WindowType::Blackman)
    } else {
        None
    }
}

/// Parses a case-insensitive window-family tag; an unrecognized tag yields
/// `UnknownWindowFamily` and nothing else happens.
pub fn parse_window_type(tag: &str) -> (r: Result<WindowType, TaperError>)
    ensures
        r == match spec_window_type_of_tag(tag.spec_bytes()) {
            Some(w) => Ok::<WindowType, TaperError>(w),
            None => Err::<WindowType, TaperError>(TaperError::UnknownWindowFamily),
        },
{
    let lowered: Vec<u8> = lower_ascii_bytes(tag.as_bytes());
    if bytes_eq(lowered.as_slice(), "linear".as_bytes()) {
        Ok(WindowType::Linear)
    } else if bytes_eq(lowered.as_slice(), "hann".as_bytes()) {
        Ok(WindowType::Hann)
    } else if bytes_eq(lowered.as_slice(), "cos".as_bytes()) {
        Ok(WindowType::Cosine)
    } else if bytes_eq(lowered.as_slice(), "cosine".as_bytes()) {
        Ok(WindowType::Cosine)
    } else if bytes_eq(lowered.as_slice(), "blackman".as_bytes()) {
        Ok(WindowType::Blackman)
    } else {
        Err(TaperError::UnknownWindowFamily)
    }
}

} // verus!
