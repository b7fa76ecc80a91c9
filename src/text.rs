//! Operations on source text addressed by byte offsets.
use vstd::prelude::*;
use vstd::string::StringSliceAdditionalSpecFns;

verus! {

broadcast use vstd::utf8::encode_utf8_decode_utf8, vstd::utf8::encode_utf8_valid_utf8;

/// The UTF-8 bytes of a character sequence.
pub open spec fn bytes_of(s: Seq<char>) -> Seq<u8> {
    vstd::utf8::encode_utf8(s)
}

/// The characters between byte offsets `start` and `end` of `src`, when both
/// offsets fall on character boundaries, `start` lies inside the text and
/// `end` does not pass its end.
pub open spec fn slice_text(src: Seq<char>, start: int, end: int) -> Option<Seq<char>> {
    let b = bytes_of(src);
    if 0 <= start < b.len() && start <= end <= b.len() && vstd::utf8::is_char_boundary(b, start)
        && vstd::utf8::is_char_boundary(b, end) {
        Some(vstd::utf8::decode_utf8(b.subrange(start, end)))
    } else {
        None
    }
}

/// Whether two strings hold the same characters.
pub fn same_text(a: &str, b: &str) -> (r: bool)
    ensures
        r == (a@ == b@),
{
    let x = a.as_bytes();
    let y = b.as_bytes();
    if x.len() != y.len() {
        return false;
    }
    let mut i: usize = 0;
    while i < x.len()
        invariant
            x@ == a.spec_bytes(),
            y@ == b.spec_bytes(),
            x@.len() == y@.len(),
            i <= x@.len(),
            forall|k: int| 0 <= k < i ==> x@[k] == y@[k],
        decreases x@.len() - i,
    {
        if x[i] != y[i] {
            return false;
        }
        i = i + 1;
    }
    assert(x@ =~= y@);
    assert(vstd::utf8::decode_utf8(bytes_of(a@)) == a@);
    true
}

/// The text of `src` between two byte offsets, if those offsets delimit
/// whole characters inside it.
pub fn text_between(src: &str, start: usize, end: usize) -> (r: Option<String>)
    ensures
        r matches Some(t) ==> slice_text(src@, start as int, end as int) == Some(t@),
        r is None ==> slice_text(src@, start as int, end as int) is None,
{
    let n = src.as_bytes().len();
    if !(start < n && start <= end && end <= n) {
        return None;
    }
    if !src.is_char_boundary(start) || !src.is_char_boundary(end) {
        return None;
    }
    let ghost b = src.spec_bytes();
    let (_, tail) = src.split_at(start);
    proof {
        vstd::utf8::valid_utf8_split(b, start as int);
        let tb = tail.spec_bytes();
        assert(tb =~= b.subrange(start as int, b.len() as int));
        let k = (end - start) as int;
        if k < tb.len() {
            vstd::utf8::is_char_boundary_iff_not_is_continuation_byte(b, end as int);
            vstd::utf8::is_char_boundary_iff_not_is_continuation_byte(tb, k);
        } else {
            vstd::utf8::is_char_boundary_start_end_of_seq(tb);
        }
    }
    let (mid, _) = tail.split_at(end - start);
    proof {
        assert(mid.spec_bytes() =~= b.subrange(start as int, end as int));
        assert(vstd::utf8::decode_utf8(bytes_of(mid@)) == mid@);
    }
    Some(mid.to_owned())
}

} // verus!
