use vstd::prelude::*;

verus! {

/// What `str::to_uppercase` makes of `text`. The mapping is Unicode's and
/// fills tables; nothing is said of it here but that it depends on the text
/// alone.
pub uninterp spec fn uppercase_of(text: Seq<char>) -> Seq<char>;

/// Whether `c` is white space as Unicode has it (the property
/// `White_Space`), which is what `str::trim` goes by.
pub open spec fn is_white_space(c: char) -> bool {
    let v: u32 = c as u32;
    ||| 0x09 <= v <= 0x0d
    ||| v == 0x20
    ||| v == 0x85
    ||| v == 0xa0
    ||| v == 0x1680
    ||| 0x2000 <= v <= 0x200a
    ||| v == 0x2028
    ||| v == 0x2029
    ||| v == 0x202f
    ||| v == 0x205f
    ||| v == 0x3000
}

/// `text` without the white space at its start.
pub open spec fn trim_start_of(text: Seq<char>) -> Seq<char>
    decreases text.len(),
{
    if text.len() > 0 && is_white_space(text[0]) {
        trim_start_of(text.drop_first())
    } else {
        text
    }
}

/// `text` without the white space at its end.
pub open spec fn trim_end_of(text: Seq<char>) -> Seq<char>
    decreases text.len(),
{
    if text.len() > 0 && is_white_space(text.last()) {
        trim_end_of(text.drop_last())
    } else {
        text
    }
}

/// `text` without the white space at its start and at its end.
pub open spec fn trimmed(text: Seq<char>) -> Seq<char> {
    trim_end_of(trim_start_of(text))
}

/// Calls `core::str::from_utf8` and drops the error's detail. Believed of
/// it: it succeeds exactly on bytes that are valid UTF-8, and the string it
/// gives then is the one that those bytes encode.
#[verifier::external_body]
pub(crate) fn text_of(bytes: &[u8]) -> (r: Option<&str>)
    ensures
        r is Some <==> vstd::utf8::valid_utf8(bytes@),
        r is Some ==> vstd::utf8::encode_utf8(r.unwrap()@) == bytes@,
{
    core::str::from_utf8(bytes).ok()
}

/// Calls `str::to_uppercase`. Believed of it: what it returns depends on the
/// text alone; that is all that [`uppercase_of`] says.
#[verifier::external_body]
pub(crate) fn uppercase(text: &str) -> (r: String)
    ensures
        r@ == uppercase_of(text@),
{
    text.to_uppercase()
}

/// Calls `str::trim`. Believed of it: it returns the text without its
/// leading and trailing white space, white space being the characters that
/// Unicode marks as such.
#[verifier::external_body]
pub(crate) fn trim(text: &str) -> (r: &str)
    ensures
        r@ == trimmed(text@),
{
    text.trim()
}

/// The bytes of `text`: its characters in UTF-8.
pub fn bytes_of(text: &str) -> (bytes: Vec<u8>)
    ensures
        bytes@ == vstd::utf8::encode_utf8(text@),
{
    let mut bytes: Vec<u8> = Vec::new();
    bytes.extend_from_slice(text.as_bytes());
    bytes
}

/// Bytes that begin with an ASCII character are valid UTF-8 exactly if the
/// bytes after it are.
pub proof fn lemma_ascii_first(bytes: Seq<u8>)
    requires
        bytes.len() > 0,
        bytes[0] < 0x80,
    ensures
        vstd::utf8::valid_utf8(bytes) <==> vstd::utf8::valid_utf8(
            bytes.subrange(1, bytes.len() as int),
        ),
{
    let b: u8 = bytes[0];
    assert((b & 0x7f) as u32 <= 0x7f) by (bit_vector);
    assert(vstd::utf8::valid_first_scalar(bytes));
    assert(vstd::utf8::pop_first_scalar(bytes) == bytes.subrange(1, bytes.len() as int));
}

/// Bytes that begin with `k` ASCII characters are valid UTF-8 exactly if the
/// bytes after those are.
pub proof fn lemma_ascii_head(bytes: Seq<u8>, k: int)
    requires
        0 <= k <= bytes.len(),
        forall|i: int| 0 <= i < k ==> bytes[i] < 0x80,
    ensures
        vstd::utf8::valid_utf8(bytes) <==> vstd::utf8::valid_utf8(
            bytes.subrange(k, bytes.len() as int),
        ),
    decreases k,
{
    if k == 0 {
        assert(bytes.subrange(0, bytes.len() as int) =~= bytes);
    } else {
        let tail = bytes.subrange(1, bytes.len() as int);
        lemma_ascii_first(bytes);
        assert forall|i: int| 0 <= i < k - 1 implies tail[i] < 0x80 by {
            assert(tail[i] == bytes[i + 1]);
        }
        lemma_ascii_head(tail, k - 1);
        assert(tail.subrange(k - 1, tail.len() as int) =~= bytes.subrange(k, bytes.len() as int));
    }
}

} // verus!
