use vstd::prelude::*;
use vstd::slice::slice_subrange;
use crate::error::Error;
use crate::text::{bytes_of, lemma_ascii_head, text_of, uppercase, uppercase_of};

verus! {

/// How many leading bytes of the platform's compatible string name the host:
/// a manufacturer, a comma and a model, as in `apple,j314`.
pub const HOST_ID_LEN: usize = 10;

/// Where the model begins in the host's name: behind `apple` and the comma.
pub const MODEL_START: usize = 6;

/// The manufacturer whose hosts carry the controller: `"apple"`.
pub open spec fn manufacturer() -> Seq<u8> {
    seq![0x61u8, 0x70u8, 0x70u8, 0x6cu8, 0x65u8]
}

/// The comma between manufacturer and model.
pub const SEPARATOR: u8 = 0x2c;

/// `b` in upper case, if it is an ASCII letter, and else `b` itself.
pub open spec fn upper(b: u8) -> u8 {
    if 0x61 <= b <= 0x7a {
        (b - 0x20) as u8
    } else {
        b
    }
}

/// Whether all of `bytes` are ASCII.
pub open spec fn is_ascii_bytes(bytes: Seq<u8>) -> bool {
    forall|i: int| 0 <= i < bytes.len() ==> #[trigger] bytes[i] < 0x80
}

/// Whether `compat` names a host that is recognised: its first
/// [`HOST_ID_LEN`] bytes are there and are valid UTF-8, and they read
/// `apple`, a comma, and a model.
pub open spec fn host_recognised(compat: Seq<u8>) -> bool {
    &&& compat.len() >= HOST_ID_LEN
    &&& vstd::utf8::valid_utf8(compat.subrange(0, HOST_ID_LEN as int))
    &&& compat.subrange(0, 5) == manufacturer()
    &&& compat[5] == SEPARATOR
}

/// The model in the host's name.
pub open spec fn model_of(compat: Seq<u8>) -> Seq<u8> {
    compat.subrange(MODEL_START as int, HOST_ID_LEN as int)
}

/// The unlock code for `model`, given the model's text in upper case as
/// `raised`: for a model of ASCII characters, each of them in upper case;
/// for any other, the bytes of `raised`.
pub open spec fn code_from(model: Seq<u8>, raised: Seq<char>) -> Seq<u8> {
    if is_ascii_bytes(model) {
        Seq::new(model.len(), |i: int| upper(model[i]))
    } else {
        vstd::utf8::encode_utf8(raised)
    }
}

/// The unlock code of a recognised host: its model in upper case.
pub open spec fn unlock_code_of(compat: Seq<u8>) -> Seq<u8> {
    code_from(model_of(compat), uppercase_of(vstd::utf8::decode_utf8(model_of(compat))))
}

/// A model of ASCII characters in upper case; nothing for a model that
/// holds any other byte.
pub fn ascii_upper(model: &[u8]) -> (r: Option<Vec<u8>>)
    ensures
        is_ascii_bytes(model@) ==> r is Some && r.unwrap()@ == Seq::new(
            model@.len(),
            |i: int| upper(model@[i]),
        ),
        !is_ascii_bytes(model@) ==> r is None,
{
    let n: usize = model.len();
    let mut code: Vec<u8> = Vec::new();
    let mut k: usize = 0;
    while k < n
        invariant
            n == model@.len(),
            k <= n,
            code@.len() == k,
            forall|j: int| 0 <= j < k ==> #[trigger] model@[j] < 0x80,
            forall|j: int| 0 <= j < k ==> #[trigger] code@[j] == upper(model@[j]),
        decreases n - k,
    {
        let b: u8 = model[k];
        if b >= 0x80 {
            return None;
        }
        if 0x61 <= b && b <= 0x7a {
            code.push(b - 0x20);
        } else {
            code.push(b);
        }
        k = k + 1;
    }
    assert(code@ =~= Seq::new(model@.len(), |i: int| upper(model@[i])));
    Some(code)
}

/// The unlock code for `model`, given the model's text in upper case:
/// [`code_from`].
pub fn code_of(model: &[u8], raised: &str) -> (code: Vec<u8>)
    ensures
        code@ == code_from(model@, raised@),
{
    match ascii_upper(model) {
        Some(code) => code,
        None => bytes_of(raised),
    }
}

/// Derives the unlock code from the platform's compatible string.
///
/// Succeeds exactly for a recognised host; any other is refused with
/// `PreconditionFailed`.
pub fn unlock_code(compat: &[u8]) -> (r: Result<Vec<u8>, Error>)
    ensures
        host_recognised(compat@) ==> r.is_ok() && r.unwrap()@ == unlock_code_of(compat@),
        !host_recognised(compat@) ==> r == Err::<Vec<u8>, Error>(Error::PreconditionFailed),
{
    if compat.len() < HOST_ID_LEN {
        return Err(Error::PreconditionFailed);
    }
    let named: bool = compat[0] == 0x61 && compat[1] == 0x70 && compat[2] == 0x70 && compat[3]
        == 0x6c && compat[4] == 0x65 && compat[5] == SEPARATOR;
    proof {
        let head: Seq<u8> = compat@.subrange(0, 5);
        let want: Seq<u8> = manufacturer();
        assert(head[0] == compat@[0] && head[1] == compat@[1] && head[2] == compat@[2] && head[3]
            == compat@[3] && head[4] == compat@[4]);
        assert(want[0] == 0x61 && want[1] == 0x70 && want[2] == 0x70 && want[3] == 0x6c && want[4]
            == 0x65);
        if named {
            assert(head =~= want);
        }
    }
    if !named {
        return Err(Error::PreconditionFailed);
    }
    let model: &[u8] = slice_subrange(compat, MODEL_START, HOST_ID_LEN);
    proof {
        // Behind six ASCII characters, the name is valid exactly if the
        // model is.
        let id: Seq<u8> = compat@.subrange(0, HOST_ID_LEN as int);
        lemma_ascii_head(id, MODEL_START as int);
        assert(id.subrange(MODEL_START as int, id.len() as int) =~= model@);
        assert(model@ == model_of(compat@));
        if is_ascii_bytes(model@) {
            lemma_ascii_head(model@, model@.len() as int);
            let end: int = model@.len() as int;
            assert(model@.subrange(end, end) =~= Seq::<u8>::empty());
        }
    }
    match ascii_upper(model) {
        Some(code) => Ok(code),
        None => match text_of(model) {
            None => Err(Error::PreconditionFailed),
            Some(text) => {
                proof {
                    vstd::utf8::encode_utf8_decode_utf8(text@);
                }
                let raised: String = uppercase(text);
                Ok(code_of(model, raised.as_str()))
            },
        },
    }
}

} // verus!
