//! Text as the native library exchanges it: a run of bytes, or no bytes at all.
use vstd::prelude::*;
use vstd::slice::slice_to_vec;
use vstd::string::*;
use vstd::utf8::*;

verus! {

/// The text that `String::from_utf8_lossy` makes of bytes that are no valid UTF-8.
pub uninterp spec fn lossy_text(bytes: Seq<u8>) -> Seq<char>;

/// The text that bytes are read as: the text they encode where they are valid UTF-8,
/// and otherwise that text with a replacement character for every invalid sequence.
pub open spec fn text_of(bytes: Seq<u8>) -> Seq<char> {
    if valid_utf8(bytes) {
        decode_utf8(bytes)
    } else {
        lossy_text(bytes)
    }
}

/// Calls `String::from_utf8_lossy` and takes the result as an owned string. The
/// contract claims what the documentation says: valid UTF-8 is decoded as it stands,
/// and the result for other bytes is a function of the bytes.
#[verifier::external_body]
pub(crate) fn string_from_utf8_lossy(bytes: &Vec<u8>) -> (s: String)
    ensures
        valid_utf8(bytes@) ==> s@ == decode_utf8(bytes@),
        !valid_utf8(bytes@) ==> s@ == lossy_text(bytes@),
{
    String::from_utf8_lossy(bytes).into_owned()
}

/// Reads bytes as text.
pub fn text_from_bytes(bytes: &Vec<u8>) -> (s: String)
    ensures
        s@ == text_of(bytes@),
{
    string_from_utf8_lossy(bytes)
}

/// The bytes that encode `s`.
pub fn bytes_from_text(s: &str) -> (bytes: Vec<u8>)
    ensures
        bytes@ == encode_utf8(s@),
        text_of(bytes@) == s@,
{
    proof {
        lemma_text_round_trip(s@);
    }
    s.as_bytes_vec()
}

/// Whether `a` and `b` are the same text.
pub fn same_text(a: &String, b: &str) -> (r: bool)
    ensures
        r == (a@ == b@),
{
    let owned = b.to_owned();
    *a == owned
}

/// A copy of `bytes`.
pub fn copy_bytes(bytes: &Vec<u8>) -> (copy: Vec<u8>)
    ensures
        copy@ == bytes@,
{
    slice_to_vec(bytes.as_slice())
}

/// Text that is written as bytes is read back unchanged.
pub proof fn lemma_text_round_trip(text: Seq<char>)
    ensures
        text_of(encode_utf8(text)) == text,
{
    encode_utf8_valid_utf8(text);
    encode_utf8_decode_utf8(text);
}

/// The text that a string of the native library is read as: the empty text for the
/// null pointer.
pub open spec fn optional_text(bytes: Option<Seq<u8>>) -> Seq<char> {
    match bytes {
        Some(b) => text_of(b),
        None => Seq::<char>::empty(),
    }
}

/// A string as the native library hands it over: a run of bytes with its length, or a
/// null pointer.
#[derive(Clone, Debug, PartialEq, Eq)]
pub struct ODPIStr {
    /// The bytes; `None` stands for the null pointer.
    bytes: Option<Vec<u8>>,
}

impl View for ODPIStr {
    type V = Option<Seq<u8>>;

    closed spec fn view(&self) -> Option<Seq<u8>> {
        match self.bytes {
            Some(b) => Some(b@),
            None => None,
        }
    }
}

impl ODPIStr {
    /// The text that the string is read as: the empty text for the null pointer.
    pub open spec fn text(&self) -> Seq<char> {
        optional_text(self@)
    }

    /// The string that holds `bytes`; `None` makes the null pointer.
    pub fn new(bytes: Option<Vec<u8>>) -> (s: ODPIStr)
        ensures
            bytes matches Some(b) ==> s@ == Some(b@),
            bytes is None ==> s@ == None::<Seq<u8>>,
    {
        ODPIStr { bytes }
    }

    /// The string that holds the bytes of `s`.
    pub fn from_text(s: &str) -> (r: ODPIStr)
        ensures
            r@ == Some(encode_utf8(s@)),
            r.text() == s@,
    {
        ODPIStr { bytes: Some(bytes_from_text(s)) }
    }

    /// The string that holds the bytes of `s`, or the null pointer where there is no
    /// text.
    pub fn from_optional_text(s: Option<&str>) -> (r: ODPIStr)
        ensures
            s matches Some(t) ==> r@ == Some(encode_utf8(t@)),
            s is None ==> r@ == None::<Seq<u8>>,
    {
        match s {
            Some(t) => ODPIStr::from_text(t),
            None => ODPIStr { bytes: None },
        }
    }

    /// The number of bytes; zero for the null pointer. `None` where the number does not
    /// fit the native library's 32-bit length.
    pub fn len(&self) -> (n: Option<u32>)
        ensures
            self@ matches Some(b) ==> (b.len() <= u32::MAX ==> n == Some(b.len() as u32)) && (
            b.len() > u32::MAX ==> n is None),
            self@ is None ==> n == Some(0u32),
    {
        match &self.bytes {
            Some(b) => {
                if b.len() <= u32::MAX as usize {
                    Some(b.len() as u32)
                } else {
                    None
                }
            },
            None => Some(0),
        }
    }

    /// Whether the string is the null pointer.
    pub fn is_null(&self) -> (r: bool)
        ensures
            r == (self@ is None),
    {
        self.bytes.is_none()
    }

    /// Whether the string is the null pointer or holds no byte.
    pub fn is_empty(&self) -> (r: bool)
        ensures
            r == (self@ matches Some(b) ==> b.len() == 0),
    {
        match &self.bytes {
            Some(b) => b.len() == 0,
            None => true,
        }
    }

    /// The string as text: empty for the null pointer, and with a replacement character
    /// for every sequence of bytes that is no valid UTF-8.
    pub fn into_string(&self) -> (s: String)
        ensures
            s@ == self.text(),
    {
        match &self.bytes {
            Some(b) => text_from_bytes(b),
            None => String::new(),
        }
    }
}

} // verus!
