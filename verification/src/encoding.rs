//! The encodings of the character data of a connection.
use vstd::prelude::*;
use vstd::string::*;

verus! {

/// The encodings of a connection as a mathematical value.
pub struct InfoView {
    /// The name of the encoding of character data.
    pub encoding: Seq<char>,
    /// The most bytes that a character of that encoding takes.
    pub max_bytes_per_char: u32,
    /// The name of the encoding of national character data.
    pub nchar_encoding: Seq<char>,
    /// The most bytes that a character of that encoding takes.
    pub max_bytes_per_nchar: u32,
}

/// The encodings of the character data of a connection.
#[derive(Debug)]
pub struct Info {
    encoding: String,
    max_bytes_per_char: u32,
    nchar_encoding: String,
    max_bytes_per_nchar: u32,
}

impl View for Info {
    type V = InfoView;

    closed spec fn view(&self) -> InfoView {
        InfoView {
            encoding: self.encoding@,
            max_bytes_per_char: self.max_bytes_per_char,
            nchar_encoding: self.nchar_encoding@,
            max_bytes_per_nchar: self.max_bytes_per_nchar,
        }
    }
}

impl Info {
    /// The encodings `encoding` and `nchar_encoding`, whose characters take at most
    /// `max_bytes_per_char` and `max_bytes_per_nchar` bytes.
    pub fn new(
        encoding: &str,
        max_bytes_per_char: u32,
        nchar_encoding: &str,
        max_bytes_per_nchar: u32,
    ) -> (r: Info)
        ensures
            r@ == (InfoView {
                encoding: encoding@,
                max_bytes_per_char,
                nchar_encoding: nchar_encoding@,
                max_bytes_per_nchar,
            }),
    {
        Info {
            encoding: encoding.to_owned(),
            max_bytes_per_char,
            nchar_encoding: nchar_encoding.to_owned(),
            max_bytes_per_nchar,
        }
    }

    /// The name of the encoding of character data.
    pub fn encoding(&self) -> (r: String)
        ensures
            r@ == self@.encoding,
    {
        self.encoding.clone()
    }

    /// The name of the encoding of national character data.
    pub fn nchar_encoding(&self) -> (r: String)
        ensures
            r@ == self@.nchar_encoding,
    {
        self.nchar_encoding.clone()
    }

    /// The most bytes that a character takes.
    pub fn max_bytes_per_char(&self) -> (r: u32)
        ensures
            r == self@.max_bytes_per_char,
    {
        self.max_bytes_per_char
    }

    /// The most bytes that a national character takes.
    pub fn max_bytes_per_nchar(&self) -> (r: u32)
        ensures
            r == self@.max_bytes_per_nchar,
    {
        self.max_bytes_per_nchar
    }

    /// A copy of the encodings.
    pub fn duplicate(&self) -> (r: Info)
        ensures
            r@ == self@,
    {
        Info {
            encoding: self.encoding.clone(),
            max_bytes_per_char: self.max_bytes_per_char,
            nchar_encoding: self.nchar_encoding.clone(),
            max_bytes_per_nchar: self.max_bytes_per_nchar,
        }
    }
}

} // verus!
