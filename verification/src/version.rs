//! Versions of the database and of the native library.
use crate::structs::ODPIVersionInfo;
use vstd::prelude::*;
use vstd::string::*;

verus! {

/// The character of the digit `d`.
pub open spec fn digit_char(d: int) -> char {
    if d == 0 {
        '0'
    } else if d == 1 {
        '1'
    } else if d == 2 {
        '2'
    } else if d == 3 {
        '3'
    } else if d == 4 {
        '4'
    } else if d == 5 {
        '5'
    } else if d == 6 {
        '6'
    } else if d == 7 {
        '7'
    } else if d == 8 {
        '8'
    } else {
        '9'
    }
}

/// The number `n` in decimal digits, without leading zeros.
pub open spec fn decimal_text(n: nat) -> Seq<char>
    decreases n,
{
    if n < 10 {
        seq![digit_char(n as int)]
    } else {
        decimal_text(n / 10).push(digit_char((n % 10) as int))
    }
}

/// The five numbers of a version in decimal digits, with a dot between each two.
pub open spec fn version_text(v: ODPIVersionInfo) -> Seq<char> {
    decimal_text(v.version_num as nat) + seq!['.'] + decimal_text(v.release_num as nat) + seq![
        '.',
    ] + decimal_text(v.update_num as nat) + seq!['.'] + decimal_text(v.port_release_num as nat)
        + seq!['.'] + decimal_text(v.port_update_num as nat)
}

fn digit_text(d: u32) -> (s: &'static str)
    requires
        d < 10,
    ensures
        s@ == seq![digit_char(d as int)],
{
    proof {
        reveal_strlit("0");
        reveal_strlit("1");
        reveal_strlit("2");
        reveal_strlit("3");
        reveal_strlit("4");
        reveal_strlit("5");
        reveal_strlit("6");
        reveal_strlit("7");
        reveal_strlit("8");
        reveal_strlit("9");
    }
    let s = match d {
        0 => "0",
        1 => "1",
        2 => "2",
        3 => "3",
        4 => "4",
        5 => "5",
        6 => "6",
        7 => "7",
        8 => "8",
        _ => "9",
    };
    assert(s@ =~= seq![digit_char(d as int)]);
    s
}

/// The number `n` in decimal digits, without leading zeros.
pub fn decimal(n: u32) -> (s: String)
    ensures
        s@ == decimal_text(n as nat),
    decreases n,
{
    if n < 10 {
        digit_text(n).to_owned()
    } else {
        let mut s = decimal(n / 10);
        s.append(digit_text(n % 10));
        assert(s@ =~= decimal_text((n / 10) as nat).push(digit_char((n % 10) as int)));
        s
    }
}

/// What is known of a version: its numbers and, for a database, the text with which
/// the database names its release.
#[derive(Debug)]
pub struct Info {
    numbers: ODPIVersionInfo,
    release: Option<String>,
}

/// A version as a mathematical value.
pub struct InfoView {
    /// The numbers of the version.
    pub numbers: ODPIVersionInfo,
    /// The text with which the database names its release.
    pub release: Option<Seq<char>>,
}

impl View for Info {
    type V = InfoView;

    closed spec fn view(&self) -> InfoView {
        InfoView {
            numbers: self.numbers,
            release: match self.release {
                Some(r) => Some(r@),
                None => None,
            },
        }
    }
}

impl Info {
    /// The version with the numbers `numbers` and no text of the release.
    pub fn new(numbers: ODPIVersionInfo) -> (v: Info)
        ensures
            v@ == (InfoView { numbers, release: None }),
    {
        Info { numbers, release: None }
    }

    /// Sets the text with which the database names its release.
    pub fn set_release(&mut self, release: Option<String>)
        ensures
            final(self)@.numbers == old(self)@.numbers,
            release matches Some(r) ==> final(self)@.release == Some(r@),
            release is None ==> final(self)@.release is None,
    {
        self.release = release;
    }

    /// The version as text: its five numbers with a dot between each two.
    pub fn version(&self) -> (s: String)
        ensures
            s@ == version_text(self@.numbers),
    {
        proof {
            reveal_strlit(".");
        }
        let mut s = decimal(self.numbers.version_num);
        s.append(".");
        s.append(decimal(self.numbers.release_num).as_str());
        s.append(".");
        s.append(decimal(self.numbers.update_num).as_str());
        s.append(".");
        s.append(decimal(self.numbers.port_release_num).as_str());
        s.append(".");
        s.append(decimal(self.numbers.port_update_num).as_str());
        assert("."@ =~= seq!['.']);
        assert(s@ =~= version_text(self@.numbers));
        s
    }

    /// All five numbers of the version in one.
    pub fn version_num(&self) -> (r: u32)
        ensures
            r == self@.numbers.full_version_num,
    {
        self.numbers.full_version_num
    }

    /// The numbers of the version.
    pub fn numbers(&self) -> (r: ODPIVersionInfo)
        ensures
            r == self@.numbers,
    {
        self.numbers
    }

    /// The text with which the database names its release; empty where there is none.
    pub fn release(&self) -> (s: String)
        ensures
            self@.release matches Some(r) ==> s@ == r,
            self@.release is None ==> s@ == Seq::<char>::empty(),
    {
        match &self.release {
            Some(r) => r.clone(),
            None => String::new(),
        }
    }

    /// A copy of the version.
    pub fn duplicate(&self) -> (r: Info)
        ensures
            r@ == self@,
    {
        Info {
            numbers: self.numbers,
            release: match &self.release {
                Some(r) => Some(r.clone()),
                None => None,
            },
        }
    }
}

} // verus!
