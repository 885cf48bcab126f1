//! Errors that constructors report.
use vstd::prelude::*;
use vstd::string::StringExecFns;

verus! {

/// Errors that can occur within the library.
#[derive(Debug)]
pub enum TAError {
    /// Invalid size for a capacity, length or period.
    InvalidSize(String),
    /// The data provided cannot seed the indicator.
    InvalidData(String),
    /// A pair of indexes, start and end, that is not valid.
    InvalidIndex(usize, usize),
    /// A line that is not valid.
    InvalidLine(String),
}

/// The character that stands for a decimal digit.
pub open spec fn digit_char(d: nat) -> char
    recommends
        d < 10,
{
    if d == 0 {
        '0'
    } else if d == 1 {
        '1'
    } else if d == 2 {
        '2'
    } else if d == 3 {
        '3'
    } else if d == 4 {
        '4'
    } else if d == 5 {
        '5'
    } else if d == 6 {
        '6'
    } else if d == 7 {
        '7'
    } else if d == 8 {
        '8'
    } else {
        '9'
    }
}

/// The decimal numeral of `n`, without leading zeros.
pub open spec fn decimal_text(n: nat) -> Seq<char>
    decreases n,
{
    if n < 10 {
        seq![digit_char(n)]
    } else {
        decimal_text(n / 10).push(digit_char(n % 10))
    }
}

/// The one-character string of a decimal digit.
fn digit_str(d: usize) -> (s: &'static str)
    requires
        d < 10,
    ensures
        s@ == seq![digit_char(d as nat)],
{
    proof {
        reveal_strlit("0");
        reveal_strlit("1");
        reveal_strlit("2");
        reveal_strlit("3");
        reveal_strlit("4");
        reveal_strlit("5");
        reveal_strlit("6");
        reveal_strlit("7");
        reveal_strlit("8");
        reveal_strlit("9");
    }
    let s: &'static str = if d == 0 {
        "0"
    } else if d == 1 {
        "1"
    } else if d == 2 {
        "2"
    } else if d == 3 {
        "3"
    } else if d == 4 {
        "4"
    } else if d == 5 {
        "5"
    } else if d == 6 {
        "6"
    } else if d == 7 {
        "7"
    } else if d == 8 {
        "8"
    } else {
        "9"
    };
    assert(s@ =~= seq![digit_char(d as nat)]);
    s
}

/// Writes `n` as a decimal numeral.
pub fn decimal(n: usize) -> (s: String)
    ensures
        s@ == decimal_text(n as nat),
    decreases n,
{
    if n < 10 {
        String::from_str(digit_str(n))
    } else {
        let mut s: String = decimal(n / 10);
        s.append(digit_str(n % 10));
        assert(s@ =~= decimal_text((n / 10) as nat).push(digit_char((n % 10) as nat)));
        s
    }
}

impl TAError {
    /// The text that describes the error.
    pub open spec fn text(&self) -> Seq<char> {
        match self {
            TAError::InvalidSize(text) => "invalid size, "@ + text@,
            TAError::InvalidData(text) => "invalid data, "@ + text@,
            TAError::InvalidIndex(start, end) => "invalid indexes, start: "@ + decimal_text(
                *start as nat,
            ) + " and end: "@ + decimal_text(*end as nat),
            TAError::InvalidLine(text) => "invalid line, "@ + text@,
        }
    }

    /// Describes the error in words.
    pub fn message(&self) -> (r: String)
        ensures
            r@ == self.text(),
    {
        match self {
            TAError::InvalidSize(text) => String::from_str("invalid size, ").concat(text.as_str()),
            TAError::InvalidData(text) => String::from_str("invalid data, ").concat(text.as_str()),
            TAError::InvalidIndex(start, end) => {
                let mut r: String = String::from_str("invalid indexes, start: ");
                let first: String = decimal(*start);
                r.append(first.as_str());
                r.append(" and end: ");
                let second: String = decimal(*end);
                r.append(second.as_str());
                r
            },
            TAError::InvalidLine(text) => String::from_str("invalid line, ").concat(text.as_str()),
        }
    }

    /// An [`TAError::InvalidSize`] with the given text.
    pub fn size(text: &str) -> (e: TAError)
        ensures
            e matches TAError::InvalidSize(s) && s@ == text@,
    {
        TAError::InvalidSize(String::from_str(text))
    }

    /// An [`TAError::InvalidData`] with the given text.
    pub fn data(text: &str) -> (e: TAError)
        ensures
            e matches TAError::InvalidData(s) && s@ == text@,
    {
        TAError::InvalidData(String::from_str(text))
    }
}

} // verus!
