use crate::marker::decimal;
use vstd::prelude::*;
use vstd::string::*;

verus! {

/// Declares `std::io::Error` to the verifier: an opaque value carried through.
#[verifier::external_type_specification]
#[verifier::external_body]
pub struct ExIoError(std::io::Error);

/// Why a migration did not complete.
#[derive(Debug)]
pub enum Error {
    /// The operator did not type the agreement sentence.
    Cancelled,
    /// The version marker is missing, unreadable or not a decimal number.
    UnknownDatabaseVersion(String),
    /// The version marker names a layout that this tool does not know.
    UnsupportedDatabaseVersion(u32),
    /// The store or the file system failed.
    Io(std::io::Error),
}

/// Decimal text of `v` as characters.
pub open spec fn decimal_chars(v: nat) -> Seq<char> {
    decimal(v).map_values(|b: u8| b as char)
}

/// The message for each kind of failure.
pub open spec fn spec_message(e: Error) -> Seq<char> {
    match e {
        Error::Cancelled => "Migration cancelled."@,
        Error::UnknownDatabaseVersion(_) => "Current database version cannot be read. Check if folder exists."@,
        Error::UnsupportedDatabaseVersion(v) => "Current database version `"@ + decimal_chars(v as nat)
            + "` is not supported"@,
        Error::Io(_) => "Unexpected io error on DB migration"@,
    }
}

/// The one-character text of decimal digit `d`.
fn digit_str(d: u32) -> (r: &'static str)
    requires
        d < 10,
    ensures
        r@ == seq![((48 + d) as u8) as char],
{
    proof {
        reveal_strlit("0");
        reveal_strlit("1");
        reveal_strlit("2");
        reveal_strlit("3");
        reveal_strlit("4");
        reveal_strlit("5");
        reveal_strlit("6");
        reveal_strlit("7");
        reveal_strlit("8");
        reveal_strlit("9");
    }
    match d {
        0 => "0",
        1 => "1",
        2 => "2",
        3 => "3",
        4 => "4",
        5 => "5",
        6 => "6",
        7 => "7",
        8 => "8",
        _ => "9",
    }
}

/// Appends the decimal text of `v` to `out`.
fn append_decimal(v: u32, out: &mut String)
    ensures
        final(out)@ == old(out)@ + decimal_chars(v as nat),
    decreases v,
{
    if v >= 10 {
        append_decimal(v / 10, out);
    }
    out.append(digit_str(v % 10));
    proof {
        if v < 10 {
            assert(decimal_chars(v as nat) =~= seq![((48 + v) as u8) as char]);
        } else {
            assert(decimal(v as nat) == decimal((v / 10) as nat).push((48 + v % 10) as u8));
            assert(decimal_chars(v as nat) =~= decimal_chars((v / 10) as nat).push(
                ((48 + v % 10) as u8) as char,
            ));
        }
    }
    assert(final(out)@ =~= old(out)@ + decimal_chars(v as nat));
}

impl Error {
    /// A human-readable message for each kind of failure; an unsupported
    /// version is named in its message.
    pub fn message(&self) -> (r: String)
        ensures
            r@ == spec_message(*self),
    {
        match self {
            Error::Cancelled => "Migration cancelled.".to_owned(),
            Error::UnknownDatabaseVersion(_) => {
                "Current database version cannot be read. Check if folder exists.".to_owned()
            },
            Error::UnsupportedDatabaseVersion(v) => {
                let mut out = String::from_str("Current database version `");
                append_decimal(*v, &mut out);
                out.append("` is not supported");
                out
            },
            Error::Io(_) => "Unexpected io error on DB migration".to_owned(),
        }
    }
}

} // verus!
