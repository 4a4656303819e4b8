//! Errors: the mapping from LibRaw's integer error codes to [`Error`] and the
//! text that each error displays.
use vstd::prelude::*;
use std::fmt::Write;
use vstd::string::StringExecFns;

verus! {

/// An error reported by LibRaw or by this binding.
#[derive(Debug)]
pub enum Error {
    OutOfMemory,
    UnsupportedFormat,
    Io(String),
    DataError,
    UnsupportedFeature(String),
    Cancelled,
    CallbackError,
    BadParams(String),
    NoThumbnail,
    UnsupportedThumbnail,
    InputClosed,
    NotImplemented,
    OutOfOrderCall,
    BadCrop,
    TooBig,
    MempoolOverflow,
    Unknown { code: i32, msg: String },
}

/// The result type of the binding.
pub type Result<T> = std::result::Result<T, Error>;

/// `e` is the error that LibRaw's error `code` stands for, where `msg` is
/// LibRaw's own description of that code (used by the variants that carry a text).
pub open spec fn is_error_for_code(e: Error, code: i32, msg: Seq<char>) -> bool {
    if code == -1 || code == -3 || code == -9 {
        e matches Error::UnsupportedFeature(m) && m@ == msg
    } else if code == -2 {
        e is UnsupportedFormat
    } else if code == -4 {
        e is OutOfOrderCall
    } else if code == -5 {
        e is NoThumbnail
    } else if code == -6 {
        e is UnsupportedThumbnail
    } else if code == -7 {
        e is InputClosed
    } else if code == -8 {
        e is NotImplemented
    } else if code == -100007 {
        e is OutOfMemory
    } else if code == -100008 {
        e is DataError
    } else if code == -100009 {
        e matches Error::Io(m) && m@ == msg
    } else if code == -100010 {
        e is Cancelled
    } else if code == -100011 {
        e is BadCrop
    } else if code == -100012 {
        e is TooBig
    } else if code == -100013 {
        e is MempoolOverflow
    } else {
        e matches Error::Unknown { code: c, msg: m } && c == code && m@ == msg
    }
}

/// The character of the decimal digit `d` (`0 <= d < 10`).
pub open spec fn digit_char(d: int) -> char {
    (48 + d) as char
}

/// The decimal digits of `n`, most significant first, without leading zeros.
pub open spec fn digits(n: nat) -> Seq<char>
    decreases n,
{
    if n < 10 {
        seq![digit_char(n as int)]
    } else {
        digits(n / 10) + seq![digit_char((n % 10) as int)]
    }
}

/// The decimal text of `n`, as `Display` writes an integer.
pub open spec fn decimal(n: int) -> Seq<char> {
    if n < 0 {
        seq!['-'] + digits((-n) as nat)
    } else {
        digits(n as nat)
    }
}

impl Error {
    /// The text that the error displays.
    pub open spec fn display_text(self) -> Seq<char> {
        match self {
            Error::OutOfMemory => "Out of memory"@,
            Error::UnsupportedFormat => "Unsupported file format"@,
            Error::Io(m) => "I/O error: "@ + m@,
            Error::DataError => "Corrupted data"@,
            Error::UnsupportedFeature(m) => "Unsupported feature: "@ + m@,
            Error::Cancelled => "Processing cancelled by callback"@,
            Error::CallbackError => "Callback error"@,
            Error::BadParams(m) => "Bad parameters: "@ + m@,
            Error::NoThumbnail => "No thumbnail available"@,
            Error::UnsupportedThumbnail => "Unsupported thumbnail format"@,
            Error::InputClosed => "Input closed"@,
            Error::NotImplemented => "Not implemented"@,
            Error::OutOfOrderCall => "Out of order call — check processing pipeline order"@,
            Error::BadCrop => "Bad crop parameters"@,
            Error::TooBig => "File too large to process"@,
            Error::MempoolOverflow => "Memory pool overflow"@,
            Error::Unknown { code, msg } => "LibRaw error "@ + decimal(code as int) + ": "@ + msg@,
        }
    }

    /// Maps a nonzero LibRaw error code to its error; `msg` is LibRaw's
    /// description of the code, kept by the variants that carry a text.
    pub fn from_raw(code: i32, msg: String) -> (e: Error)
        requires
            code != 0,
        ensures
            is_error_for_code(e, code, msg@),
    {
        match code {
            -1 => Error::UnsupportedFeature(msg),
            -2 => Error::UnsupportedFormat,
            -3 => Error::UnsupportedFeature(msg),
            -4 => Error::OutOfOrderCall,
            -5 => Error::NoThumbnail,
            -6 => Error::UnsupportedThumbnail,
            -7 => Error::InputClosed,
            -8 => Error::NotImplemented,
            -9 => Error::UnsupportedFeature(msg),
            -100007 => Error::OutOfMemory,
            -100008 => Error::DataError,
            -100009 => Error::Io(msg),
            -100010 => Error::Cancelled,
            -100011 => Error::BadCrop,
            -100012 => Error::TooBig,
            -100013 => Error::MempoolOverflow,
            _ => Error::Unknown { code, msg },
        }
    }

    /// Turns the status that a LibRaw call returned into a result: zero is
    /// success, any other code the error it stands for.
    pub fn check(code: i32, msg: String) -> (r: Result<()>)
        ensures
            r is Ok <==> code == 0,
            r matches Err(e) ==> is_error_for_code(e, code, msg@),
    {
        if code == 0 {
            Ok(())
        } else {
            Err(Error::from_raw(code, msg))
        }
    }

    /// The error for a path that holds a NUL byte and so cannot be passed to LibRaw.
    pub fn nul_in_path() -> (e: Error)
        ensures
            e matches Error::BadParams(m) && m@ == "path contains null byte"@,
    {
        Error::BadParams(String::from_str("path contains null byte"))
    }

    /// The text that the error displays.
    pub fn message(&self) -> (s: String)
        ensures
            s@ == self.display_text(),
    {
        match self {
            Error::OutOfMemory => String::from_str("Out of memory"),
            Error::UnsupportedFormat => String::from_str("Unsupported file format"),
            Error::Io(m) => String::from_str("I/O error: ").concat(m.as_str()),
            Error::DataError => String::from_str("Corrupted data"),
            Error::UnsupportedFeature(m) => String::from_str("Unsupported feature: ").concat(
                m.as_str(),
            ),
            Error::Cancelled => String::from_str("Processing cancelled by callback"),
            Error::CallbackError => String::from_str("Callback error"),
            Error::BadParams(m) => String::from_str("Bad parameters: ").concat(m.as_str()),
            Error::NoThumbnail => String::from_str("No thumbnail available"),
            Error::UnsupportedThumbnail => String::from_str("Unsupported thumbnail format"),
            Error::InputClosed => String::from_str("Input closed"),
            Error::NotImplemented => String::from_str("Not implemented"),
            Error::OutOfOrderCall => String::from_str(
                "Out of order call — check processing pipeline order",
            ),
            Error::BadCrop => String::from_str("Bad crop parameters"),
            Error::TooBig => String::from_str("File too large to process"),
            Error::MempoolOverflow => String::from_str("Memory pool overflow"),
            Error::Unknown { code, msg } => {
                let mut s = String::from_str("LibRaw error ");
                append_decimal(&mut s, *code);
                s.append(": ");
                s.append(msg.as_str());
                s
            },
        }
    }
}

/// Declares `std::io::Error` so that an I/O failure can be turned into an [`Error`].
#[verifier::external_type_specification]
#[verifier::external_body]
pub struct ExIoError(std::io::Error);

/// `std::io::Error`'s `Display` text, written into a `String` with `write!`.
/// A formatting failure of a custom inner error is ignored (the text written
/// until then is kept) instead of panicking as `to_string` would. For an error
/// that the operating system reported, the text is the system's message,
/// which depends on the platform and its locale, so nothing is stated of it.
#[verifier::external_body]
fn io_error_text(e: &std::io::Error) -> String {
    let mut s = String::new();
    let _ = write!(s, "{}", e);
    s
}

impl From<std::io::Error> for Error {
    /// An I/O failure becomes [`Error::Io`] with the failure's text.
    fn from(e: std::io::Error) -> (r: Error)
        ensures
            r is Io,
    {
        Error::Io(io_error_text(&e))
    }
}

impl vstd::std_specs::convert::FromSpecImpl<std::io::Error> for Error {
    /// The text of an I/O failure is not a function of the value alone (see
    /// `io_error_text`), so no exact result is promised through this trait;
    /// `from` itself states that the result is [`Error::Io`].
    open spec fn obeys_from_spec() -> bool {
        false
    }

    open spec fn from_spec(v: std::io::Error) -> Error {
        arbitrary()
    }
}

/// The one-character text of the decimal digit `d`.
fn digit_text(d: u32) -> (s: &'static str)
    requires
        d < 10,
    ensures
        s@ == seq![digit_char(d as int)],
{
    proof {
        reveal_strlit("0");
        reveal_strlit("1");
        reveal_strlit("2");
        reveal_strlit("3");
        reveal_strlit("4");
        reveal_strlit("5");
        reveal_strlit("6");
        reveal_strlit("7");
        reveal_strlit("8");
        reveal_strlit("9");
    }
    let s = if d == 0 {
        "0"
    } else if d == 1 {
        "1"
    } else if d == 2 {
        "2"
    } else if d == 3 {
        "3"
    } else if d == 4 {
        "4"
    } else if d == 5 {
        "5"
    } else if d == 6 {
        "6"
    } else if d == 7 {
        "7"
    } else if d == 8 {
        "8"
    } else {
        "9"
    };
    assert(s@ =~= seq![digit_char(d as int)]);
    s
}

/// Appends the decimal digits of `n`.
fn append_digits(s: &mut String, n: u32)
    ensures
        final(s)@ == old(s)@ + digits(n as nat),
    decreases n,
{
    if n >= 10 {
        append_digits(s, n / 10);
    }
    s.append(digit_text(n % 10));
    assert(s@ =~= old(s)@ + digits(n as nat));
}

/// Appends the decimal text of `n`.
fn append_decimal(s: &mut String, n: i32)
    ensures
        final(s)@ == old(s)@ + decimal(n as int),
{
    if n < 0 {
        proof {
            reveal_strlit("-");
        }
        s.append("-");
        let wide: i64 = n as i64;
        let magnitude: u32 = (-wide) as u32;
        append_digits(s, magnitude);
        assert(s@ =~= old(s)@ + decimal(n as int));
    } else {
        append_digits(s, n as u32);
    }
}

} // verus!
