//! The error model of the codec: a closed classification of every failure a
//! (de)serialization operation can produce, an owning error handle, and the
//! result alias that every fallible operation of the codec returns.

use vstd::prelude::*;
use vstd::string::StringExecFns;

verus! {

/// The byte-stream reader/writer reports faults as `std::io::Error`; the
/// codec carries such a fault through unchanged inside [`ErrorKind::Io`].
/// The value is opaque here: the codec never inspects it, it only stores
/// and renders it.
#[verifier::external_type_specification]
#[verifier::external_body]
pub struct ExIoError(std::io::Error);

/// UTF-8 validation failures are reported as `core::str::Utf8Error`; the
/// codec carries such a failure through unchanged inside
/// [`ErrorKind::InvalidUtf8Encoding`].
#[verifier::external_type_specification]
#[verifier::external_body]
pub struct ExUtf8Error(core::str::Utf8Error);

/// The result of a serialization or deserialization operation.
pub type Result<T> = core::result::Result<T, Error>;

/// An error that can be produced during (de)serializing: an owning,
/// heap-allocated handle wrapping exactly one [`ErrorKind`].
pub type Error = Box<ErrorKind>;

/// The kind of error that can be produced during a serialization or
/// deserialization: a closed union, handled exhaustively at every
/// consumption site.
#[derive(Debug)]
pub enum ErrorKind {
    /// The byte-stream reader/writer used during (de)serialization
    /// reported a fault; that fault is stored and returned here.
    Io(std::io::Error),
    /// The deserializer attempted to deserialize a string that is not
    /// valid UTF-8.
    InvalidUtf8Encoding(core::str::Utf8Error),
    /// The deserializer attempted to deserialize a bool that was encoded
    /// as neither a 0 nor a 1; the raw byte is carried.
    InvalidBoolEncoding(u8),
    /// The deserializer attempted to deserialize a char that is not in
    /// the correct format.
    InvalidCharEncoding,
    /// The deserializer attempted to deserialize the tag of an enum that
    /// is not in the expected range; the raw tag is carried.
    InvalidTagEncoding(usize),
    /// A format-agnostic "deserialize any type" request was made, which
    /// this codec cannot satisfy.
    DeserializeAnyNotSupported,
    /// (De)serializing a message exceeded the configured size limit.
    SizeLimit,
    /// An attempt was made to encode a sequence whose length is not known
    /// ahead of encoding (such as an iterator).
    SequenceMustHaveLength,
    /// A custom error message raised by the generic serialization
    /// framework.
    Custom(String),
}

/// The short, per-category description of each failure kind, coarser than
/// the full rendered message: every [`ErrorKind::Io`] failure shares one
/// description, whatever the underlying fault.
pub open spec fn spec_description(k: ErrorKind) -> Seq<char> {
    match k {
        ErrorKind::Io(_) => "io error"@,
        ErrorKind::InvalidUtf8Encoding(_) => "string is not valid utf8"@,
        ErrorKind::InvalidBoolEncoding(_) => "invalid u8 while decoding bool"@,
        ErrorKind::InvalidCharEncoding => "char is not valid"@,
        ErrorKind::InvalidTagEncoding(_) => "tag for enum is not valid"@,
        ErrorKind::SequenceMustHaveLength => (
            "Bincode can only encode sequences and maps that have a knowable size ahead of time"@
        ),
        ErrorKind::DeserializeAnyNotSupported => (
            "Bincode doesn't support serde::Deserializer::deserialize_any"@
        ),
        ErrorKind::SizeLimit => "the size limit has been reached"@,
        ErrorKind::Custom(msg) => msg@,
    }
}

impl ErrorKind {
    /// The short description of this failure's category.
    pub fn description(&self) -> (r: &str)
        ensures
            r@ == spec_description(*self),
    {
        match self {
            ErrorKind::Io(_) => "io error",
            ErrorKind::InvalidUtf8Encoding(_) => "string is not valid utf8",
            ErrorKind::InvalidBoolEncoding(_) => "invalid u8 while decoding bool",
            ErrorKind::InvalidCharEncoding => "char is not valid",
            ErrorKind::InvalidTagEncoding(_) => "tag for enum is not valid",
            ErrorKind::SequenceMustHaveLength => {
                "Bincode can only encode sequences and maps that have a knowable size ahead of time"
            },
            ErrorKind::DeserializeAnyNotSupported => {
                "Bincode doesn't support serde::Deserializer::deserialize_any"
            },
            ErrorKind::SizeLimit => "the size limit has been reached",
            ErrorKind::Custom(msg) => msg.as_str(),
        }
    }

    /// The underlying cause of this failure, in the sense of the host
    /// environment's error-chaining contract. Every kind reports no
    /// further cause — even `Io`, although it does wrap a distinct
    /// underlying fault; the codec deliberately does not expose it as a
    /// chained cause.
    pub fn cause(&self) -> (r: Option<&std::io::Error>)
        ensures
            r is None,
    {
        match self {
            ErrorKind::Io(_) => None,
            ErrorKind::InvalidUtf8Encoding(_) => None,
            ErrorKind::InvalidBoolEncoding(_) => None,
            ErrorKind::InvalidCharEncoding => None,
            ErrorKind::InvalidTagEncoding(_) => None,
            ErrorKind::SequenceMustHaveLength => None,
            ErrorKind::DeserializeAnyNotSupported => None,
            ErrorKind::SizeLimit => None,
            ErrorKind::Custom(_) => None,
        }
    }
}

impl From<std::io::Error> for Error {
    /// Wraps a fault of the byte-stream reader/writer: the implicit, total
    /// conversion every layer of the codec applies when propagating I/O
    /// failures. The fault is carried through unchanged.
    fn from(err: std::io::Error) -> (r: Error)
        ensures
            *r == ErrorKind::Io(err),
    {
        Box::new(ErrorKind::Io(err))
    }
}

// A spec function cannot build the boxed handle, so the conversion's
// contract stands on `from` itself; nothing is claimed through `from_spec`.
impl vstd::std_specs::convert::FromSpecImpl<std::io::Error> for Error {
    open spec fn obeys_from_spec() -> bool {
        false
    }

    open spec fn from_spec(err: std::io::Error) -> Error {
        arbitrary()
    }
}

/// Relies on the `Display` impl of `std::io::Error` for the fault's own
/// text. A fault that carries a raw OS error code is rendered by the host,
/// so nothing is promised of the text; [`render_io_message`] takes it as an
/// argument and is verified for every value of it.
#[verifier::external_body]
fn io_error_string(e: &std::io::Error) -> (r: String) {
    format!("{}", e)
}

/// Renders a byte-stream fault's own text as the codec's full `Io`
/// message: the fixed prefix followed by that text, exactly.
pub fn render_io_message(text: &str) -> (r: String)
    ensures
        r@ == "io error: "@ + text@,
{
    let mut s = String::from_str("io error: ");
    s.append(text);
    s
}

/// The text that the host environment's display contract renders for a
/// UTF-8 validation failure; it depends on the failure value alone.
pub uninterp spec fn utf8_error_text(e: core::str::Utf8Error) -> Seq<char>;

/// Relies on the `Display` impl of `core::str::Utf8Error`: the rendered
/// text is a function of the error value alone.
#[verifier::external_body]
fn utf8_error_string(e: &core::str::Utf8Error) -> (r: String)
    ensures
        r@ == utf8_error_text(*e),
{
    format!("{}", e)
}

/// The character for the decimal digit `d`.
pub open spec fn spec_digit(d: nat) -> char
    recommends
        d < 10,
{
    if d == 0 {
        '0'
    } else if d == 1 {
        '1'
    } else if d == 2 {
        '2'
    } else if d == 3 {
        '3'
    } else if d == 4 {
        '4'
    } else if d == 5 {
        '5'
    } else if d == 6 {
        '6'
    } else if d == 7 {
        '7'
    } else if d == 8 {
        '8'
    } else {
        '9'
    }
}

/// The decimal rendering of `n`, most significant digit first, with no
/// leading zero except for `n == 0` itself.
pub open spec fn spec_decimal(n: nat) -> Seq<char>
    decreases n,
{
    if n < 10 {
        seq![spec_digit(n)]
    } else {
        spec_decimal(n / 10).push(spec_digit(n % 10))
    }
}

/// The one-character string for the decimal digit `d`.
fn digit_str(d: u64) -> (r: &'static str)
    requires
        d < 10,
    ensures
        r@ == seq![spec_digit(d as nat)],
{
    proof {
        reveal_strlit("0");
        reveal_strlit("1");
        reveal_strlit("2");
        reveal_strlit("3");
        reveal_strlit("4");
        reveal_strlit("5");
        reveal_strlit("6");
        reveal_strlit("7");
        reveal_strlit("8");
        reveal_strlit("9");
    }
    let r: &'static str = if d == 0 {
        "0"
    } else if d == 1 {
        "1"
    } else if d == 2 {
        "2"
    } else if d == 3 {
        "3"
    } else if d == 4 {
        "4"
    } else if d == 5 {
        "5"
    } else if d == 6 {
        "6"
    } else if d == 7 {
        "7"
    } else if d == 8 {
        "8"
    } else {
        "9"
    };
    proof {
        assert(r@ =~= seq![spec_digit(d as nat)]);
    }
    r
}

/// Appends the decimal rendering of `n` to `s`.
fn push_decimal(s: &mut String, n: u64)
    ensures
        final(s)@ == old(s)@ + spec_decimal(n as nat),
    decreases n,
{
    let ghost prefix = s@;
    if n >= 10 {
        push_decimal(s, n / 10);
    }
    let d = digit_str(n % 10);
    s.append(d);
    proof {
        assert(s@ =~= prefix + spec_decimal(n as nat));
    }
}

/// The full human-readable message rendered for every failure kind but
/// `Io`: a stable, descriptive text, finer-grained than
/// [`spec_description`]. An `Io` message is the fixed prefix of
/// [`render_io_message`] followed by the fault's own text, which only the
/// host environment can produce.
pub open spec fn spec_render(k: ErrorKind) -> Seq<char>
    recommends
        !(k is Io),
{
    match k {
        ErrorKind::Io(_) => arbitrary(),
        ErrorKind::InvalidUtf8Encoding(e) => "string is not valid utf8: "@ + utf8_error_text(e),
        ErrorKind::InvalidBoolEncoding(b) => (
            "invalid u8 while decoding bool, expected 0 or 1, found "@ + spec_decimal(b as nat)
        ),
        ErrorKind::InvalidCharEncoding => "char is not valid"@,
        ErrorKind::InvalidTagEncoding(tag) => "tag for enum is not valid: "@ + spec_decimal(
            tag as nat,
        ),
        ErrorKind::SequenceMustHaveLength => "sequence must have length"@,
        ErrorKind::SizeLimit => "the size limit has been reached"@,
        ErrorKind::DeserializeAnyNotSupported => (
            "Bincode does not support the serde::Deserializer::deserialize_any method"@
        ),
        ErrorKind::Custom(msg) => msg@,
    }
}

impl ErrorKind {
    /// Renders this failure as its full human-readable message. For every
    /// kind but `Io` the text is fixed by [`spec_render`]; an `Io` message
    /// carries the prefix of [`render_io_message`] and then the fault's own
    /// text.
    pub fn render(&self) -> (r: String)
        ensures
            !(*self is Io) ==> r@ == spec_render(*self),
            *self is Io ==> exists|t: Seq<char>| r@ == "io error: "@ + t,
    {
        match self {
            ErrorKind::Io(e) => {
                let t = io_error_string(e);
                let s = render_io_message(t.as_str());
                proof {
                    assert(s@ == "io error: "@ + t@);
                }
                s
            },
            ErrorKind::InvalidUtf8Encoding(e) => {
                let mut s = String::from_str("string is not valid utf8: ");
                let t = utf8_error_string(e);
                s.append(t.as_str());
                s
            },
            ErrorKind::InvalidBoolEncoding(b) => {
                let mut s = String::from_str(
                    "invalid u8 while decoding bool, expected 0 or 1, found ",
                );
                push_decimal(&mut s, *b as u64);
                s
            },
            ErrorKind::InvalidCharEncoding => String::from_str("char is not valid"),
            ErrorKind::InvalidTagEncoding(tag) => {
                let mut s = String::from_str("tag for enum is not valid: ");
                push_decimal(&mut s, *tag as u64);
                s
            },
            ErrorKind::SequenceMustHaveLength => String::from_str("sequence must have length"),
            ErrorKind::SizeLimit => String::from_str("the size limit has been reached"),
            ErrorKind::DeserializeAnyNotSupported => String::from_str(
                "Bincode does not support the serde::Deserializer::deserialize_any method",
            ),
            ErrorKind::Custom(msg) => msg.clone(),
        }
    }

    /// Builds the custom error the generic serialization framework raises
    /// from an arbitrary displayable message; the rendered text of the
    /// resulting error is exactly that message.
    pub fn custom(msg: String) -> (r: Error)
        ensures
            *r == ErrorKind::Custom(msg),
            spec_render(*r) == msg@,
    {
        Box::new(ErrorKind::Custom(msg))
    }
}

} // verus!
