//! Conversions from an `Option` into a `Result` carrying a small typed
//! error value.
//!
//! An absent optional becomes an [`Error`]: either a text message, a
//! signed error code, or an unsigned error code. The zero-argument
//! factories produce the fixed defaults (the message
//! `"Option is None."`, or the code `1`), and [`OptionToResult`] turns
//! any `Option<T>` into a `Result<T, Error>` with those defaults or with
//! an explicitly chosen error.

use vstd::prelude::*;

pub mod decimal;

verus! {

use crate::decimal::{dec_digits, int_dec, i32_to_dec, u32_to_dec};

/// The default error code used when an absent optional is converted
/// without an explicit error.
pub const ERROR_CODE_OPTION_IS_NONE: i32 = 1;

/// The message of the default error for an absent optional.
pub open spec fn option_is_none_msg() -> Seq<char> {
    "Option is None."@
}

/// The default error message for an absent optional, as an owned string.
pub fn str_option_is_none() -> (r: String)
    ensures
        r@ == option_is_none_msg(),
{
    String::from_str("Option is None.")
}

/// An error value as produced when an absent optional is converted into
/// a failed result: a signed code, an unsigned code, or a text message.
///
/// The set of variants is open for extension; consumers matching on an
/// `Error` must keep a fallback arm rather than assume exhaustiveness.
#[derive(Debug, Clone)]
#[non_exhaustive]
pub enum Error {
    IntegerError(i32),
    UnsignedError(u32),
    TextError(String),
}

/// The single-line rendering of an error: the payload's own text or
/// decimal rendering, with no added tag or quoting.
pub open spec fn render(e: Error) -> Seq<char> {
    match e {
        Error::IntegerError(n) => int_dec(n as int),
        Error::UnsignedError(u) => dec_digits(u as nat),
        Error::TextError(m) => m@,
    }
}

impl Error {
    /// Builds the text-message variant.
    pub fn text(message: String) -> (r: Error)
        ensures
            r == Error::TextError(message),
    {
        Error::TextError(message)
    }

    /// Builds the signed-code variant.
    pub fn integer(code: i32) -> (r: Error)
        ensures
            r == Error::IntegerError(code),
    {
        Error::IntegerError(code)
    }

    /// Builds the unsigned-code variant.
    pub fn unsigned(code: u32) -> (r: Error)
        ensures
            r == Error::UnsignedError(code),
    {
        Error::UnsignedError(code)
    }

    /// Builds an error from a message string: the general constructor,
    /// carrying its argument as the text variant.
    pub fn new(message: String) -> (r: Error)
        ensures
            r == Error::TextError(message),
    {
        Error::text(message)
    }

    /// The payload's own rendering: the message itself for a text error,
    /// the decimal digits for a numeric code.
    pub fn error_value(&self) -> (r: String)
        ensures
            r@ == render(*self),
    {
        match self {
            Error::TextError(m) => m.clone(),
            Error::IntegerError(n) => i32_to_dec(*n),
            Error::UnsignedError(u) => u32_to_dec(*u),
        }
    }

    /// The single-line display form; identical to the payload rendering
    /// of [`Error::error_value`].
    pub fn display(&self) -> (r: String)
        ensures
            r@ == render(*self),
    {
        self.error_value()
    }

    /// Extracts the signed code. Callers must know the variant: this is
    /// a last-resort unwrap, not a recoverable path — match on the
    /// variant instead where a mismatch is possible.
    pub fn into_integer(self) -> (r: i32)
        requires
            self is IntegerError,
        ensures
            r == self->IntegerError_0,
    {
        if let Error::IntegerError(n) = self {
            n
        } else {
            proof {
                assert(false);
            }
            0
        }
    }

    /// Extracts the unsigned code. Callers must know the variant, as
    /// with [`Error::into_integer`].
    pub fn into_unsigned(self) -> (r: u32)
        requires
            self is UnsignedError,
        ensures
            r == self->UnsignedError_0,
    {
        if let Error::UnsignedError(u) = self {
            u
        } else {
            proof {
                assert(false);
            }
            0
        }
    }

    /// Extracts the text message. Callers must know the variant, as
    /// with [`Error::into_integer`].
    pub fn into_text(self) -> (r: String)
        requires
            self is TextError,
        ensures
            r == self->TextError_0,
    {
        if let Error::TextError(m) = self {
            m
        } else {
            proof {
                assert(false);
            }
            String::new()
        }
    }
}

/// The default error for an absent optional: a text error carrying the
/// fixed message.
pub fn opt_is_none() -> (r: Error)
    ensures
        (r matches Error::TextError(m) && m@ == option_is_none_msg()),
{
    Error::TextError(str_option_is_none())
}

/// The default signed-code error for an absent optional: code `1`.
pub fn opt_is_none_i32() -> (r: Error)
    ensures
        r == Error::IntegerError(ERROR_CODE_OPTION_IS_NONE),
{
    Error::IntegerError(ERROR_CODE_OPTION_IS_NONE)
}

/// The default unsigned-code error for an absent optional: code `1`.
pub fn opt_is_none_u32() -> (r: Error)
    ensures
        r == Error::UnsignedError(ERROR_CODE_OPTION_IS_NONE as u32),
{
    Error::UnsignedError(1)
}

/// A describable error: a human-readable message, and an optional
/// underlying cause — always absent, since nothing here wraps another
/// error.
pub trait StdError {
    /// The message that [`StdError::message`] renders.
    spec fn description(&self) -> Seq<char>;

    /// The human-readable, single-line message.
    fn message(&self) -> (r: String)
        ensures
            r@ == self.description(),
    ;

    /// The underlying cause; never present.
    fn source(&self) -> (r: Option<Error>)
        ensures
            r is None,
    ;
}

impl StdError for Error {
    open spec fn description(&self) -> Seq<char> {
        render(*self)
    }

    fn message(&self) -> (r: String) {
        self.display()
    }

    fn source(&self) -> (r: Option<Error>) {
        None
    }
}

/// Conversion of an optional into a result, turning absence into an
/// [`Error`].
pub trait OptionToResult<T>: Sized {
    /// The optional value being converted.
    spec fn as_option(self) -> Option<T>;

    /// Success with the contained value when present; otherwise failure
    /// with the default text error, whose message is the fixed constant.
    fn ok_or_(self) -> (r: Result<T, Error>)
        ensures
            (self.as_option() matches Some(v) ==> (r matches Ok(rv) && rv == v)),
            (self.as_option() is None ==> (r matches Err(e) && e matches Error::TextError(m)
                && m@ == option_is_none_msg())),
    ;

    /// Success with the contained value when present; otherwise failure
    /// with exactly the given error, whatever its variant and payload.
    fn ok_or_err(self, err: Error) -> (r: Result<T, Error>)
        ensures
            (self.as_option() matches Some(v) ==> (r matches Ok(rv) && rv == v)),
            (self.as_option() is None ==> (r matches Err(e) && e == err)),
    ;
}

impl<T> OptionToResult<T> for Option<T> {
    open spec fn as_option(self) -> Option<T> {
        self
    }

    fn ok_or_(self) -> (r: Result<T, Error>) {
        match self {
            Some(v) => Ok(v),
            None => Err(opt_is_none()),
        }
    }

    fn ok_or_err(self, err: Error) -> (r: Result<T, Error>) {
        match self {
            Some(v) => Ok(v),
            None => Err(err),
        }
    }
}

/// Law: the display rendering of a text error is the message itself,
/// unchanged — no quoting and no type-name prefix is added.
pub proof fn lemma_display_text_transparent(s: String)
    ensures
        render(Error::TextError(s)) == s@,
{
}

/// Law: building an error and extracting the payload of its own variant
/// returns the original input, for each of the three payload kinds.
pub proof fn lemma_payload_round_trip(n: i32, u: u32, s: String)
    ensures
        Error::IntegerError(n)->IntegerError_0 == n,
        Error::UnsignedError(u)->UnsignedError_0 == u,
        Error::TextError(s)->TextError_0 == s,
{
}

} // verus!
