//! Failures of the GraphQL surface.
//!
//! A failure travels as an `async_graphql::Error`: a message, and under the
//! extension `code` the machine-readable code of its kind. This module makes
//! such errors and reads them back into the shape that both surfaces share.

use async_graphql::Value;
use vstd::prelude::*;
use crate::models::common::{opt_text, ErrorResponse, ErrorResponseView};

verus! {

/// Kinds of failure that a resolver reports.
#[derive(Debug, Clone, Copy, PartialEq, Eq, Structural)]
pub enum GraphQLErrorType {
    /// The resource does not exist.
    NotFound,
    /// An argument was refused.
    Validation,
    /// The caller is not known.
    Unauthorized,
    /// The caller may not do this.
    Forbidden,
    /// The server failed.
    Internal,
}

impl GraphQLErrorType {
    /// The machine-readable code of this kind.
    pub open spec fn code_text(self) -> Seq<char> {
        match self {
            GraphQLErrorType::NotFound => "NOT_FOUND"@,
            GraphQLErrorType::Validation => "VALIDATION_ERROR"@,
            GraphQLErrorType::Unauthorized => "UNAUTHORIZED"@,
            GraphQLErrorType::Forbidden => "FORBIDDEN"@,
            GraphQLErrorType::Internal => "INTERNAL_SERVER_ERROR"@,
        }
    }

    /// The machine-readable code of this kind.
    pub fn code(&self) -> (r: &'static str)
        ensures
            r@ == self.code_text(),
    {
        match self {
            GraphQLErrorType::NotFound => "NOT_FOUND",
            GraphQLErrorType::Validation => "VALIDATION_ERROR",
            GraphQLErrorType::Unauthorized => "UNAUTHORIZED",
            GraphQLErrorType::Forbidden => "FORBIDDEN",
            GraphQLErrorType::Internal => "INTERNAL_SERVER_ERROR",
        }
    }
}

/// `async_graphql::Error`, carried through as an opaque value.
#[verifier::external_type_specification]
#[verifier::external_body]
pub struct ExError(async_graphql::Error);

/// The message of an error: the text of its field `message`.
pub uninterp spec fn error_message(error: async_graphql::Error) -> Seq<char>;

/// A value held under an extension of an error, as far as this library
/// reads it: a text or a truth value with what it holds, any other value by
/// its kind alone.
#[derive(Debug, Clone, PartialEq, Eq)]
pub enum ExtensionValue {
    /// `null`.
    Null,
    /// A number.
    Number,
    /// A string, with its text.
    Text(String),
    /// A truth value.
    Boolean(bool),
    /// Binary data.
    Binary,
    /// An enumeration value.
    Enum,
    /// A list of values.
    List,
    /// An object.
    Object,
}

/// Mathematical content of an [`ExtensionValue`].
pub enum ExtensionKind {
    Null,
    Number,
    Text(Seq<char>),
    Boolean(bool),
    Binary,
    Enum,
    List,
    Object,
}

impl View for ExtensionValue {
    type V = ExtensionKind;

    open spec fn view(&self) -> ExtensionKind {
        match self {
            ExtensionValue::Null => ExtensionKind::Null,
            ExtensionValue::Number => ExtensionKind::Number,
            ExtensionValue::Text(s) => ExtensionKind::Text(s@),
            ExtensionValue::Boolean(b) => ExtensionKind::Boolean(*b),
            ExtensionValue::Binary => ExtensionKind::Binary,
            ExtensionValue::Enum => ExtensionKind::Enum,
            ExtensionValue::List => ExtensionKind::List,
            ExtensionValue::Object => ExtensionKind::Object,
        }
    }
}

/// Mathematical content of an optional extension value.
pub open spec fn opt_kind(v: Option<ExtensionValue>) -> Option<ExtensionKind> {
    match v {
        Some(v) => Some(v@),
        None => None,
    }
}

/// The extensions of an error: each name under which the error holds a
/// value, with that value read as an [`ExtensionKind`]. Empty for an error
/// without extensions.
pub uninterp spec fn error_extensions(error: async_graphql::Error) -> Map<Seq<char>, ExtensionKind>;

/// The value that an error holds under the extension `name`, if any.
pub open spec fn error_extension(
    error: async_graphql::Error,
    name: Seq<char>,
) -> Option<ExtensionKind> {
    if error_extensions(error).dom().contains(name) {
        Some(error_extensions(error)[name])
    } else {
        None
    }
}

/// The text of an optional extension value: what a string holds. Nothing
/// for a missing value, and nothing for a value of any other kind.
pub open spec fn text_of(v: Option<ExtensionKind>) -> Option<Seq<char>> {
    match v {
        Some(ExtensionKind::Text(s)) => Some(s),
        _ => None,
    }
}

/// The text that an error holds under the extension `name`: a value there
/// that is not a string counts as absent.
pub open spec fn error_text(error: async_graphql::Error, name: Seq<char>) -> Option<Seq<char>> {
    text_of(error_extension(error, name))
}

/// Copies the field `message` out of an `async_graphql::Error`.
#[verifier::external_body]
fn message_of(error: &async_graphql::Error) -> (message: String)
    ensures
        message@ == error_message(*error),
{
    error.message.clone()
}

/// Reads one extension out of an `async_graphql::Error`.
///
/// Looks `key` up with `ErrorExtensionValues::get` in the field
/// `extensions` and hands the value found over as an [`ExtensionValue`],
/// variant for variant: the entry of [`error_extensions`] under `key`, if
/// there is one.
#[verifier::external_body]
fn extension_of(error: &async_graphql::Error, key: &str) -> (v: Option<ExtensionValue>)
    ensures
        opt_kind(v) == error_extension(*error, key@),
{
    let extensions = error.extensions.as_ref()?;
    Some(match extensions.get(key)? {
        Value::Null => ExtensionValue::Null,
        Value::Number(_) => ExtensionValue::Number,
        Value::String(s) => ExtensionValue::Text(s.clone()),
        Value::Boolean(b) => ExtensionValue::Boolean(*b),
        Value::Binary(_) => ExtensionValue::Binary,
        Value::Enum(_) => ExtensionValue::Enum,
        Value::List(_) => ExtensionValue::List,
        Value::Object(_) => ExtensionValue::Object,
    })
}

/// Makes an `async_graphql::Error` with one string extension.
///
/// Builds the error with `Error::new(message)`, which sets the message and
/// leaves source and extensions empty, then stores a fresh
/// `ErrorExtensionValues` in which `ErrorExtensionValues::set` has put
/// `text`, as a `Value::String`, under `name`. The contract claims that the
/// message reads back as given and that this one text is all that the
/// extensions hold.
#[verifier::external_body]
fn error_with_extension(message: &str, name: &str, text: &str) -> (error: async_graphql::Error)
    ensures
        error_message(error) == message@,
        error_extensions(error) == map![name@ => ExtensionKind::Text(text@)],
{
    let mut extensions = async_graphql::ErrorExtensionValues::default();
    extensions.set(name, text);
    let mut error = async_graphql::Error::new(message);
    error.extensions = Some(extensions);
    error
}

/// Name of the extension that holds the code of a failure.
pub open spec fn code_key() -> Seq<char> {
    "code"@
}

/// Name of the extension that holds further detail of a failure.
pub open spec fn details_key() -> Seq<char> {
    "details"@
}

/// Code reported for an error that carries none.
pub open spec fn unknown_code() -> Seq<char> {
    "UNKNOWN_ERROR"@
}

/// `error` is the failure of kind `kind` with message `message`: it has
/// that message, the code of the kind under the extension `code`, and no
/// other text in its extensions.
pub open spec fn is_failure(
    error: async_graphql::Error,
    kind: GraphQLErrorType,
    message: Seq<char>,
) -> bool {
    &&& error_message(error) == message
    &&& error_extensions(error) == map![
        code_key() => ExtensionKind::Text(kind.code_text()),
    ]
}

/// `r` failed, and its error is the failure of kind `kind` with message
/// `message`.
pub open spec fn fails_with<T>(
    r: Result<T, async_graphql::Error>,
    kind: GraphQLErrorType,
    message: Seq<char>,
) -> bool {
    r matches Err(e) && is_failure(e, kind, message)
}

/// The shared failure shape for what was read out of an error: the code,
/// or `UNKNOWN_ERROR` without one; the message; and the detail, if any.
pub open spec fn error_response_from(
    code: Option<Seq<char>>,
    message: Seq<char>,
    details: Option<Seq<char>>,
) -> ErrorResponseView {
    ErrorResponseView {
        code: match code {
            Some(code) => code,
            None => unknown_code(),
        },
        message,
        details,
    }
}

/// What [`to_error_response`] makes of an error: [`error_response_from`]
/// applied to the text under the extension `code`, the message, and the
/// text under the extension `details`.
pub open spec fn error_response_of(error: async_graphql::Error) -> ErrorResponseView {
    error_response_from(
        error_text(error, code_key()),
        error_message(error),
        error_text(error, details_key()),
    )
}

/// Makes the failure of kind `kind` with message `message`.
pub fn graphql_error(kind: GraphQLErrorType, message: &str) -> (error: async_graphql::Error)
    ensures
        is_failure(error, kind, message@),
{
    error_with_extension(message, "code", kind.code())
}

/// Puts what was read out of an error into the shape that both surfaces
/// share. A missing code becomes `UNKNOWN_ERROR`.
pub fn error_response_from_parts(
    code: Option<String>,
    message: String,
    details: Option<String>,
) -> (r: ErrorResponse)
    ensures
        r@ == error_response_from(opt_text(code), message@, opt_text(details)),
{
    let code = match code {
        Some(code) => code,
        None => "UNKNOWN_ERROR".to_string(),
    };
    ErrorResponse { code, message, details }
}

/// Picks the text out of an optional extension value: the text of a string;
/// nothing for a missing value or a value of any other kind.
pub fn text_of_extension(v: Option<ExtensionValue>) -> (text: Option<String>)
    ensures
        opt_text(text) == text_of(opt_kind(v)),
{
    match v {
        Some(ExtensionValue::Text(s)) => Some(s),
        _ => None,
    }
}

/// Reads the text that an error holds under the extension `key`.
fn extract_string_extension(error: &async_graphql::Error, key: &str) -> (text: Option<String>)
    ensures
        opt_text(text) == error_text(*error, key@),
{
    text_of_extension(extension_of(error, key))
}

/// Reads an error into the shape that both surfaces share.
pub fn to_error_response(error: &async_graphql::Error) -> (r: ErrorResponse)
    ensures
        r@ == error_response_of(*error),
{
    let code = extract_string_extension(error, "code");
    let details = extract_string_extension(error, "details");
    error_response_from_parts(code, message_of(error), details)
}

/// A failure made of a kind and a message reads back as the code of that
/// kind, that message and no detail.
pub proof fn lemma_failure_reads_back(
    error: async_graphql::Error,
    kind: GraphQLErrorType,
    message: Seq<char>,
)
    requires
        is_failure(error, kind, message),
    ensures
        error_response_of(error) == error_response_from(Some(kind.code_text()), message, None),
{
    reveal_strlit("code");
    reveal_strlit("details");
    assert(code_key().len() != details_key().len());
}

/// An error whose extension `code` holds anything but a string reads back
/// with the code `UNKNOWN_ERROR`, as an error without that extension does;
/// likewise a value under `details` that is no string gives no detail.
pub proof fn lemma_only_text_is_read(error: async_graphql::Error)
    ensures
        !(error_extension(error, code_key()) matches Some(ExtensionKind::Text(_)))
            ==> error_response_of(error).code == unknown_code(),
        !(error_extension(error, details_key()) matches Some(ExtensionKind::Text(_)))
            ==> error_response_of(error).details is None,
{
}

} // verus!
