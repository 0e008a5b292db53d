//! The error taxonomy: what went wrong, how it is worded and which status it
//! is reported with.
use crate::text::{decimal, decimal_string};
use vstd::prelude::*;
use vstd::std_specs::convert::FromSpecImpl;
use vstd::string::*;

verus! {

/// `mongodb::error::Error`: a failure reported by the authoritative store's driver.
#[verifier::external_type_specification]
#[verifier::external_body]
pub struct ExMongoError(mongodb::error::Error);

/// `mongodb::bson::de::Error`: a stored document could not be decoded.
#[verifier::external_type_specification]
#[verifier::external_body]
pub struct ExBsonDeError(mongodb::bson::de::Error);

/// `mongodb::bson::ser::Error`: a record could not be encoded as a document.
#[verifier::external_type_specification]
#[verifier::external_body]
pub struct ExBsonSerError(mongodb::bson::ser::Error);

/// `mongodb::bson::oid::Error`: a text is not an object identifier.
#[verifier::external_type_specification]
#[verifier::external_body]
pub struct ExObjectIdError(mongodb::bson::oid::Error);

/// `redis::RedisError`: a failure reported by the auxiliary store's client.
#[verifier::external_type_specification]
#[verifier::external_body]
pub struct ExRedisError(redis::RedisError);

/// `serde_json::Error`: a cached snapshot could not be encoded or decoded.
#[verifier::external_type_specification]
#[verifier::external_body]
pub struct ExJsonError(serde_json::Error);

/// Everything that can go wrong while serving a request.
#[derive(Debug)]
pub enum CustomError {
    /// The authoritative store failed.
    MongoDbError(String),
    /// The auxiliary store failed.
    RedisError(String),
    /// The entity asked for does not exist.
    NotFound(String),
    /// The service itself is at fault.
    InternalError(String),
    /// The client sent `actual` requests where `max` are allowed.
    TooManyRequests { actual: u64, max: u64 },
}

/// The mathematical content of a [`CustomError`].
pub enum ErrorView {
    MongoDbError(Seq<char>),
    RedisError(Seq<char>),
    NotFound(Seq<char>),
    InternalError(Seq<char>),
    TooManyRequests { actual: u64, max: u64 },
}

impl View for CustomError {
    type V = ErrorView;

    open spec fn view(&self) -> ErrorView {
        match *self {
            CustomError::MongoDbError(detail) => ErrorView::MongoDbError(detail@),
            CustomError::RedisError(detail) => ErrorView::RedisError(detail@),
            CustomError::NotFound(detail) => ErrorView::NotFound(detail@),
            CustomError::InternalError(detail) => ErrorView::InternalError(detail@),
            CustomError::TooManyRequests { actual, max } => ErrorView::TooManyRequests {
                actual,
                max,
            },
        }
    }
}

/// Status reported for a failure of the service or of one of its stores.
pub const STATUS_INTERNAL_SERVER_ERROR: u16 = 500;

/// Status reported for an entity that does not exist.
pub const STATUS_NOT_FOUND: u16 = 404;

/// Status reported for a client over its quota.
pub const STATUS_TOO_MANY_REQUESTS: u16 = 429;

impl ErrorView {
    /// The status an error is reported with: not-found and over-quota are the
    /// client's, everything else is the server's.
    pub open spec fn status(self) -> u16 {
        match self {
            ErrorView::NotFound(_) => STATUS_NOT_FOUND,
            ErrorView::TooManyRequests { .. } => STATUS_TOO_MANY_REQUESTS,
            _ => STATUS_INTERNAL_SERVER_ERROR,
        }
    }

    /// The sentence an error is reported with.
    pub open spec fn message(self) -> Seq<char> {
        match self {
            ErrorView::MongoDbError(detail) => "MongoDB error: "@ + detail,
            ErrorView::RedisError(detail) => "Redis error: "@ + detail,
            ErrorView::NotFound(detail) => "Endpoint is not found: "@ + detail,
            ErrorView::InternalError(detail) => "Internal error: "@ + detail,
            ErrorView::TooManyRequests { actual, max } => "Too many requests: "@ + decimal(
                actual as nat,
            ) + " requests when "@ + decimal(max as nat) + " allowed"@,
        }
    }
}

impl CustomError {
    /// The status code of the response that reports this error.
    pub fn status_code(&self) -> (code: u16)
        ensures
            code == self@.status(),
    {
        match self {
            CustomError::MongoDbError(_) => STATUS_INTERNAL_SERVER_ERROR,
            CustomError::RedisError(_) => STATUS_INTERNAL_SERVER_ERROR,
            CustomError::NotFound(_) => STATUS_NOT_FOUND,
            CustomError::InternalError(_) => STATUS_INTERNAL_SERVER_ERROR,
            CustomError::TooManyRequests { .. } => STATUS_TOO_MANY_REQUESTS,
        }
    }

    /// The sentence that reports this error.
    pub fn to_string(&self) -> (text: String)
        ensures
            text@ == self@.message(),
    {
        match self {
            CustomError::MongoDbError(detail) => {
                "MongoDB error: ".to_owned().concat(detail.as_str())
            },
            CustomError::RedisError(detail) => "Redis error: ".to_owned().concat(detail.as_str()),
            CustomError::NotFound(detail) => {
                "Endpoint is not found: ".to_owned().concat(detail.as_str())
            },
            CustomError::InternalError(detail) => {
                "Internal error: ".to_owned().concat(detail.as_str())
            },
            CustomError::TooManyRequests { actual, max } => {
                let mut text = "Too many requests: ".to_owned();
                text.append(decimal_string(*actual).as_str());
                text.append(" requests when ");
                text.append(decimal_string(*max).as_str());
                text.append(" allowed");
                text
            },
        }
    }
}

impl Clone for CustomError {
    /// The copy is the same error with the same detail.
    fn clone(&self) -> (copy: Self)
        ensures
            copy@ == self@,
    {
        match self {
            CustomError::MongoDbError(detail) => CustomError::MongoDbError(detail.clone()),
            CustomError::RedisError(detail) => CustomError::RedisError(detail.clone()),
            CustomError::NotFound(detail) => CustomError::NotFound(detail.clone()),
            CustomError::InternalError(detail) => CustomError::InternalError(detail.clone()),
            CustomError::TooManyRequests { actual, max } => CustomError::TooManyRequests {
                actual: *actual,
                max: *max,
            },
        }
    }
}

/// Whether `detail` is what `source` prints as.
pub open spec fn is_display_of<T: core::fmt::Display>(source: &T, detail: Seq<char>) -> bool {
    exists|text: String| #[trigger]
        to_string_from_display_ensures::<T>(source, text) && text@ == detail
}

impl From<mongodb::error::Error> for CustomError {
    /// A failure of the store's driver is a store error that carries the
    /// driver's own wording.
    fn from(source: mongodb::error::Error) -> (error: Self)
        ensures
            error@ matches ErrorView::MongoDbError(detail) && is_display_of(&source, detail),
    {
        CustomError::MongoDbError(source.to_string())
    }
}

impl FromSpecImpl<mongodb::error::Error> for CustomError {
    open spec fn obeys_from_spec() -> bool {
        false
    }

    open spec fn from_spec(source: mongodb::error::Error) -> Self {
        arbitrary()
    }
}

impl From<mongodb::bson::de::Error> for CustomError {
    /// A stored document that cannot be decoded is a store error, in the
    /// decoder's own wording.
    fn from(source: mongodb::bson::de::Error) -> (error: Self)
        ensures
            error@ matches ErrorView::MongoDbError(detail) && is_display_of(&source, detail),
    {
        CustomError::MongoDbError(source.to_string())
    }
}

impl FromSpecImpl<mongodb::bson::de::Error> for CustomError {
    open spec fn obeys_from_spec() -> bool {
        false
    }

    open spec fn from_spec(source: mongodb::bson::de::Error) -> Self {
        arbitrary()
    }
}

impl From<mongodb::bson::ser::Error> for CustomError {
    /// A record that cannot be encoded for the store is a store error, in the
    /// encoder's own wording.
    fn from(source: mongodb::bson::ser::Error) -> (error: Self)
        ensures
            error@ matches ErrorView::MongoDbError(detail) && is_display_of(&source, detail),
    {
        CustomError::MongoDbError(source.to_string())
    }
}

impl FromSpecImpl<mongodb::bson::ser::Error> for CustomError {
    open spec fn obeys_from_spec() -> bool {
        false
    }

    open spec fn from_spec(source: mongodb::bson::ser::Error) -> Self {
        arbitrary()
    }
}

impl From<mongodb::bson::oid::Error> for CustomError {
    /// A text that is no object identifier names nothing: the entity is not
    /// found, and the detail says why the text was refused.
    fn from(source: mongodb::bson::oid::Error) -> (error: Self)
        ensures
            error@ matches ErrorView::NotFound(detail) && is_display_of(&source, detail),
    {
        CustomError::NotFound(source.to_string())
    }
}

impl FromSpecImpl<mongodb::bson::oid::Error> for CustomError {
    open spec fn obeys_from_spec() -> bool {
        false
    }

    open spec fn from_spec(source: mongodb::bson::oid::Error) -> Self {
        arbitrary()
    }
}

impl From<redis::RedisError> for CustomError {
    /// A failure of the auxiliary store's client is an auxiliary-store error,
    /// in the client's own wording.
    fn from(source: redis::RedisError) -> (error: Self)
        ensures
            error@ matches ErrorView::RedisError(detail) && is_display_of(&source, detail),
    {
        CustomError::RedisError(source.to_string())
    }
}

impl FromSpecImpl<redis::RedisError> for CustomError {
    open spec fn obeys_from_spec() -> bool {
        false
    }

    open spec fn from_spec(source: redis::RedisError) -> Self {
        arbitrary()
    }
}

impl From<serde_json::Error> for CustomError {
    /// A snapshot that cannot be encoded or decoded is an internal error, in
    /// the codec's own wording.
    fn from(source: serde_json::Error) -> (error: Self)
        ensures
            error@ matches ErrorView::InternalError(detail) && is_display_of(&source, detail),
    {
        CustomError::InternalError(source.to_string())
    }
}

impl FromSpecImpl<serde_json::Error> for CustomError {
    open spec fn obeys_from_spec() -> bool {
        false
    }

    open spec fn from_spec(source: serde_json::Error) -> Self {
        arbitrary()
    }
}

} // verus!
