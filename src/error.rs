use vstd::prelude::*;

verus! {

/// Why a payload could not be turned into a record.
#[derive(Debug, Clone)]
#[allow(inconsistent_fields)]
pub enum DecodeError {
    MissingField { field: String },
    TypeMismatch { field: String, expected: String, actual: String },
    InvalidNumber { field: String, raw: String },
    InvalidEnum { field: String, raw: String },
    ArityMismatch { expected: usize, actual: usize },
    InvalidDateFormat { expected: usize, actual: usize },
}

/// A decode error with its texts as character sequences.
#[allow(inconsistent_fields)]
pub enum DecodeErrorModel {
    MissingField { field: Seq<char> },
    TypeMismatch { field: Seq<char>, expected: Seq<char>, actual: Seq<char> },
    InvalidNumber { field: Seq<char>, raw: Seq<char> },
    InvalidEnum { field: Seq<char>, raw: Seq<char> },
    ArityMismatch { expected: nat, actual: nat },
    InvalidDateFormat { expected: nat, actual: nat },
}

impl View for DecodeError {
    type V = DecodeErrorModel;

    open spec fn view(&self) -> DecodeErrorModel {
        match self {
            DecodeError::MissingField { field } => DecodeErrorModel::MissingField { field: field@ },
            DecodeError::TypeMismatch { field, expected, actual } => DecodeErrorModel::TypeMismatch {
                field: field@,
                expected: expected@,
                actual: actual@,
            },
            DecodeError::InvalidNumber { field, raw } => DecodeErrorModel::InvalidNumber {
                field: field@,
                raw: raw@,
            },
            DecodeError::InvalidEnum { field, raw } => DecodeErrorModel::InvalidEnum {
                field: field@,
                raw: raw@,
            },
            DecodeError::ArityMismatch { expected, actual } => DecodeErrorModel::ArityMismatch {
                expected: *expected as nat,
                actual: *actual as nat,
            },
            DecodeError::InvalidDateFormat { expected, actual } => DecodeErrorModel::InvalidDateFormat {
                expected: *expected as nat,
                actual: *actual as nat,
            },
        }
    }
}

/// A decode result with both outcomes seen through their views.
pub open spec fn view_result<T: View>(r: Result<T, DecodeError>) -> Result<T::V, DecodeErrorModel> {
    match r {
        Ok(t) => Ok(t@),
        Err(e) => Err(e@),
    }
}

/// A failed response: the exchange refused the call, the reply was not a
/// well-formed envelope, or its payload did not decode.
#[derive(Debug, Clone)]
pub enum ApiError {
    Rejected { code: String },
    MalformedEnvelope,
    Decode(DecodeError),
}

/// An API error with its texts as character sequences.
pub enum ApiErrorModel {
    Rejected { code: Seq<char> },
    MalformedEnvelope,
    Decode(DecodeErrorModel),
}

impl View for ApiError {
    type V = ApiErrorModel;

    open spec fn view(&self) -> ApiErrorModel {
        match self {
            ApiError::Rejected { code } => ApiErrorModel::Rejected { code: code@ },
            ApiError::MalformedEnvelope => ApiErrorModel::MalformedEnvelope,
            ApiError::Decode(e) => ApiErrorModel::Decode(e@),
        }
    }
}

/// An API result with both outcomes seen through their views.
pub open spec fn view_api_result<T: View>(r: Result<T, ApiError>) -> Result<T::V, ApiErrorModel> {
    match r {
        Ok(t) => Ok(t@),
        Err(e) => Err(e@),
    }
}

} // verus!
