//! What can be wrong with an answer of the MyStudio service.

use vstd::prelude::*;
use vstd::string::StringExecFns;

verus! {

/// What is wrong with an answer of the service.
#[derive(Debug)]
pub enum ApiError {
    /// The service refused the request and said why.
    InvalidRequest { message: String, url: String },
    /// A field that the answer must have is missing or is no text.
    MissingField { field: String, url: String },
    /// A field of the answer holds a value that is not known.
    UnrecognizedValue { field: String, value: String, url: String },
}

/// The text of an `ApiError` value.
pub enum ApiErrorView {
    InvalidRequest { message: Seq<char>, url: Seq<char> },
    MissingField { field: Seq<char>, url: Seq<char> },
    UnrecognizedValue { field: Seq<char>, value: Seq<char>, url: Seq<char> },
}

impl View for ApiError {
    type V = ApiErrorView;

    open spec fn view(&self) -> ApiErrorView {
        match self {
            ApiError::InvalidRequest { message, url } => ApiErrorView::InvalidRequest {
                message: message@,
                url: url@,
            },
            ApiError::MissingField { field, url } => ApiErrorView::MissingField {
                field: field@,
                url: url@,
            },
            ApiError::UnrecognizedValue { field, value, url } => ApiErrorView::UnrecognizedValue {
                field: field@,
                value: value@,
                url: url@,
            },
        }
    }
}

/// The message that goes with an error.
pub open spec fn message_of(error: ApiErrorView) -> Seq<char> {
    match error {
        ApiErrorView::InvalidRequest { message, url } => "'"@ + message
            + "' received from call to "@ + url + "."@,
        ApiErrorView::MissingField { field, url } => "Missing or invalid field '"@ + field
            + "' in response from call to "@ + url + "."@,
        ApiErrorView::UnrecognizedValue { field, value, url } => "Unrecognized value '"@ + value
            + "' for field '"@ + field + "' in response from call to "@ + url + "."@,
    }
}

impl ApiError {
    /// The message that goes with this error.
    pub fn message(&self) -> (text: String)
        ensures
            text@ == message_of(self@),
    {
        match self {
            ApiError::InvalidRequest { message, url } => {
                let mut text = "'".to_owned();
                text.append(message.as_str());
                text.append("' received from call to ");
                text.append(url.as_str());
                text.append(".");
                text
            },
            ApiError::MissingField { field, url } => {
                let mut text = "Missing or invalid field '".to_owned();
                text.append(field.as_str());
                text.append("' in response from call to ");
                text.append(url.as_str());
                text.append(".");
                text
            },
            ApiError::UnrecognizedValue { field, value, url } => {
                let mut text = "Unrecognized value '".to_owned();
                text.append(value.as_str());
                text.append("' for field '");
                text.append(field.as_str());
                text.append("' in response from call to ");
                text.append(url.as_str());
                text.append(".");
                text
            },
        }
    }
}

} // verus!
