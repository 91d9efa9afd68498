//! Signing in to the MyStudio service: what is asked of the service and how
//! its answer is read.

pub mod error;

use crate::config::MyStudio;
use crate::my_studio::error::{ApiError, ApiErrorView};
use crate::text::same_text;
use serde_json::Value;
use vstd::prelude::*;

verus! {

/// A JSON value, `serde_json::Value`.
#[verifier::external_type_specification]
#[verifier::external_body]
pub struct ExValue(Value);

/// The members of the JSON object `value` that hold text, each under its
/// name. A value that is no object has none.
pub uninterp spec fn text_members(value: Value) -> Map<Seq<char>, Seq<char>>;

/// Looks up the member `name` of `response` by indexing the
/// `serde_json::Value` with the name and asking the result for its text
/// with `Value::as_str`. Indexing gives null where the value is no object
/// or has no such member, and only a string has text: so the text comes
/// back exactly for the members that `text_members` holds.
#[verifier::external_body]
fn text_member(response: &Value, name: &str) -> (text: Option<String>)
    ensures
        match text {
            Some(text) => text_members(*response).contains_key(name@) && text_members(
                *response,
            )[name@] == text@,
            None => !text_members(*response).contains_key(name@),
        },
{
    match response[name].as_str() {
        Some(text) => Some(text.to_owned()),
        None => None,
    }
}

/// The address that hands out session tokens.
pub const SESSION_TOKEN_URL: &'static str =
    "https://cn.mystudio.io/Api/v2/generateStudioAttendanceToken";

/// The text of `text`, if there is any.
pub open spec fn text_of(text: Option<String>) -> Option<Seq<char>> {
    match text {
        Some(text) => Some(text@),
        None => None,
    }
}

/// The text of an outcome.
pub open spec fn outcome_of(outcome: Result<String, ApiError>) -> Result<Seq<char>, ApiErrorView> {
    match outcome {
        Ok(token) => Ok(token@),
        Err(error) => Err(error@),
    }
}

/// How the service's answer to a request for a session token is read, given
/// the text of its `status` and `msg` members and the address `url` that was
/// asked:
/// - without a status the answer lacks a field;
/// - with the status `Success` the message is the token;
/// - with the status `Failed` the message says why the request was refused;
/// - in both cases an answer without a message lacks a field;
/// - any other status is not recognised.
pub open spec fn token_outcome(
    status: Option<Seq<char>>,
    msg: Option<Seq<char>>,
    url: Seq<char>,
) -> Result<Seq<char>, ApiErrorView> {
    match status {
        None => Err(ApiErrorView::MissingField { field: "status"@, url }),
        Some(status) => if status == "Success"@ {
            match msg {
                Some(token) => Ok(token),
                None => Err(ApiErrorView::MissingField { field: "msg"@, url }),
            }
        } else if status == "Failed"@ {
            match msg {
                Some(message) => Err(ApiErrorView::InvalidRequest { message, url }),
                None => Err(ApiErrorView::MissingField { field: "msg"@, url }),
            }
        } else {
            Err(ApiErrorView::UnrecognizedValue { field: "status"@, value: status, url })
        },
    }
}

/// The member of `members` under `name`, if there is one.
pub open spec fn member(members: Map<Seq<char>, Seq<char>>, name: Seq<char>) -> Option<Seq<char>> {
    if members.contains_key(name) {
        Some(members[name])
    } else {
        None
    }
}

/// Reads the answer to a request for a session token from the text of its
/// `status` and `msg` members.
pub fn session_token_from_status(status: Option<String>, msg: Option<String>, url: &str) -> (outcome:
    Result<String, ApiError>)
    ensures
        outcome_of(outcome) == token_outcome(text_of(status), text_of(msg), url@),
{
    let status = match status {
        Some(status) => status,
        None => {
            return Err(ApiError::MissingField { field: "status".to_owned(), url: url.to_owned() });
        },
    };
    if same_text(status.as_str(), "Success") {
        match msg {
            Some(token) => Ok(token),
            None => Err(ApiError::MissingField { field: "msg".to_owned(), url: url.to_owned() }),
        }
    } else if same_text(status.as_str(), "Failed") {
        match msg {
            Some(message) => Err(ApiError::InvalidRequest { message, url: url.to_owned() }),
            None => Err(ApiError::MissingField { field: "msg".to_owned(), url: url.to_owned() }),
        }
    } else {
        Err(
            ApiError::UnrecognizedValue {
                field: "status".to_owned(),
                value: status,
                url: url.to_owned(),
            },
        )
    }
}

/// Reads the answer `response` to a request for a session token that was
/// sent to `url`: the token on success, and otherwise what is wrong with
/// the answer.
pub fn session_token_from_response(response: &Value, url: &str) -> (outcome: Result<
    String,
    ApiError,
>)
    ensures
        outcome_of(outcome) == token_outcome(
            member(text_members(*response), "status"@),
            member(text_members(*response), "msg"@),
            url@,
        ),
{
    let status = text_member(response, "status");
    let msg = text_member(response, "msg");
    session_token_from_status(status, msg, url)
}

/// What is sent to ask for a session token: the names and values of the
/// members of the request, in the order `company_id`, `email`, `from_page`.
pub fn session_token_request(my_studio: &MyStudio) -> (fields: Vec<(String, String)>)
    ensures
        fields@.len() == 3,
        fields@[0].0@ == "company_id"@ && fields@[0].1@ == my_studio.company_id@,
        fields@[1].0@ == "email"@ && fields@[1].1@ == my_studio.email@,
        fields@[2].0@ == "from_page"@ && fields@[2].1@ == "attendance"@,
{
    let mut fields: Vec<(String, String)> = Vec::new();
    fields.push(("company_id".to_owned(), my_studio.company_id.clone()));
    fields.push(("email".to_owned(), my_studio.email.clone()));
    fields.push(("from_page".to_owned(), "attendance".to_owned()));
    fields
}

} // verus!
