//! What is kept under an idempotency key: nothing yet while the first request
//! is at work, then the answer that it gave.

use crate::http::{
    copy_bytes, copy_headers, headers_view, is_status_code, response_valid, status_is_valid,
    HeaderPair, HeaderPairView, Response, ResponseView, CONFLICT,
};
use vstd::prelude::*;

verus! {

/// A row of `idempotency`, as it is stored. The three columns of the answer
/// are empty from the moment the key is reserved until the answer is saved,
/// and never change after that.
#[derive(Debug)]
pub struct IdempotencyRecord {
    pub user_id: u128,
    pub idempotency_key: String,
    pub response_status_code: Option<i16>,
    pub response_headers: Option<Vec<HeaderPair>>,
    pub response_body: Option<Vec<u8>>,
}

/// An `IdempotencyRecord` as mathematics.
pub struct IdempotencyRow {
    pub user_id: u128,
    pub idempotency_key: Seq<char>,
    /// The saved answer: status code, headers, body.
    pub response: Option<(i16, Seq<HeaderPairView>, Seq<u8>)>,
    /// Some, but not all, of the three columns of the answer are filled.
    pub torn: bool,
}

impl View for IdempotencyRecord {
    type V = IdempotencyRow;

    open spec fn view(&self) -> IdempotencyRow {
        IdempotencyRow {
            user_id: self.user_id,
            idempotency_key: self.idempotency_key@,
            response: match (self.response_status_code, self.response_headers, self.response_body) {
                (Some(code), Some(headers), Some(body)) => Some(
                    (code, headers_view(headers@), body@),
                ),
                _ => None,
            },
            torn: !(self.response_status_code is Some && self.response_headers is Some
                && self.response_body is Some) && !(self.response_status_code is None
                && self.response_headers is None && self.response_body is None),
        }
    }
}

impl Clone for IdempotencyRecord {
    fn clone(&self) -> (r: Self)
        ensures
            r@ == self@,
    {
        IdempotencyRecord {
            user_id: self.user_id,
            idempotency_key: self.idempotency_key.clone(),
            response_status_code: self.response_status_code,
            response_headers: match &self.response_headers {
                Some(h) => Some(copy_headers(h)),
                None => None,
            },
            response_body: match &self.response_body {
                Some(b) => Some(copy_bytes(b)),
                None => None,
            },
        }
    }
}

/// What a request does once its key has been looked up.
#[derive(Debug)]
pub enum NextAction {
    /// The key was free and is now reserved: do the work, in the transaction
    /// that reserved it.
    StartProcessing,
    /// The key was taken: give this answer, and do nothing else.
    ReturnSavedResponse(Response),
}

/// Why the answer under a key cannot be used.
#[derive(Debug, Clone, Copy, PartialEq, Eq, Structural)]
pub enum PersistenceError {
    /// The stored status code is no status code.
    InvalidStatusCode,
    /// Only some of the three columns of the answer are filled.
    TornResponse,
    /// The key was taken, and yet there is no row for it.
    MissingResponse,
}

impl PersistenceError {
    /// The message of the error.
    pub fn to_string(&self) -> (s: String)
        ensures
            s@ == match *self {
                PersistenceError::InvalidStatusCode => "The saved status code is invalid"@,
                PersistenceError::TornResponse => "The saved response is incomplete"@,
                PersistenceError::MissingResponse => "Cannot find expected saved response"@,
            },
    {
        match self {
            PersistenceError::InvalidStatusCode => "The saved status code is invalid".to_owned(),
            PersistenceError::TornResponse => "The saved response is incomplete".to_owned(),
            PersistenceError::MissingResponse => "Cannot find expected saved response".to_owned(),
        }
    }
}

/// The answer to a request whose key is reserved by a request that is still
/// at work: 409, no headers, a body that says so.
pub open spec fn processing_view() -> ResponseView {
    ResponseView {
        status: CONFLICT,
        headers: Seq::empty(),
        body: vstd::utf8::encode_utf8("A request with this idempotency key is being processed"@),
    }
}

/// The answer that the stored columns `saved` stand for.
pub open spec fn response_of_columns(
    saved: (i16, Seq<HeaderPairView>, Seq<u8>),
) -> Result<ResponseView, PersistenceError> {
    if !is_status_code(saved.0 as int) {
        Err(PersistenceError::InvalidStatusCode)
    } else {
        Ok(ResponseView { status: saved.0 as u16, headers: saved.1, body: saved.2 })
    }
}

/// The answer kept in a row, where there is a row: the saved answer, or the
/// answer `processing_view` while none is saved yet.
pub open spec fn saved_response(row: Option<IdempotencyRow>) -> Result<
    Option<ResponseView>,
    PersistenceError,
> {
    match row {
        None => Ok(None),
        Some(row) => if row.torn {
            Err(PersistenceError::TornResponse)
        } else {
            match row.response {
                None => Ok(Some(processing_view())),
                Some(saved) => match response_of_columns(saved) {
                    Ok(response) => Ok(Some(response)),
                    Err(e) => Err(e),
                },
            }
        },
    }
}

/// The columns under which the answer `response` is stored.
pub open spec fn columns_of_response(response: ResponseView) -> (i16, Seq<HeaderPairView>, Seq<u8>) {
    (response.status as i16, response.headers, response.body)
}

/// The view of an optional record.
pub open spec fn opt_row(record: Option<IdempotencyRecord>) -> Option<IdempotencyRow> {
    match record {
        Some(record) => Some(record@),
        None => None,
    }
}

/// The view of an optional response.
pub open spec fn opt_response(response: Option<Response>) -> Option<ResponseView> {
    match response {
        Some(response) => Some(response@),
        None => None,
    }
}

/// The answer to a request whose key is reserved by a request that is still
/// at work.
pub fn processing_response() -> (r: Response)
    ensures
        r@ == processing_view(),
{
    let r = Response {
        status: CONFLICT,
        headers: Vec::new(),
        body: vstd::string::StrSliceExecFns::as_bytes_vec(
            "A request with this idempotency key is being processed",
        ),
    };
    assert(r@.headers =~= processing_view().headers);
    r
}

/// Reads the answer kept in `record`, the row found under a key: `None` where
/// there is no row; the saved answer where one is saved; the answer of
/// `processing_response` where the key is reserved and no answer is saved
/// yet. An error where what is stored is no answer.
pub fn get_saved_response(record: Option<IdempotencyRecord>) -> (r: Result<
    Option<Response>,
    PersistenceError,
>)
    ensures
        r matches Ok(response) ==> (saved_response(opt_row(record)) matches Ok(saved) && saved
            == opt_response(response)),
        r matches Err(e) ==> (saved_response(opt_row(record)) matches Err(refused) && refused
            == e),
{
    let record = match record {
        None => {
            return Ok(None);
        },
        Some(record) => record,
    };
    match (record.response_status_code, record.response_headers, record.response_body) {
        (None, None, None) => Ok(Some(processing_response())),
        (Some(code), Some(headers), Some(body)) => {
            if code < 0 {
                return Err(PersistenceError::InvalidStatusCode);
            }
            let status = code as u16;
            if !status_is_valid(status) {
                return Err(PersistenceError::InvalidStatusCode);
            }
            Ok(Some(Response { status, headers, body }))
        },
        _ => Err(PersistenceError::TornResponse),
    }
}

/// Decides what a request does once it has tried to reserve its key by
/// inserting a row: where a row was inserted, the work starts; where none
/// was, the key is taken, and `record` is the row found under it, whose
/// answer is given instead.
pub fn try_processing(num_inserted_rows: u64, record: Option<IdempotencyRecord>) -> (r: Result<
    NextAction,
    PersistenceError,
>)
    ensures
        num_inserted_rows > 0 ==> r matches Ok(NextAction::StartProcessing),
        num_inserted_rows == 0 ==> match saved_response(opt_row(record)) {
            Ok(Some(response)) => r matches Ok(NextAction::ReturnSavedResponse(saved)) && saved@
                == response,
            Ok(None) => r matches Err(PersistenceError::MissingResponse),
            Err(e) => r matches Err(refused) && refused == e,
        },
{
    if num_inserted_rows > 0 {
        Ok(NextAction::StartProcessing)
    } else {
        match get_saved_response(record) {
            Ok(Some(saved)) => Ok(NextAction::ReturnSavedResponse(saved)),
            Ok(None) => Err(PersistenceError::MissingResponse),
            Err(e) => Err(e),
        }
    }
}

/// The row that keeps `response` as the answer under the key of `user_id`,
/// to be written in the transaction that reserved the key and committed with
/// it. An error where the status of the response is no status code.
pub fn save_response(user_id: u128, idempotency_key: &str, response: &Response) -> (r: Result<
    IdempotencyRecord,
    PersistenceError,
>)
    ensures
        r is Ok <==> response_valid(response@),
        r matches Ok(record) ==> record@ == (IdempotencyRow {
            user_id,
            idempotency_key: idempotency_key@,
            response: Some(columns_of_response(response@)),
            torn: false,
        }),
        r matches Err(e) ==> e == PersistenceError::InvalidStatusCode,
{
    if !status_is_valid(response.status) {
        return Err(PersistenceError::InvalidStatusCode);
    }
    let status_code = response.status as i16;
    Ok(
        IdempotencyRecord {
            user_id,
            idempotency_key: idempotency_key.to_owned(),
            response_status_code: Some(status_code),
            response_headers: Some(copy_headers(&response.headers)),
            response_body: Some(copy_bytes(&response.body)),
        },
    )
}

/// An answer that was saved is read back as it was: status, headers and
/// body, byte for byte.
pub proof fn law_saved_answer_is_read_back(
    user_id: u128,
    idempotency_key: Seq<char>,
    response: ResponseView,
)
    requires
        response_valid(response),
    ensures
        saved_response(
            Some(
                IdempotencyRow {
                    user_id,
                    idempotency_key,
                    response: Some(columns_of_response(response)),
                    torn: false,
                },
            ),
        ) matches Ok(Some(read)) && read == response,
{
    let saved = columns_of_response(response);
    assert(saved.0 as u16 == response.status);
}

} // verus!
