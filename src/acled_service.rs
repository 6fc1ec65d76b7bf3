//! Requests to the event service and the reading of its answers.

use vstd::prelude::*;
use vstd::utf8::encode_utf8;
use crate::acled::{
    AcledEvent, AcledParams, AcledResponse, EventModel, ResponseModel, events_from_json,
    events_of, events_view, params_valid, query_pairs, reported_message, response_of,
};
use crate::errors::{AppError, ErrorModel};
use crate::json::{JsonModel, json_parse_result, json_view, parse_json};
use crate::text::{decimal, decimal_text};
use crate::user::{UserData, credentials_valid};

verus! {

/// The endpoint that event queries are sent to.
pub const ACLED_BASE_URL: &'static str = "https://api.acleddata.com/acled/read";

/// The status reported for a service error that names none.
pub const DEFAULT_ERROR_STATUS: u32 = 400;

/// Bytes that stand for themselves in a URL: ASCII letters and digits, `-`, `.`,
/// `_` and `~`.
pub open spec fn url_safe(b: u8) -> bool {
    (48 <= b <= 57) || (65 <= b <= 90) || (97 <= b <= 122) || b == 45 || b == 46 || b == 95
        || b == 126
}

/// The upper-case hexadecimal digit of `d < 16`.
pub open spec fn hex_digit(d: u8) -> char {
    if d < 10 {
        crate::text::digit_char(d as nat)
    } else if d == 10 {
        'A'
    } else if d == 11 {
        'B'
    } else if d == 12 {
        'C'
    } else if d == 13 {
        'D'
    } else if d == 14 {
        'E'
    } else {
        'F'
    }
}

/// Percent-encoding of a byte string: a URL-safe byte as its character, any
/// other as `%` and two hexadecimal digits.
pub open spec fn percent_encoded(b: Seq<u8>) -> Seq<char>
    decreases b.len(),
{
    if b.len() == 0 {
        Seq::empty()
    } else {
        let head = if url_safe(b[0]) {
            seq![b[0] as char]
        } else {
            seq!['%', hex_digit(b[0] / 16), hex_digit(b[0] % 16)]
        };
        head + percent_encoded(b.drop_first())
    }
}

/// The URL-encoded form of a text.
pub open spec fn url_encoded(s: Seq<char>) -> Seq<char> {
    percent_encoded(encode_utf8(s))
}

/// Relies on urlencoding::encode: it percent-encodes the UTF-8 bytes of the text,
/// leaving ASCII letters, digits and `-._~` as they are, with upper-case digits.
#[verifier::external_body]
fn url_encode(s: &str) -> (r: String)
    ensures
        r@ == url_encoded(s@),
{
    urlencoding::encode(s).into_owned()
}

/// `&name=value` for each pair, the value URL-encoded.
pub open spec fn query_text(pairs: Seq<(Seq<char>, Seq<char>)>) -> Seq<char>
    decreases pairs.len(),
{
    if pairs.len() == 0 {
        Seq::empty()
    } else {
        query_text(pairs.drop_last()) + "&"@ + pairs.last().0 + "="@ + url_encoded(pairs.last().1)
    }
}

/// The URL that asks the service for the events that `p` describes, signed with `u`.
pub open spec fn request_url(u: UserData, p: AcledParams) -> Seq<char> {
    ACLED_BASE_URL@ + "?key="@ + url_encoded(u.api_key@) + "&email="@ + url_encoded(u.email@)
        + query_text(query_pairs(p))
}

/// The first rule that `p` breaks, as the error that reports it.
pub open spec fn params_problem(p: AcledParams) -> Option<ErrorModel> {
    if p.start_date@.len() == 0 {
        Some(ErrorModel::Validation { field: "start_date"@, message: "Start date is required"@ })
    } else if p.end_date@.len() == 0 {
        Some(ErrorModel::Validation { field: "end_date"@, message: "End date is required"@ })
    } else if p.country@.len() == 0 {
        Some(ErrorModel::Validation { field: "country"@, message: "Country is required"@ })
    } else if p.event_type@.len() == 0 {
        Some(ErrorModel::Validation { field: "event_type"@, message: "Event type is required"@ })
    } else if p.limit == 0 {
        Some(ErrorModel::Validation { field: "limit"@, message: "Limit must be greater than 0"@ })
    } else if p.limit > crate::acled::MAX_EVENTS_LIMIT {
        Some(ErrorModel::Validation { field: "limit"@, message: "Limit cannot exceed 5000"@ })
    } else {
        None
    }
}

/// The error reported when the query parameters are refused.
pub open spec fn invalid_params_error() -> ErrorModel {
    ErrorModel::Validation { field: "parameters"@, message: "Invalid API parameters provided"@ }
}

/// The error reported when the credentials are refused.
pub open spec fn invalid_credentials_error() -> ErrorModel {
    ErrorModel::Validation { field: "credentials"@, message: "Invalid user credentials provided"@ }
}

/// What a fetch does first: refuse the parameters, refuse the credentials, or
/// request the URL.
pub open spec fn fetch_plan(u: UserData, p: AcledParams) -> Result<Seq<char>, ErrorModel> {
    if !params_valid(p) {
        Err(invalid_params_error())
    } else if !credentials_valid(u) {
        Err(invalid_credentials_error())
    } else {
        Ok(request_url(u, p))
    }
}

/// The message of a `Serialization` error: the parser's diagnostic, then the raw text.
pub open spec fn serialization_message(diagnostic: Seq<char>, raw: Seq<char>) -> Seq<char> {
    "JSON parsing failed: "@ + diagnostic + ". Raw response: "@ + raw
}

/// The diagnostic for a well-formed document of neither known shape.
pub open spec fn shape_diagnostic() -> Seq<char> {
    "expected a response envelope or an array of event records"@
}

/// The status of the error that an envelope reports: its own `status`, else the
/// status inside `error`, else the default.
pub open spec fn reported_status(r: ResponseModel) -> u32 {
    match r.status {
        Some(s) => s,
        None => match r.error {
            Some(e) => match e.status {
                Some(s) => s,
                None => DEFAULT_ERROR_STATUS,
            },
            None => DEFAULT_ERROR_STATUS,
        },
    }
}

/// The one event list, or the one error, that a response text stands for, given
/// what the parser made of it. An envelope that reports an error gives that error,
/// whatever else it holds; one with `success` true and `data` gives its data; any
/// other document is read as a bare array of events.
pub open spec fn normalized(raw: Seq<char>, doc: Result<JsonModel, Seq<char>>) -> Result<
    Seq<EventModel>,
    ErrorModel,
> {
    match doc {
        Err(d) => Err(ErrorModel::Serialization { message: serialization_message(d, raw) }),
        Ok(j) => {
            let env = response_of(j);
            if env is Some && reported_message(env.unwrap()) is Some {
                Err(
                    ErrorModel::Api {
                        status: reported_status(env.unwrap()),
                        message: reported_message(env.unwrap()).unwrap(),
                    },
                )
            } else if env is Some && env.unwrap().success == Some(true) && env.unwrap().data is Some {
                Ok(env.unwrap().data.unwrap())
            } else {
                match events_of(j) {
                    Some(evs) => Ok(evs),
                    None => Err(
                        ErrorModel::Serialization {
                            message: serialization_message(shape_diagnostic(), raw),
                        },
                    ),
                }
            }
        },
    }
}

/// What an HTTP exchange comes to: a status outside `200..=299` is an `Api` error
/// with the text `HTTP <status>: <status text>`; a success reads the body.
pub open spec fn response_outcome(status: u16, status_text: Seq<char>, body: Seq<char>) -> Result<
    Seq<EventModel>,
    ErrorModel,
> {
    if 200 <= status <= 299 {
        normalized(body, json_parse_result(body))
    } else {
        Err(
            ErrorModel::Api {
                status: status as u32,
                message: "HTTP "@ + decimal(status as nat) + ": "@ + status_text,
            },
        )
    }
}

/// The models of an outcome.
pub open spec fn outcome_view(r: Result<Vec<AcledEvent>, AppError>) -> Result<
    Seq<EventModel>,
    ErrorModel,
> {
    match r {
        Ok(evs) => Ok(events_view(evs@)),
        Err(e) => Err(e@),
    }
}

/// The models of what the parser returned.
pub open spec fn document_view(doc: Result<serde_json::Value, String>) -> Result<
    JsonModel,
    Seq<char>,
> {
    match doc {
        Ok(v) => Ok(json_view(v)),
        Err(d) => Err(d@),
    }
}

fn serialization_error(diagnostic: &str, raw: &str) -> (r: AppError)
    ensures
        r@ == (ErrorModel::Serialization { message: serialization_message(diagnostic@, raw@) }),
{
    let mut m = String::from_str("JSON parsing failed: ");
    m.append(diagnostic);
    m.append(". Raw response: ");
    m.append(raw);
    AppError::Serialization { message: m }
}

/// Requests to the event service.
pub struct AcledService;

impl AcledService {
    /// The URL of the query that `params` describes, signed with `user_data`;
    /// every value is URL-encoded.
    pub fn build_url(user_data: &UserData, params: &AcledParams) -> (r: String)
        ensures
            r@ == request_url(*user_data, *params),
    {
        let mut url = String::from_str(ACLED_BASE_URL);
        url.append("?key=");
        let key = url_encode(user_data.api_key.as_str());
        url.append(key.as_str());
        url.append("&email=");
        let email = url_encode(user_data.email.as_str());
        url.append(email.as_str());
        let ghost head = url@;
        let pairs = params.to_query_params();
        let ghost models = crate::acled::pairs_view(pairs@);
        let mut i: usize = 0;
        while i < pairs.len()
            invariant
                i <= pairs@.len(),
                models == crate::acled::pairs_view(pairs@),
                models == query_pairs(*params),
                url@ == head + query_text(models.subrange(0, i as int)),
            decreases pairs@.len() - i,
        {
            let (name, value) = &pairs[i];
            url.append("&");
            url.append(name.as_str());
            url.append("=");
            let encoded = url_encode(value.as_str());
            url.append(encoded.as_str());
            proof {
                let next = models.subrange(0, i + 1);
                assert(next.drop_last() =~= models.subrange(0, i as int));
                assert(next.last() == (name@, value@));
            }
            i = i + 1;
        }
        assert(models.subrange(0, i as int) =~= models);
        url
    }

    /// Checks the parameters one rule at a time and reports the first one broken.
    pub fn validate_params(params: &AcledParams) -> (r: Result<(), AppError>)
        ensures
            r is Ok <==> params_valid(*params),
            r matches Err(e) ==> params_problem(*params) == Some(e@),
    {
        if params.start_date.as_str().unicode_len() == 0 {
            return Err(AppError::validation("start_date", "Start date is required"));
        }
        if params.end_date.as_str().unicode_len() == 0 {
            return Err(AppError::validation("end_date", "End date is required"));
        }
        if params.country.as_str().unicode_len() == 0 {
            return Err(AppError::validation("country", "Country is required"));
        }
        if params.event_type.as_str().unicode_len() == 0 {
            return Err(AppError::validation("event_type", "Event type is required"));
        }
        if params.limit == 0 {
            return Err(AppError::validation("limit", "Limit must be greater than 0"));
        }
        if params.limit > crate::acled::MAX_EVENTS_LIMIT {
            return Err(AppError::validation("limit", "Limit cannot exceed 5000"));
        }
        Ok(())
    }

    /// The first step of a fetch: the URL to request, or the error to deliver at
    /// once, before any I/O. Invalid parameters are reported before invalid
    /// credentials.
    pub fn prepare_fetch(user_data: &UserData, params: &AcledParams) -> (r: Result<String, AppError>)
        ensures
            match r {
                Ok(url) => fetch_plan(*user_data, *params) == Ok::<Seq<char>, ErrorModel>(url@),
                Err(e) => fetch_plan(*user_data, *params) == Err::<Seq<char>, ErrorModel>(e@),
            },
            params.country@.len() == 0 ==> (r matches Err(e) && e@ == invalid_params_error()),
    {
        if !params.is_valid() {
            return Err(AppError::validation("parameters", "Invalid API parameters provided"));
        }
        if !user_data.is_valid() {
            return Err(AppError::validation("credentials", "Invalid user credentials provided"));
        }
        Ok(Self::build_url(user_data, params))
    }

    /// The error delivered when the request could not be completed.
    pub fn transport_failure(detail: &str) -> (r: AppError)
        ensures
            r@ == (ErrorModel::Network { message: "Network request failed: "@ + detail@ }),
    {
        let mut m = String::from_str("Network request failed: ");
        m.append(detail);
        AppError::Network { message: m }
    }

    /// Reads a response text whose parse is given: the events it carries, or
    /// the error it stands for.
    pub fn normalize_document(raw: &str, doc: &Result<serde_json::Value, String>) -> (r: Result<
        Vec<AcledEvent>,
        AppError,
    >)
        ensures
            outcome_view(r) == normalized(raw@, document_view(*doc)),
    {
        let v = match doc {
            Err(d) => return Err(serialization_error(d.as_str(), raw)),
            Ok(v) => v,
        };
        if let Some(env) = AcledResponse::from_json(v) {
            let ghost m = env@;
            if let Some(msg) = env.get_error_message() {
                let status = match env.status {
                    Some(s) => s,
                    None => match &env.error {
                        Some(e) => match e.status {
                            Some(s) => s,
                            None => DEFAULT_ERROR_STATUS,
                        },
                        None => DEFAULT_ERROR_STATUS,
                    },
                };
                return Err(AppError::Api { status, message: msg });
            }
            if env.success == Some(true) {
                if let Some(d) = env.data {
                    return Ok(d);
                }
            }
        }
        match events_from_json(v) {
            Some(evs) => Ok(evs),
            None => Err(
                serialization_error(
                    "expected a response envelope or an array of event records",
                    raw,
                ),
            ),
        }
    }

    /// Reads a response text: the events it carries, in either shape the service
    /// uses, or the error it stands for.
    pub fn normalize(raw: &str) -> (r: Result<Vec<AcledEvent>, AppError>)
        ensures
            outcome_view(r) == normalized(raw@, json_parse_result(raw@)),
    {
        let doc = parse_json(raw);
        Self::normalize_document(raw, &doc)
    }

    /// What a completed HTTP exchange delivers.
    pub fn handle_response(status: u16, status_text: &str, body: &str) -> (r: Result<
        Vec<AcledEvent>,
        AppError,
    >)
        ensures
            outcome_view(r) == response_outcome(status, status_text@, body@),
    {
        if 200 <= status && status <= 299 {
            Self::normalize(body)
        } else {
            let mut m = String::from_str("HTTP ");
            let digits = decimal_text(status as u32);
            m.append(digits.as_str());
            m.append(": ");
            m.append(status_text);
            Err(AppError::Api { status: status as u32, message: m })
        }
    }
}

/// A bare JSON array of event records, with no envelope around it, is read as
/// exactly those events and never as an error.
pub proof fn lemma_bare_array_accepted(raw: Seq<char>, j: JsonModel)
    requires
        j is Array,
        events_of(j) is Some,
    ensures
        normalized(raw, Ok(j)) == Ok::<Seq<EventModel>, ErrorModel>(events_of(j).unwrap()),
{
}

/// An envelope that reports success, carries `data` and reports no error is read
/// as exactly the events of `data`.
pub proof fn lemma_envelope_data_returned(raw: Seq<char>, j: JsonModel)
    requires
        response_of(j) is Some,
        response_of(j).unwrap().success == Some(true),
        response_of(j).unwrap().data is Some,
        reported_message(response_of(j).unwrap()) is None,
    ensures
        normalized(raw, Ok(j)) == Ok::<Seq<EventModel>, ErrorModel>(
            response_of(j).unwrap().data.unwrap(),
        ),
{
}

/// An envelope that reports an error is read as an `Api` error with the reported
/// message, whatever data it also carries.
pub proof fn lemma_reported_error_wins(raw: Seq<char>, j: JsonModel)
    requires
        response_of(j) is Some,
        reported_message(response_of(j).unwrap()) is Some,
    ensures
        normalized(raw, Ok(j)) matches Err(ErrorModel::Api { status, message }) && message
            == reported_message(response_of(j).unwrap()).unwrap() && status == reported_status(
            response_of(j).unwrap(),
        ),
{
}

/// Text that does not parse is read as a `Serialization` error whose message
/// holds the raw text in full.
pub proof fn lemma_unparsable_text_kept(raw: Seq<char>, diagnostic: Seq<char>)
    ensures
        normalized(raw, Err(diagnostic)) matches Err(ErrorModel::Serialization { message })
            && message.subrange(message.len() - raw.len(), message.len() as int) == raw,
{
    let m = serialization_message(diagnostic, raw);
    assert(m.subrange(m.len() - raw.len(), m.len() as int) =~= raw);
}

/// Parameters that break a rule, an empty country among them, stop a fetch
/// before any request, with the same error whatever the credentials.
pub proof fn lemma_invalid_params_never_request(u: UserData, p: AcledParams)
    requires
        !params_valid(p),
    ensures
        fetch_plan(u, p) == Err::<Seq<char>, ErrorModel>(invalid_params_error()),
{
}

} // verus!
