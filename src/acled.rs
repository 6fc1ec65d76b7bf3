//! Query parameters, event records and the response envelope of the event service.

use vstd::prelude::*;
use crate::json::{
    JsonModel, json_view, optional_count, optional_number, optional_text, optional_flag,
    required_count, required_text, text_view, read_optional_count, read_optional_number,
    read_optional_text, read_optional_flag, read_required_count, read_required_text,
    is_absent, member, member_absent, json_member,
};
use crate::text::{decimal, decimal_text};

verus! {

/// The largest number of events that one query may ask for.
pub const MAX_EVENTS_LIMIT: u32 = 5000;

/// What the user asks the service for.
#[derive(Debug, Clone, PartialEq)]
pub struct AcledParams {
    pub start_date: String,
    pub end_date: String,
    pub country: String,
    pub event_type: String,
    pub limit: u32,
}

/// Every text field is filled in and the limit lies in `1..=MAX_EVENTS_LIMIT`.
pub open spec fn params_valid(p: AcledParams) -> bool {
    &&& p.start_date@.len() > 0
    &&& p.end_date@.len() > 0
    &&& p.country@.len() > 0
    &&& p.event_type@.len() > 0
    &&& 1 <= p.limit <= MAX_EVENTS_LIMIT
}

/// The query pairs sent for `p`, in order.
pub open spec fn query_pairs(p: AcledParams) -> Seq<(Seq<char>, Seq<char>)> {
    seq![
        ("start"@, p.start_date@),
        ("end"@, p.end_date@),
        ("country"@, p.country@),
        ("event_type"@, p.event_type@),
        ("limit"@, decimal(p.limit as nat)),
    ]
}

/// The characters of each name and value of a list of pairs.
pub open spec fn pairs_view(v: Seq<(String, String)>) -> Seq<(Seq<char>, Seq<char>)> {
    v.map_values(|p: (String, String)| (p.0@, p.1@))
}

impl Default for AcledParams {
    fn default() -> (r: AcledParams)
        ensures
            r.start_date@ == "2024-01-01"@,
            r.end_date@ == "2024-12-31"@,
            r.country@ == "Lebanon"@,
            r.event_type@ == "Battles"@,
            r.limit == 50,
            params_valid(r),
    {
        proof {
            reveal_strlit("2024-01-01");
            reveal_strlit("2024-12-31");
            reveal_strlit("Lebanon");
            reveal_strlit("Battles");
        }
        AcledParams {
            start_date: String::from_str("2024-01-01"),
            end_date: String::from_str("2024-12-31"),
            country: String::from_str("Lebanon"),
            event_type: String::from_str("Battles"),
            limit: 50,
        }
    }
}

impl AcledParams {
    /// Whether a query may be sent with these parameters.
    pub fn is_valid(&self) -> (r: bool)
        ensures
            r == params_valid(*self),
    {
        self.start_date.as_str().unicode_len() > 0 && self.end_date.as_str().unicode_len() > 0
            && self.country.as_str().unicode_len() > 0
            && self.event_type.as_str().unicode_len() > 0 && self.limit >= 1
            && self.limit <= MAX_EVENTS_LIMIT
    }

    /// The query pairs, names and values, in the order in which they are sent.
    pub fn to_query_params(&self) -> (r: Vec<(String, String)>)
        ensures
            pairs_view(r@) == query_pairs(*self),
    {
        let mut r: Vec<(String, String)> = Vec::new();
        r.push((String::from_str("start"), self.start_date.clone()));
        r.push((String::from_str("end"), self.end_date.clone()));
        r.push((String::from_str("country"), self.country.clone()));
        r.push((String::from_str("event_type"), self.event_type.clone()));
        r.push((String::from_str("limit"), decimal_text(self.limit)));
        assert(pairs_view(r@) =~= query_pairs(*self));
        r
    }
}

/// One recorded event. Coordinates are kept as the decimal text that the service sent.
#[derive(Debug, Clone, PartialEq)]
pub struct AcledEvent {
    pub data_id: u32,
    pub event_date: String,
    pub event_type: String,
    pub actor1: String,
    pub actor2: String,
    pub location: String,
    pub latitude: Option<String>,
    pub longitude: Option<String>,
    pub notes: String,
    pub fatalities: Option<u32>,
}

/// What an [`AcledEvent`] holds, with text as character sequences.
pub struct EventModel {
    pub data_id: u32,
    pub event_date: Seq<char>,
    pub event_type: Seq<char>,
    pub actor1: Seq<char>,
    pub actor2: Seq<char>,
    pub location: Seq<char>,
    pub latitude: Option<Seq<char>>,
    pub longitude: Option<Seq<char>>,
    pub notes: Seq<char>,
    pub fatalities: Option<u32>,
}

impl View for AcledEvent {
    type V = EventModel;

    open spec fn view(&self) -> EventModel {
        EventModel {
            data_id: self.data_id,
            event_date: self.event_date@,
            event_type: self.event_type@,
            actor1: self.actor1@,
            actor2: self.actor2@,
            location: self.location@,
            latitude: text_view(self.latitude),
            longitude: text_view(self.longitude),
            notes: self.notes@,
            fatalities: self.fatalities,
        }
    }
}

/// The event record that a JSON value describes: an object with the members
/// `data_id` and `fatalities` (counts), `latitude` and `longitude` (numbers), and
/// the strings `event_date`, `event_type`, `actor1`, `actor2`, `location` and
/// `notes`. `latitude`, `longitude` and `fatalities` may be missing or null; the
/// rest must be present. Other members are ignored.
pub open spec fn event_of(j: JsonModel) -> Option<EventModel> {
    if j is Object
        && required_count(j, "data_id"@) is Some
        && required_text(j, "event_date"@) is Some
        && required_text(j, "event_type"@) is Some
        && required_text(j, "actor1"@) is Some
        && required_text(j, "actor2"@) is Some
        && required_text(j, "location"@) is Some
        && optional_number(j, "latitude"@) is Some
        && optional_number(j, "longitude"@) is Some
        && required_text(j, "notes"@) is Some
        && optional_count(j, "fatalities"@) is Some {
        Some(EventModel {
            data_id: required_count(j, "data_id"@).unwrap(),
            event_date: required_text(j, "event_date"@).unwrap(),
            event_type: required_text(j, "event_type"@).unwrap(),
            actor1: required_text(j, "actor1"@).unwrap(),
            actor2: required_text(j, "actor2"@).unwrap(),
            location: required_text(j, "location"@).unwrap(),
            latitude: optional_number(j, "latitude"@).unwrap(),
            longitude: optional_number(j, "longitude"@).unwrap(),
            notes: required_text(j, "notes"@).unwrap(),
            fatalities: optional_count(j, "fatalities"@).unwrap(),
        })
    } else {
        None
    }
}

/// The events of a JSON array whose every item is an event record.
pub open spec fn events_of(j: JsonModel) -> Option<Seq<EventModel>> {
    match j {
        JsonModel::Array(items) => if forall|i: int| 0 <= i < items.len() ==> (#[trigger] event_of(items[i])) is Some {
            Some(Seq::new(items.len(), |i: int| event_of(items[i]).unwrap()))
        } else {
            None
        },
        _ => None,
    }
}

/// The models of a list of events.
pub open spec fn events_view(v: Seq<AcledEvent>) -> Seq<EventModel> {
    v.map_values(|e: AcledEvent| e@)
}

impl AcledEvent {
    /// Whether the event can be placed on a map.
    pub fn has_coordinates(&self) -> (r: bool)
        ensures
            r == (self.latitude is Some && self.longitude is Some),
    {
        self.latitude.is_some() && self.longitude.is_some()
    }

    /// The number of fatalities, with an unreported number counted as zero.
    pub fn fatality_count(&self) -> (r: u32)
        ensures
            r == match self.fatalities {
                Some(n) => n,
                None => 0,
            },
    {
        match self.fatalities {
            Some(n) => n,
            None => 0,
        }
    }

    /// A field-for-field copy.
    pub fn duplicate(&self) -> (r: AcledEvent)
        ensures
            r@ == self@,
    {
        AcledEvent {
            data_id: self.data_id,
            event_date: self.event_date.clone(),
            event_type: self.event_type.clone(),
            actor1: self.actor1.clone(),
            actor2: self.actor2.clone(),
            location: self.location.clone(),
            latitude: copy_text(&self.latitude),
            longitude: copy_text(&self.longitude),
            notes: self.notes.clone(),
            fatalities: self.fatalities,
        }
    }

    /// Reads an event record out of a JSON value; `None` where it is not one.
    pub fn from_json(v: &serde_json::Value) -> (r: Option<AcledEvent>)
        ensures
            match r {
                Some(e) => event_of(json_view(*v)) == Some(e@),
                None => event_of(json_view(*v)) is None,
            },
    {
        if !v.is_object() {
            return None;
        }
        let data_id = read_required_count(v, "data_id");
        let event_date = read_required_text(v, "event_date");
        let event_type = read_required_text(v, "event_type");
        let actor1 = read_required_text(v, "actor1");
        let actor2 = read_required_text(v, "actor2");
        let location = read_required_text(v, "location");
        let latitude = read_optional_number(v, "latitude");
        let longitude = read_optional_number(v, "longitude");
        let notes = read_required_text(v, "notes");
        let fatalities = read_optional_count(v, "fatalities");
        match (data_id, event_date, event_type, actor1, actor2, location, latitude, longitude, notes, fatalities) {
            (Some(data_id), Some(event_date), Some(event_type), Some(actor1), Some(actor2), Some(location), Some(latitude), Some(longitude), Some(notes), Some(fatalities)) => {
                Some(AcledEvent {
                    data_id,
                    event_date,
                    event_type,
                    actor1,
                    actor2,
                    location,
                    latitude,
                    longitude,
                    notes,
                    fatalities,
                })
            },
            _ => None,
        }
    }
}

fn copy_text(o: &Option<String>) -> (r: Option<String>)
    ensures
        text_view(r) == text_view(*o),
{
    match o {
        Some(s) => Some(s.clone()),
        None => None,
    }
}

/// Reads a JSON array of event records; `None` where the value is not an array or
/// one of its items is not an event record.
pub fn events_from_json(v: &serde_json::Value) -> (r: Option<Vec<AcledEvent>>)
    ensures
        match r {
            Some(evs) => events_of(json_view(*v)) == Some(events_view(evs@)),
            None => events_of(json_view(*v)) is None,
        },
{
    let items = match v.as_array() {
        Some(a) => a,
        None => return None,
    };
    let ghost models = items@.map_values(|x: serde_json::Value| json_view(x));
    assert(json_view(*v) == JsonModel::Array(models));
    let mut out: Vec<AcledEvent> = Vec::new();
    let mut i: usize = 0;
    while i < items.len()
        invariant
            i <= items@.len(),
            models == items@.map_values(|x: serde_json::Value| json_view(x)),
            json_view(*v) == JsonModel::Array(models),
            out@.len() == i,
            forall|k: int| 0 <= k < i ==> #[trigger] event_of(models[k]) == Some(out@[k]@),
        decreases items@.len() - i,
    {
        assert(models[i as int] == json_view(items@[i as int]));
        match AcledEvent::from_json(&items[i]) {
            Some(e) => out.push(e),
            None => {
                assert(event_of(models[i as int]) is None);
                assert(events_of(JsonModel::Array(models)) is None);
                return None;
            },
        }
        i = i + 1;
    }
    assert(events_view(out@) =~= Seq::new(models.len(), |k: int| event_of(models[k]).unwrap()));
    Some(out)
}

/// An error that the service reports in place of data. `status` is `None` when
/// the service sent the error as bare text.
#[derive(Debug, Clone, PartialEq)]
pub struct AcledError {
    pub status: Option<u32>,
    pub message: String,
}

/// What an [`AcledError`] holds.
pub struct ApiErrorModel {
    pub status: Option<u32>,
    pub message: Seq<char>,
}

impl View for AcledError {
    type V = ApiErrorModel;

    open spec fn view(&self) -> ApiErrorModel {
        ApiErrorModel { status: self.status, message: self.message@ }
    }
}

/// The response envelope: metadata and, on success, the events.
#[derive(Debug, Clone, PartialEq)]
pub struct AcledResponse {
    pub success: Option<bool>,
    pub count: Option<u32>,
    pub data: Option<Vec<AcledEvent>>,
    pub status: Option<u32>,
    pub error: Option<AcledError>,
    pub message: Option<String>,
}

/// What an [`AcledResponse`] holds.
pub struct ResponseModel {
    pub success: Option<bool>,
    pub count: Option<u32>,
    pub data: Option<Seq<EventModel>>,
    pub status: Option<u32>,
    pub error: Option<ApiErrorModel>,
    pub message: Option<Seq<char>>,
}

impl View for AcledResponse {
    type V = ResponseModel;

    open spec fn view(&self) -> ResponseModel {
        ResponseModel {
            success: self.success,
            count: self.count,
            data: match self.data {
                Some(d) => Some(events_view(d@)),
                None => None,
            },
            status: self.status,
            error: match self.error {
                Some(e) => Some(e@),
                None => None,
            },
            message: text_view(self.message),
        }
    }
}

/// The error that a JSON value describes: an object with a count `status` and a
/// string `message`, or a bare string.
pub open spec fn api_error_of(j: JsonModel) -> Option<ApiErrorModel> {
    match j {
        JsonModel::Str(s) => Some(ApiErrorModel { status: None, message: s }),
        JsonModel::Object(_) => if required_count(j, "status"@) is Some && required_text(
            j,
            "message"@,
        ) is Some {
            Some(
                ApiErrorModel {
                    status: Some(required_count(j, "status"@).unwrap()),
                    message: required_text(j, "message"@).unwrap(),
                },
            )
        } else {
            None
        },
        _ => None,
    }
}

/// An optional member holding an event list.
pub open spec fn optional_events(j: JsonModel, key: Seq<char>) -> Option<Option<Seq<EventModel>>> {
    if is_absent(member(j, key)) {
        Some(None)
    } else {
        match events_of(member(j, key).unwrap()) {
            Some(e) => Some(Some(e)),
            None => None,
        }
    }
}

/// An optional member holding an error.
pub open spec fn optional_error(j: JsonModel, key: Seq<char>) -> Option<Option<ApiErrorModel>> {
    if is_absent(member(j, key)) {
        Some(None)
    } else {
        match api_error_of(member(j, key).unwrap()) {
            Some(e) => Some(Some(e)),
            None => None,
        }
    }
}

/// The envelope that a JSON value describes: an object whose members `success`
/// (boolean), `count` and `status` (counts), `data` (event list), `error` and
/// `message` (string) may each be missing or null. Other members are ignored.
pub open spec fn response_of(j: JsonModel) -> Option<ResponseModel> {
    if j is Object
        && optional_flag(j, "success"@) is Some
        && optional_count(j, "count"@) is Some
        && optional_events(j, "data"@) is Some
        && optional_count(j, "status"@) is Some
        && optional_error(j, "error"@) is Some
        && optional_text(j, "message"@) is Some {
        Some(ResponseModel {
            success: optional_flag(j, "success"@).unwrap(),
            count: optional_count(j, "count"@).unwrap(),
            data: optional_events(j, "data"@).unwrap(),
            status: optional_count(j, "status"@).unwrap(),
            error: optional_error(j, "error"@).unwrap(),
            message: optional_text(j, "message"@).unwrap(),
        })
    } else {
        None
    }
}

/// The message of the error that an envelope reports, if any: that of `error`
/// first, else `message`.
pub open spec fn reported_message(r: ResponseModel) -> Option<Seq<char>> {
    match r.error {
        Some(e) => Some(e.message),
        None => r.message,
    }
}

fn error_from_json(v: &serde_json::Value) -> (r: Option<AcledError>)
    ensures
        match r {
            Some(e) => api_error_of(json_view(*v)) == Some(e@),
            None => api_error_of(json_view(*v)) is None,
        },
{
    if let Some(s) = v.as_str() {
        return Some(AcledError { status: None, message: s.to_owned() });
    }
    if !v.is_object() {
        return None;
    }
    match (read_required_count(v, "status"), read_required_text(v, "message")) {
        (Some(status), Some(message)) => Some(AcledError { status: Some(status), message }),
        _ => None,
    }
}

impl AcledResponse {
    /// Reads an envelope out of a JSON value; `None` where it is not one.
    pub fn from_json(v: &serde_json::Value) -> (r: Option<AcledResponse>)
        ensures
            match r {
                Some(e) => response_of(json_view(*v)) == Some(e@),
                None => response_of(json_view(*v)) is None,
            },
    {
        if !v.is_object() {
            return None;
        }
        let success = read_optional_flag(v, "success");
        let count = read_optional_count(v, "count");
        let status = read_optional_count(v, "status");
        let message = read_optional_text(v, "message");
        let data = if member_absent(v, "data") {
            Some(None)
        } else {
            match json_member(v, "data") {
                Some(x) => match events_from_json(x) {
                    Some(evs) => Some(Some(evs)),
                    None => None,
                },
                None => None,
            }
        };
        let error = if member_absent(v, "error") {
            Some(None)
        } else {
            match json_member(v, "error") {
                Some(x) => match error_from_json(x) {
                    Some(e) => Some(Some(e)),
                    None => None,
                },
                None => None,
            }
        };
        match (success, count, data, status, error, message) {
            (Some(success), Some(count), Some(data), Some(status), Some(error), Some(message)) => {
                Some(AcledResponse { success, count, data, status, error, message })
            },
            _ => None,
        }
    }

    /// Whether the service reports success and no error.
    pub fn is_success(&self) -> (r: bool)
        ensures
            r == (self.success == Some(true) && self.error is None),
    {
        match self.success {
            Some(b) => b && self.error.is_none(),
            None => false,
        }
    }

    /// The events carried, or none.
    pub fn get_events(&self) -> (r: Vec<AcledEvent>)
        ensures
            events_view(r@) == match self@.data {
                Some(d) => d,
                None => Seq::<EventModel>::empty(),
            },
    {
        let mut out: Vec<AcledEvent> = Vec::new();
        match &self.data {
            Some(d) => {
                let mut i: usize = 0;
                while i < d.len()
                    invariant
                        i <= d@.len(),
                        out@.len() == i,
                        forall|k: int| 0 <= k < i ==> (#[trigger] out@[k])@ == d@[k]@,
                    decreases d@.len() - i,
                {
                    out.push(d[i].duplicate());
                    i = i + 1;
                }
                assert(events_view(out@) =~= events_view(d@));
            },
            None => {
                assert(events_view(out@) =~= Seq::<EventModel>::empty());
            },
        }
        out
    }

    /// The message of the error that the service reports, if any.
    pub fn get_error_message(&self) -> (r: Option<String>)
        ensures
            text_view(r) == reported_message(self@),
    {
        match &self.error {
            Some(e) => Some(e.message.clone()),
            None => match &self.message {
                Some(m) => Some(m.clone()),
                None => None,
            },
        }
    }
}

} // verus!
