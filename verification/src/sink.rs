//! What becomes of a recognition: it is annotated with the station and the
//! time of capture, and offered to the endpoint.
//!
//! The recognized track is a JSON document of the `serde_json` crate, and
//! the time is written by the `chrono` crate. The document is carried as it
//! is; what it holds has a name here, and the contracts of this module
//! speak of that name.

use crate::text::{trim, trimmed};
use vstd::prelude::*;

verus! {

/// A JSON document as a mathematical value. A number is held as its text.
pub enum Json {
    Null,
    Bool(bool),
    Number(Seq<char>),
    Text(Seq<char>),
    Array(Seq<Json>),
    Object(Map<Seq<char>, Json>),
}

/// `serde_json::Value`. A document is carried as it is; nothing in it is
/// read but through `json_model`.
#[verifier::external_type_specification]
#[verifier::external_body]
pub struct ExValue(serde_json::Value);

/// What the document `value` holds.
pub uninterp spec fn json_model(value: serde_json::Value) -> Json;

/// The RFC 3339 text of the moment that lies `secs` seconds and `nanos`
/// nanoseconds after the start of 1970 in UTC, if the calendar reaches it.
pub uninterp spec fn rfc3339_text(secs: int, nanos: int) -> Option<Seq<char>>;

/// `Value::is_object`. Claims that it tells whether the document is an
/// object.
#[verifier::external_body]
fn is_object(value: &serde_json::Value) -> (object: bool)
    ensures
        object == (json_model(*value) is Object),
{
    value.is_object()
}

/// `Map::insert` on the members of the object `value`, with the JSON
/// string of `text` as the value. Claims that the member `key` then holds
/// that string, and that every other member is as it was.
#[verifier::external_body]
fn insert_text(value: &mut serde_json::Value, key: &str, text: &str)
    requires
        json_model(*old(value)) is Object,
    ensures
        json_model(*final(value)) == Json::Object(
            json_model(*old(value))->Object_0.insert(key@, Json::Text(text@)),
        ),
{
    if let serde_json::Value::Object(members) = value {
        members.insert(String::from(key), serde_json::Value::from(text));
    }
}

/// `DateTime::from_timestamp` and, on the moment that it gives,
/// `DateTime::to_rfc3339`. Claims that the outcome is `rfc3339_text` of the
/// two numbers.
#[verifier::external_body]
fn format_rfc3339(secs: i64, nanos: u32) -> (text: Option<String>)
    ensures
        text.deep_view() == rfc3339_text(secs as int, nanos as int),
{
    match chrono::DateTime::from_timestamp(secs, nanos) {
        Some(moment) => Some(moment.to_rfc3339()),
        None => None,
    }
}

/// A moment as a mathematical value.
pub struct MomentModel {
    pub secs: int,
    pub nanos: int,
    pub text: Seq<char>,
}

/// A moment of capture, with its RFC 3339 text.
#[derive(Debug, PartialEq, Eq)]
pub struct Timestamp {
    secs: i64,
    nanos: u32,
    text: String,
}

impl View for Timestamp {
    type V = MomentModel;

    closed spec fn view(&self) -> MomentModel {
        MomentModel { secs: self.secs as int, nanos: self.nanos as int, text: self.text@ }
    }
}

impl MomentModel {
    /// What every timestamp meets: its text is that of its moment.
    pub open spec fn valid(self) -> bool {
        rfc3339_text(self.secs, self.nanos) == Some(self.text)
    }
}

impl Timestamp {
    #[verifier::type_invariant]
    spec fn well_formed(self) -> bool {
        self@.valid()
    }

    /// The moment `secs` seconds and `nanos` nanoseconds after the start of
    /// 1970 in UTC, where the calendar reaches it.
    pub fn new(secs: i64, nanos: u32) -> (made: Option<Timestamp>)
        ensures
            match rfc3339_text(secs as int, nanos as int) {
                Some(text) => made matches Some(moment) && moment@ == (MomentModel {
                    secs: secs as int,
                    nanos: nanos as int,
                    text,
                }),
                None => made is None,
            },
    {
        match format_rfc3339(secs, nanos) {
            Some(text) => Some(Timestamp { secs, nanos, text }),
            None => None,
        }
    }

    /// The whole seconds since the start of 1970.
    pub fn secs(&self) -> (secs: i64)
        ensures
            secs == self@.secs,
    {
        self.secs
    }

    /// The nanoseconds since the last whole second.
    pub fn nanos(&self) -> (nanos: u32)
        ensures
            nanos == self@.nanos,
    {
        self.nanos
    }

    /// The moment in RFC 3339.
    pub fn text(&self) -> (text: &str)
        ensures
            text@ == self@.text,
            self@.valid(),
    {
        proof {
            use_type_invariant(self);
        }
        self.text.as_str()
    }
}

/// A recognition result as a mathematical value.
pub struct ResultModel {
    pub document: Json,
    pub station: Seq<char>,
    pub time: Seq<char>,
}

/// A recognized track with its station and its time of capture. Never
/// changed once made.
#[derive(Debug, PartialEq)]
pub struct RecognitionResult {
    document: serde_json::Value,
    station: String,
    time: String,
}

impl View for RecognitionResult {
    type V = ResultModel;

    closed spec fn view(&self) -> ResultModel {
        ResultModel { document: json_model(self.document), station: self.station@, time: self.time@ }
    }
}

/// The document of `track` once annotated: an object has the members
/// `station` and `time` set to the two texts, and its other members as
/// they were; any other document is left as it is.
pub open spec fn annotated_document(track: Json, station: Seq<char>, time: Seq<char>) -> Json {
    match track {
        Json::Object(members) => Json::Object(
            members.insert("station"@, Json::Text(station)).insert("time"@, Json::Text(time)),
        ),
        other => other,
    }
}

/// The result of annotating `track` for the station labelled `station` at
/// the moment `at`. The label stands without the white space around it.
pub open spec fn annotated(track: Json, station: Seq<char>, at: MomentModel) -> ResultModel {
    ResultModel {
        document: annotated_document(track, trimmed(station), at.text),
        station: trimmed(station),
        time: at.text,
    }
}

/// Annotates the recognized `track` with the station's label and the time
/// of capture.
pub fn annotate(track: serde_json::Value, station: &str, at: &Timestamp) -> (result:
    RecognitionResult)
    ensures
        result@ == annotated(json_model(track), station@, at@),
{
    let label = trim(station);
    let time = at.text().to_owned();
    let mut document = track;
    if is_object(&document) {
        insert_text(&mut document, "station", label.as_str());
        insert_text(&mut document, "time", time.as_str());
    }
    RecognitionResult { document, station: label, time }
}

impl RecognitionResult {
    /// The annotated document: the body that is sent to the endpoint.
    pub fn document(&self) -> (document: &serde_json::Value)
        ensures
            json_model(*document) == self@.document,
    {
        &self.document
    }

    /// The station's label.
    pub fn station(&self) -> (station: &str)
        ensures
            station@ == self@.station,
    {
        self.station.as_str()
    }

    /// The time of capture, in RFC 3339.
    pub fn time(&self) -> (time: &str)
        ensures
            time@ == self@.time,
    {
        self.time.as_str()
    }
}

/// Annotation adds to an object and takes nothing away: the members
/// `station` and `time` hold the two texts, and every other member of the
/// track is there as it was.
pub proof fn lemma_annotation_keeps_the_track(
    members: Map<Seq<char>, Json>,
    station: Seq<char>,
    time: Seq<char>,
    key: Seq<char>,
)
    ensures
        annotated_document(Json::Object(members), station, time) matches Json::Object(all) && {
            &&& all.dom() == members.dom().insert("station"@).insert("time"@)
            &&& all["time"@] == Json::Text(time)
            &&& all["station"@] == Json::Text(station)
            &&& key != "station"@ && key != "time"@ && members.dom().contains(key) ==> all[key]
                == members[key]
        },
{
    reveal_strlit("station");
    reveal_strlit("time");
    assert("station"@.len() != "time"@.len());
    let all = members.insert("station"@, Json::Text(station)).insert("time"@, Json::Text(time));
    assert(all.dom() =~= members.dom().insert("station"@).insert("time"@));
}

/// What became of one attempt to deliver a result. It is kept for the
/// record, and decides nothing.
#[derive(Debug, Clone, Copy, PartialEq, Eq, Structural)]
pub enum PublishReport {
    /// The endpoint answered, with this HTTP status.
    Answered { status: u16 },
    /// The request did not get through.
    Undelivered,
}

} // verus!
