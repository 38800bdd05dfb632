//! The sensor-platform exchange: the request body sent to the GraphQL
//! endpoint, and the reading of what came back.
//!
//! The transport itself stays outside the library; the caller performs the
//! HTTP POST and hands back either a transport failure or the status and
//! body. Everything from there on — classifying the outcome, parsing the
//! body, walking down to `data.device.currentMeasurements` and turning each
//! record into a measurement — happens here, and the result is pinned to the
//! parsed document.

use vstd::prelude::*;
use vstd::string::StringExecFns;
use crate::document::{member_spec, DocNode};
use crate::escape::{json_escaped, push_json_escaped};
use crate::jsonval::{json_doc_of, json_parse, json_parses};
use crate::measurement::{Measurement, MeasurementSet};
use crate::ppm::{decimal_centi, parse_decimal, Ppm};

verus! {

#[derive(Clone, Copy, Debug, PartialEq, Eq, Structural)]
pub enum FetchError {
    /// The platform could not be reached at all.
    Transport,
    /// The platform rejected the credential.
    Auth,
    /// The response body is not valid JSON or lacks the expected shape.
    MalformedResponse,
}

/// What the outside HTTP call produced: a transport-level failure, or a
/// status code with the response body.
pub enum FetchOutcome {
    Transport,
    Http(u16, String),
}

/// The JSON request body asking for all currently-active measurement fields
/// of one device.
pub open spec fn measure_query_spec(device_id: Seq<char>) -> Seq<char> {
    "{\"query\":\"query($deviceId:String!){device(deviceId:$deviceId){currentMeasurements(allActiveFields:true){value field{verboseFieldName fieldName}modified}}}\",\"variables\":{\"deviceId\":\""@
        + json_escaped(device_id) + "\"}}"@
}

/// Builds the request body for the measurement query, with the device
/// identifier escaped into the JSON text.
pub fn build_measure_query(device_id: &str) -> (r: String)
    ensures
        r@ == measure_query_spec(device_id@),
{
    let mut out = String::from_str(
        "{\"query\":\"query($deviceId:String!){device(deviceId:$deviceId){currentMeasurements(allActiveFields:true){value field{verboseFieldName fieldName}modified}}}\",\"variables\":{\"deviceId\":\"",
    );
    push_json_escaped(&mut out, device_id);
    out.append("\"}}");
    proof {
        assert(out@ =~= measure_query_spec(device_id@));
    }
    out
}

/// The records of a response document: the array under
/// `data.device.currentMeasurements`, or `None` where that path is absent.
pub open spec fn measurements_in(doc: DocNode) -> Option<Seq<DocNode>> {
    match member_spec(doc, "data"@) {
        Some(data) => match member_spec(data, "device"@) {
            Some(device) => match member_spec(device, "currentMeasurements"@) {
                Some(DocNode::Arr(records)) => Some(records@),
                _ => None,
            },
            None => None,
        },
        None => None,
    }
}

/// One record's field name: the text under `field.fieldName`, empty where
/// the record carries none (such a record matches no lookup).
pub open spec fn record_name_view(m: DocNode) -> Seq<char> {
    match member_spec(m, "field"@) {
        Some(f) => match member_spec(f, "fieldName"@) {
            Some(DocNode::Str(s)) => s@,
            _ => Seq::empty(),
        },
        None => Seq::empty(),
    }
}

/// One record's value: its number under `value` read as hundredths, `None`
/// where it is absent, non-numeric, or not a plain decimal numeral.
pub open spec fn record_value(m: DocNode) -> Option<Ppm> {
    match member_spec(m, "value"@) {
        Some(DocNode::Num(t)) => match decimal_centi(t@) {
            Some(v) => Some(Ppm { centi: v as i64 }),
            None => None,
        },
        _ => None,
    }
}

/// One record's last-modified text, empty where it is absent or not text.
pub open spec fn record_modified_view(m: DocNode) -> Seq<char> {
    match member_spec(m, "modified"@) {
        Some(DocNode::Str(s)) => s@,
        _ => Seq::empty(),
    }
}

/// The measurements correspond, record for record, to the document's array.
pub open spec fn records_match(records: Seq<Measurement>, arr: Seq<DocNode>) -> bool {
    &&& records.len() == arr.len()
    &&& forall|i: int|
        0 <= i < arr.len() ==> {
            &&& (#[trigger] records[i]).field_name@ == record_name_view(arr[i])
            &&& records[i].value == record_value(arr[i])
            &&& records[i].modified@ == record_modified_view(arr[i])
        }
}

fn decode_record(m: &DocNode) -> (r: Measurement)
    ensures
        r.field_name@ == record_name_view(*m),
        r.value == record_value(*m),
        r.modified@ == record_modified_view(*m),
{
    let field_name: String = match m.member("field") {
        Some(f) => {
            match f.member("fieldName") {
                Some(n) => {
                    match n {
                        DocNode::Str(s) => s.clone(),
                        _ => String::new(),
                    }
                },
                None => String::new(),
            }
        },
        None => String::new(),
    };
    let value: Option<Ppm> = match m.member("value") {
        Some(v) => {
            match v {
                DocNode::Num(t) => parse_decimal(t.as_str()),
                _ => None,
            }
        },
        None => None,
    };
    let modified: String = match m.member("modified") {
        Some(v) => {
            match v {
                DocNode::Str(s) => s.clone(),
                _ => String::new(),
            }
        },
        None => String::new(),
    };
    Measurement { field_name, value, modified }
}

/// Reads the records under `data.device.currentMeasurements` into the
/// library's own measurement set; a document without that array is
/// malformed, and a document with it always yields the corresponding set.
fn decode_measurements(doc: &DocNode) -> (r: Result<MeasurementSet, FetchError>)
    ensures
        measurements_in(*doc) matches Some(arr) ==> (r matches Ok(set) && records_match(
            set.records@,
            arr,
        )),
        measurements_in(*doc) is None ==> r == Err::<MeasurementSet, FetchError>(
            FetchError::MalformedResponse,
        ),
{
    let data = match doc.member("data") {
        Some(v) => v,
        None => {
            return Err(FetchError::MalformedResponse);
        },
    };
    let device = match data.member("device") {
        Some(v) => v,
        None => {
            return Err(FetchError::MalformedResponse);
        },
    };
    let current = match device.member("currentMeasurements") {
        Some(v) => v,
        None => {
            return Err(FetchError::MalformedResponse);
        },
    };
    let arr = match current {
        DocNode::Arr(records) => records,
        _ => {
            return Err(FetchError::MalformedResponse);
        },
    };
    let mut records: Vec<Measurement> = Vec::new();
    let n = arr.len();
    let mut i: usize = 0;
    while i < n
        invariant
            n == arr@.len(),
            i <= n,
            records@.len() == i,
            forall|j: int|
                0 <= j < i ==> {
                    &&& (#[trigger] records@[j]).field_name@ == record_name_view(arr@[j])
                    &&& records@[j].value == record_value(arr@[j])
                    &&& records@[j].modified@ == record_modified_view(arr@[j])
                },
        decreases n - i,
    {
        let rec = decode_record(&arr[i]);
        records.push(rec);
        i += 1;
    }
    Ok(MeasurementSet { records })
}

/// Turns the outcome of the sensor call into a measurement set or an error:
/// a transport failure stays a transport failure, an auth status is an auth
/// error, an unparsable body or one without the measurement array is
/// malformed, and any other body yields exactly the measurements the
/// document carries.
pub fn process_fetch(outcome: FetchOutcome) -> (r: Result<MeasurementSet, FetchError>)
    ensures
        (outcome matches FetchOutcome::Transport) ==> r == Err::<MeasurementSet, FetchError>(
            FetchError::Transport,
        ),
        outcome matches FetchOutcome::Http(status, body) ==> ((status == 401 || status == 403)
            ==> r == Err::<MeasurementSet, FetchError>(FetchError::Auth)),
        outcome matches FetchOutcome::Http(status, body) ==> ((status != 401 && status != 403
            && !json_parses(body@)) ==> r == Err::<MeasurementSet, FetchError>(
            FetchError::MalformedResponse,
        )),
        outcome matches FetchOutcome::Http(status, body) ==> ((status != 401 && status != 403)
            ==> match json_doc_of(body@) {
            None => r == Err::<MeasurementSet, FetchError>(FetchError::MalformedResponse),
            Some(doc) => match measurements_in(doc) {
                None => r == Err::<MeasurementSet, FetchError>(FetchError::MalformedResponse),
                Some(arr) => r matches Ok(set) && records_match(set.records@, arr),
            },
        }),
        r matches Err(e) ==> (e == FetchError::Transport || e == FetchError::Auth || e
            == FetchError::MalformedResponse),
{
    match outcome {
        FetchOutcome::Transport => Err(FetchError::Transport),
        FetchOutcome::Http(status, body) => {
            if status == 401 || status == 403 {
                Err(FetchError::Auth)
            } else {
                match json_parse(body.as_str()) {
                    None => Err(FetchError::MalformedResponse),
                    Some(root) => decode_measurements(&root),
                }
            }
        },
    }
}

} // verus!

