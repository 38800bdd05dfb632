//! The messaging-platform exchange: the alert message body, and the reading
//! of the platform's answer.
//!
//! The alert is a structured message: a greeting that mentions the channel,
//! a divider, the configured free-text message, and a contextual line with
//! the measured value printed to two decimal places and its "ppm" unit. The
//! platform can report logical failure in its response body despite HTTP
//! success, so the body's ok indicator is inspected, not just the status.

use vstd::prelude::*;
use vstd::string::StringExecFns;
use crate::document::{member_spec, DocNode};
use crate::escape::{json_escaped, push_json_escaped};
use crate::jsonval::{json_doc_of, json_parse, json_parses};
use crate::ppm::{format_centi_spec, format_value, Ppm};

verus! {

#[derive(Clone, Copy, Debug, PartialEq, Eq, Structural)]
pub enum NotifyError {
    /// The platform could not be reached at all.
    Transport,
    /// The platform rejected the credential.
    Auth,
    /// The response body is not valid JSON, or reports logical failure.
    MalformedResponse,
}

/// What the outside HTTP call produced: a transport-level failure, or a
/// status code with the response body.
pub enum NotifyOutcome {
    Transport,
    Http(u16, String),
}

/// The JSON body posted to the message endpoint: the channel, then blocks
/// for the greeting, a divider, the configured message, and the contextual
/// measurement line.
pub open spec fn alert_body_spec(channel: Seq<char>, message: Seq<char>, centi: int) -> Seq<char> {
    "{\"channel\":\""@ + json_escaped(channel)
        + "\",\"blocks\":[{\"type\":\"section\",\"text\":{\"type\":\"mrkdwn\",\"text\":\"Hey there, \u{1F44B} @channel\"}},{\"type\":\"divider\"},{\"type\":\"section\",\"text\":{\"type\":\"plain_text\",\"text\":\""@
        + json_escaped(message)
        + "\",\"emoji\":true}},{\"type\":\"context\",\"elements\":[{\"type\":\"plain_text\",\"text\":\"\u{1F321}\u{FE0F} Current CO2 Level: "@
        + format_centi_spec(centi) + "ppm.\",\"emoji\":true}]}]}"@
}

/// Builds the alert message body for a measured value, with the channel and
/// the message template escaped into the JSON text.
pub fn build_alert_message(channel: &str, message: &str, value: Ppm) -> (r: String)
    ensures
        r@ == alert_body_spec(channel@, message@, value.centi as int),
{
    let mut out = String::from_str("{\"channel\":\"");
    push_json_escaped(&mut out, channel);
    out.append(
        "\",\"blocks\":[{\"type\":\"section\",\"text\":{\"type\":\"mrkdwn\",\"text\":\"Hey there, \u{1F44B} @channel\"}},{\"type\":\"divider\"},{\"type\":\"section\",\"text\":{\"type\":\"plain_text\",\"text\":\"",
    );
    push_json_escaped(&mut out, message);
    out.append(
        "\",\"emoji\":true}},{\"type\":\"context\",\"elements\":[{\"type\":\"plain_text\",\"text\":\"\u{1F321}\u{FE0F} Current CO2 Level: ",
    );
    let value_text = format_value(value);
    out.append(value_text.as_str());
    out.append("ppm.\",\"emoji\":true}]}]}");
    proof {
        assert(out@ =~= alert_body_spec(channel@, message@, value.centi as int));
    }
    out
}

/// Whether a response document reports logical success: its top-level `ok`
/// member is `true`.
pub open spec fn ok_indicator(doc: DocNode) -> bool {
    member_spec(doc, "ok"@) == Some(DocNode::Bool(true))
}

/// Turns the outcome of the message post into success or an error: a
/// transport failure stays a transport failure, an auth status is an auth
/// error, an unparsable body is malformed, and a parsed body succeeds
/// exactly when its ok indicator is true — an absent or false indicator is
/// logical failure despite HTTP success.
pub fn process_notify(outcome: NotifyOutcome) -> (r: Result<(), NotifyError>)
    ensures
        (outcome matches NotifyOutcome::Transport) ==> r == Err::<(), NotifyError>(
            NotifyError::Transport,
        ),
        outcome matches NotifyOutcome::Http(status, body) ==> ((status == 401 || status == 403)
            ==> r == Err::<(), NotifyError>(NotifyError::Auth)),
        outcome matches NotifyOutcome::Http(status, body) ==> ((status != 401 && status != 403
            && !json_parses(body@)) ==> r == Err::<(), NotifyError>(NotifyError::MalformedResponse)),
        outcome matches NotifyOutcome::Http(status, body) ==> ((status != 401 && status != 403)
            ==> match json_doc_of(body@) {
            None => r == Err::<(), NotifyError>(NotifyError::MalformedResponse),
            Some(doc) => r == if ok_indicator(doc) {
                Ok::<(), NotifyError>(())
            } else {
                Err::<(), NotifyError>(NotifyError::MalformedResponse)
            },
        }),
        r matches Err(e) ==> (e == NotifyError::Transport || e == NotifyError::Auth || e
            == NotifyError::MalformedResponse),
{
    match outcome {
        NotifyOutcome::Transport => Err(NotifyError::Transport),
        NotifyOutcome::Http(status, body) => {
            if status == 401 || status == 403 {
                Err(NotifyError::Auth)
            } else {
                match json_parse(body.as_str()) {
                    None => Err(NotifyError::MalformedResponse),
                    Some(root) => {
                        let ok = match root.member("ok") {
                            Some(n) => {
                                match n {
                                    DocNode::Bool(b) => *b,
                                    _ => false,
                                }
                            },
                            None => false,
                        };
                        if ok {
                            Ok(())
                        } else {
                            Err(NotifyError::MalformedResponse)
                        }
                    },
                }
            }
        },
    }
}

} // verus!
