//! Configuration resolution and validation.
//!
//! The monitor needs six settings: the sensor API key, the device
//! identifier, the alert threshold, and the notification token, channel and
//! message template. Absence of any of them is an error naming the field —
//! never a silent default, since a defaulted threshold would change alerting
//! behaviour invisibly. An unparsable source is a distinct error.

use vstd::prelude::*;
use crate::document::{member_spec, DocNode};
use crate::ppm::{decimal_centi, parse_decimal, Ppm};
use crate::yamlval::{yaml_doc_of, yaml_parse, yaml_parses};

verus! {

/// The required configuration fields, for naming the one that is missing.
#[derive(Clone, Copy, Debug, PartialEq, Eq, Structural)]
pub enum ConfigField {
    SensorApiKey,
    DeviceId,
    Threshold,
    NotifyToken,
    NotifyChannel,
    NotifyMessage,
}

#[derive(Clone, Copy, Debug, PartialEq, Eq, Structural)]
pub enum ConfigError {
    /// The configuration source was not parsable at all.
    Parse,
    /// A required field is absent or empty.
    Missing(ConfigField),
    /// The threshold is present but is not a decimal numeral.
    InvalidThreshold,
}

/// The raw settings as read from the source, before validation: each field
/// `None` where the source did not carry it. The threshold is still the
/// decimal text found in the source.
pub struct RawConfig {
    pub sensor_api_key: Option<String>,
    pub device_id: Option<String>,
    pub threshold: Option<String>,
    pub notify_token: Option<String>,
    pub notify_channel: Option<String>,
    pub notify_message: Option<String>,
}

/// A resolved configuration: every field present and validated.
pub struct Config {
    pub sensor_api_key: String,
    pub device_id: String,
    pub threshold: Ppm,
    pub notify_token: String,
    pub notify_channel: String,
    pub notify_message: String,
}

pub open spec fn config_wf(c: Config) -> bool {
    &&& c.sensor_api_key@.len() > 0
    &&& c.device_id@.len() > 0
    &&& c.notify_token@.len() > 0
    &&& c.notify_channel@.len() > 0
    &&& c.notify_message@.len() > 0
}

pub open spec fn present_nonempty(o: Option<String>) -> bool {
    match o {
        Some(s) => s@.len() > 0,
        None => false,
    }
}

/// What resolution returns: the first absent or empty field in a fixed
/// order, then threshold validity, then the resolved record.
pub open spec fn resolve_spec(raw: RawConfig) -> Result<Config, ConfigError> {
    if !present_nonempty(raw.sensor_api_key) {
        Err(ConfigError::Missing(ConfigField::SensorApiKey))
    } else if !present_nonempty(raw.device_id) {
        Err(ConfigError::Missing(ConfigField::DeviceId))
    } else if !present_nonempty(raw.threshold) {
        Err(ConfigError::Missing(ConfigField::Threshold))
    } else if decimal_centi(raw.threshold.unwrap()@) is None {
        Err(ConfigError::InvalidThreshold)
    } else if !present_nonempty(raw.notify_token) {
        Err(ConfigError::Missing(ConfigField::NotifyToken))
    } else if !present_nonempty(raw.notify_channel) {
        Err(ConfigError::Missing(ConfigField::NotifyChannel))
    } else if !present_nonempty(raw.notify_message) {
        Err(ConfigError::Missing(ConfigField::NotifyMessage))
    } else {
        Ok(
            Config {
                sensor_api_key: raw.sensor_api_key.unwrap(),
                device_id: raw.device_id.unwrap(),
                threshold: Ppm { centi: decimal_centi(raw.threshold.unwrap()@).unwrap() as i64 },
                notify_token: raw.notify_token.unwrap(),
                notify_channel: raw.notify_channel.unwrap(),
                notify_message: raw.notify_message.unwrap(),
            },
        )
    }
}

fn take_nonempty(o: Option<String>, field: ConfigField) -> (r: Result<String, ConfigError>)
    ensures
        match r {
            Ok(s) => present_nonempty(o) && o == Some::<String>(s),
            Err(e) => !present_nonempty(o) && e == ConfigError::Missing(field),
        },
{
    match o {
        Some(s) => {
            if s.as_str().is_empty() {
                Err(ConfigError::Missing(field))
            } else {
                Ok(s)
            }
        },
        None => Err(ConfigError::Missing(field)),
    }
}

/// Validates the raw settings: every field must be present and non-empty,
/// and the threshold must be a decimal numeral.
pub fn resolve(raw: RawConfig) -> (r: Result<Config, ConfigError>)
    ensures
        r == resolve_spec(raw),
{
    let sensor_api_key = match take_nonempty(raw.sensor_api_key, ConfigField::SensorApiKey) {
        Ok(s) => s,
        Err(e) => {
            return Err(e);
        },
    };
    let device_id = match take_nonempty(raw.device_id, ConfigField::DeviceId) {
        Ok(s) => s,
        Err(e) => {
            return Err(e);
        },
    };
    let threshold_text = match take_nonempty(raw.threshold, ConfigField::Threshold) {
        Ok(s) => s,
        Err(e) => {
            return Err(e);
        },
    };
    let threshold = match parse_decimal(threshold_text.as_str()) {
        Some(p) => p,
        None => {
            return Err(ConfigError::InvalidThreshold);
        },
    };
    let notify_token = match take_nonempty(raw.notify_token, ConfigField::NotifyToken) {
        Ok(s) => s,
        Err(e) => {
            return Err(e);
        },
    };
    let notify_channel = match take_nonempty(raw.notify_channel, ConfigField::NotifyChannel) {
        Ok(s) => s,
        Err(e) => {
            return Err(e);
        },
    };
    let notify_message = match take_nonempty(raw.notify_message, ConfigField::NotifyMessage) {
        Ok(s) => s,
        Err(e) => {
            return Err(e);
        },
    };
    Ok(
        Config {
            sensor_api_key,
            device_id,
            threshold,
            notify_token,
            notify_channel,
            notify_message,
        },
    )
}

pub open spec fn opt_text(o: Option<String>) -> Option<Seq<char>> {
    match o {
        Some(s) => Some(s@),
        None => None,
    }
}

/// The text of a string member, `None` where it is absent or not a string.
pub open spec fn str_member(doc: DocNode, key: Seq<char>) -> Option<Seq<char>> {
    match member_spec(doc, key) {
        Some(DocNode::Str(s)) => Some(s@),
        _ => None,
    }
}

pub open spec fn nested_str_member(doc: DocNode, outer: Seq<char>, key: Seq<char>) -> Option<
    Seq<char>,
> {
    match member_spec(doc, outer) {
        Some(inner) => str_member(inner, key),
        None => None,
    }
}

/// The threshold's text: the number (or the string holding one) under the
/// top-level `threshold` key.
pub open spec fn threshold_text(doc: DocNode) -> Option<Seq<char>> {
    match member_spec(doc, "threshold"@) {
        Some(DocNode::Num(t)) => Some(t@),
        Some(DocNode::Str(t)) => Some(t@),
        _ => None,
    }
}

/// Each raw field carries exactly what the document holds at its place: the
/// sensor key under `datacake.key`, the device and threshold at the top
/// level, and the notification settings under `slack`.
pub open spec fn raw_matches_doc(raw: RawConfig, doc: DocNode) -> bool {
    &&& opt_text(raw.sensor_api_key) == nested_str_member(doc, "datacake"@, "key"@)
    &&& opt_text(raw.device_id) == str_member(doc, "device"@)
    &&& opt_text(raw.threshold) == threshold_text(doc)
    &&& opt_text(raw.notify_token) == nested_str_member(doc, "slack"@, "token"@)
    &&& opt_text(raw.notify_channel) == nested_str_member(doc, "slack"@, "channel"@)
    &&& opt_text(raw.notify_message) == nested_str_member(doc, "slack"@, "message"@)
}

fn lookup_str(doc: &DocNode, key: &str) -> (r: Option<String>)
    ensures
        opt_text(r) == str_member(*doc, key@),
{
    match doc.member(key) {
        Some(n) => {
            match n {
                DocNode::Str(s) => Some(s.clone()),
                _ => None,
            }
        },
        None => None,
    }
}

fn lookup_nested_str(doc: &DocNode, outer: &str, key: &str) -> (r: Option<String>)
    ensures
        opt_text(r) == nested_str_member(*doc, outer@, key@),
{
    match doc.member(outer) {
        Some(inner) => lookup_str(inner, key),
        None => None,
    }
}

fn lookup_threshold(doc: &DocNode) -> (r: Option<String>)
    ensures
        opt_text(r) == threshold_text(*doc),
{
    match doc.member("threshold") {
        Some(n) => {
            match n {
                DocNode::Num(t) => Some(t.clone()),
                DocNode::Str(t) => Some(t.clone()),
                _ => None,
            }
        },
        None => None,
    }
}

/// Reads the raw settings out of YAML configuration text; parsable text
/// always yields the settings the document carries at the fixed places.
pub fn read_raw_config(text: &str) -> (r: Result<RawConfig, ConfigError>)
    ensures
        !yaml_parses(text@) ==> r == Err::<RawConfig, ConfigError>(ConfigError::Parse),
        yaml_parses(text@) ==> (r matches Ok(raw) && (yaml_doc_of(text@) matches Some(doc)
            && raw_matches_doc(raw, doc))),
        r is Err ==> r == Err::<RawConfig, ConfigError>(ConfigError::Parse),
{
    let root = match yaml_parse(text) {
        Some(v) => v,
        None => {
            return Err(ConfigError::Parse);
        },
    };
    Ok(
        RawConfig {
            sensor_api_key: lookup_nested_str(&root, "datacake", "key"),
            device_id: lookup_str(&root, "device"),
            threshold: lookup_threshold(&root),
            notify_token: lookup_nested_str(&root, "slack", "token"),
            notify_channel: lookup_nested_str(&root, "slack", "channel"),
            notify_message: lookup_nested_str(&root, "slack", "message"),
        },
    )
}

/// Resolves configuration straight from YAML text: unparsable text is a
/// parse error, and the settings the document carries are validated field by
/// field, exactly as `resolve` validates them.
pub fn resolve_from_text(text: &str) -> (r: Result<Config, ConfigError>)
    ensures
        !yaml_parses(text@) ==> r == Err::<Config, ConfigError>(ConfigError::Parse),
        r matches Ok(c) ==> config_wf(c),
        yaml_parses(text@) ==> (yaml_doc_of(text@) matches Some(doc) && exists|raw: RawConfig|
            #[trigger] resolve_spec(raw) == r && raw_matches_doc(raw, doc)),
{
    match read_raw_config(text) {
        Ok(raw) => {
            let ghost graw = raw;
            let r = resolve(raw);
            proof {
                if yaml_parses(text@) {
                    assert(resolve_spec(graw) == r);
                }
            }
            r
        },
        Err(e) => Err(e),
    }
}

} // verus!
