//! The alerting decision: extraction, threshold comparison, and what one
//! run has to send.
//!
//! The decision is strictly-greater-than: a reading equal to the threshold
//! does not alert. Given a measurement set and a resolved configuration,
//! `run_decision` produces everything observable about a run short of the
//! outbound calls: the extracted value, its printed form, and the alert
//! message to post — or the extraction failure that ends the run.

use vstd::prelude::*;
use crate::config::Config;
use crate::measurement::{co2_field_spec, extract_spec, FieldNotFoundError, MeasurementSet};
use crate::notify::{alert_body_spec, build_alert_message};
use crate::ppm::{format_centi_spec, format_value, Ppm};

verus! {

pub open spec fn should_alert_spec(value: int, threshold: int) -> bool {
    value > threshold
}

/// Whether a measured value warrants an alert: strictly above the
/// threshold; equality does not trigger.
pub fn should_alert(value: Ppm, threshold: Ppm) -> (r: bool)
    ensures
        r == should_alert_spec(value.centi as int, threshold.centi as int),
{
    value.centi > threshold.centi
}

/// Everything one successful run reports: the extracted value, its printed
/// two-decimal form, and the alert body to post where the threshold was
/// exceeded.
pub struct RunReport {
    pub value: Ppm,
    pub value_text: String,
    pub notification: Option<String>,
}

/// Decides one run from a fetched measurement set: extracts the CO2
/// reading, formats it, and builds the alert message exactly when the
/// reading is strictly above the configured threshold.
pub fn run_decision(set: &MeasurementSet, config: &Config) -> (r: Result<
    RunReport,
    FieldNotFoundError,
>)
    ensures
        r matches Ok(rep) ==> {
            &&& extract_spec(set.records@, co2_field_spec()) == Ok::<Ppm, FieldNotFoundError>(
                rep.value,
            )
            &&& rep.value_text@ == format_centi_spec(rep.value.centi as int)
            &&& (rep.notification is Some) == should_alert_spec(
                rep.value.centi as int,
                config.threshold.centi as int,
            )
            &&& rep.notification matches Some(body) ==> body@ == alert_body_spec(
                config.notify_channel@,
                config.notify_message@,
                rep.value.centi as int,
            )
        },
        r matches Err(e) ==> extract_spec(set.records@, co2_field_spec()) == Err::<
            Ppm,
            FieldNotFoundError,
        >(e),
{
    let value = match set.extract_co2() {
        Ok(v) => v,
        Err(e) => {
            return Err(e);
        },
    };
    let value_text = format_value(value);
    let notification = if should_alert(value, config.threshold) {
        Some(
            build_alert_message(
                config.notify_channel.as_str(),
                config.notify_message.as_str(),
                value,
            ),
        )
    } else {
        None
    };
    Ok(RunReport { value, value_text, notification })
}

} // verus!
