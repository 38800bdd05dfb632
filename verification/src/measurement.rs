//! The measurement set returned by the sensor platform, and field extraction.
//!
//! A device reports an ordered sequence of named readings. The monitor treats
//! the first record whose field name equals the target as authoritative;
//! later duplicates are ignored. A missing record, or a matched record whose
//! value was not numeric, is a fatal condition, never a default value.

use vstd::prelude::*;
use crate::ppm::Ppm;
use crate::text::strings_equal;

verus! {

/// One reading of one sensor channel. `value` is `None` where the platform
/// sent something non-numeric for it, and also where the number's decimal
/// text is not a plain decimal numeral the library accepts (exponent form,
/// or more than fifteen integer digits); `modified` is the platform's opaque
/// last-modified timestamp.
pub struct Measurement {
    pub field_name: String,
    pub value: Option<Ppm>,
    pub modified: String,
}

/// The ordered sequence of current readings for one device.
pub struct MeasurementSet {
    pub records: Vec<Measurement>,
}

/// The target measurement is absent, or its value was not numeric.
#[derive(Clone, Copy, Debug, PartialEq, Eq, Structural)]
pub struct FieldNotFoundError;

/// The value of the first record named `name`: its value where that record
/// carries a number, an error where it does not or no record matches.
pub open spec fn extract_spec(s: Seq<Measurement>, name: Seq<char>) -> Result<
    Ppm,
    FieldNotFoundError,
>
    decreases s.len(),
{
    if s.len() == 0 {
        Err(FieldNotFoundError)
    } else if s[0].field_name@ == name {
        match s[0].value {
            Some(p) => Ok(p),
            None => Err(FieldNotFoundError),
        }
    } else {
        extract_spec(s.drop_first(), name)
    }
}

/// Extraction never fabricates a value: where no record in the set carries
/// the name, extraction fails.
pub proof fn lemma_extract_absent(s: Seq<Measurement>, name: Seq<char>)
    requires
        forall|i: int| 0 <= i < s.len() ==> (#[trigger] s[i]).field_name@ != name,
    ensures
        extract_spec(s, name) == Err::<Ppm, FieldNotFoundError>(FieldNotFoundError),
    decreases s.len(),
{
    if s.len() > 0 {
        assert(forall|i: int|
            0 <= i < s.drop_first().len() ==> (#[trigger] s.drop_first()[i]).field_name@ != name);
        lemma_extract_absent(s.drop_first(), name);
    }
}

/// The first matching record is authoritative: extraction returns its value
/// (or fails on it), whatever any later duplicate carries.
pub proof fn lemma_extract_first_match(s: Seq<Measurement>, name: Seq<char>, i: int)
    requires
        0 <= i < s.len(),
        s[i].field_name@ == name,
        forall|j: int| 0 <= j < i ==> (#[trigger] s[j]).field_name@ != name,
    ensures
        extract_spec(s, name) == match s[i].value {
            Some(p) => Ok::<Ppm, FieldNotFoundError>(p),
            None => Err::<Ppm, FieldNotFoundError>(FieldNotFoundError),
        },
    decreases s.len(),
{
    if i > 0 {
        assert(forall|j: int|
            0 <= j < i - 1 ==> (#[trigger] s.drop_first()[j]).field_name@ != name);
        assert(s.drop_first()[i - 1] == s[i]);
        lemma_extract_first_match(s.drop_first(), name, i - 1);
    }
}

/// The field the monitor watches.
pub open spec fn co2_field_spec() -> Seq<char> {
    "CO2_CONCENTRATION"@
}

pub fn co2_field_name() -> (r: &'static str)
    ensures
        r@ == co2_field_spec(),
{
    "CO2_CONCENTRATION"
}

impl MeasurementSet {
    /// Scans the records in order and returns the value of the first one
    /// named `field_name`; fails if none matches or the matched record's
    /// value was not numeric.
    pub fn extract_value(&self, field_name: &str) -> (r: Result<Ppm, FieldNotFoundError>)
        ensures
            r == extract_spec(self.records@, field_name@),
    {
        let n = self.records.len();
        let mut i: usize = 0;
        proof {
            assert(self.records@.skip(0) =~= self.records@);
        }
        while i < n
            invariant
                n == self.records@.len(),
                i <= n,
                extract_spec(self.records@, field_name@) == extract_spec(
                    self.records@.skip(i as int),
                    field_name@,
                ),
                forall|j: int| 0 <= j < i ==> self.records@[j].field_name@ != field_name@,
            decreases n - i,
        {
            let rec = &self.records[i];
            proof {
                assert(self.records@.skip(i as int)[0] == self.records@[i as int]);
            }
            if strings_equal(rec.field_name.as_str(), field_name) {
                match rec.value {
                    Some(p) => {
                        return Ok(p);
                    },
                    None => {
                        return Err(FieldNotFoundError);
                    },
                }
            }
            proof {
                assert(self.records@.skip(i as int).drop_first() =~= self.records@.skip(
                    i + 1,
                ));
            }
            i += 1;
        }
        proof {
            assert(self.records@.skip(n as int) =~= Seq::<Measurement>::empty());
        }
        Err(FieldNotFoundError)
    }

    /// Extraction fixed to the CO2 concentration field.
    pub fn extract_co2(&self) -> (r: Result<Ppm, FieldNotFoundError>)
        ensures
            r == extract_spec(self.records@, co2_field_spec()),
    {
        self.extract_value(co2_field_name())
    }
}

} // verus!
