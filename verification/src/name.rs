//! The closed set of supported sensor types.

use vstd::prelude::*;

verus! {

/// Identity of a supported sensor type. The canonical text form is the
/// upper-case name; parsing is case-insensitive.
#[derive(Copy, Clone, PartialEq, Eq, Structural, Debug)]
pub enum SensorName {
    Bme680,
    Ens160,
    Pmsa003i,
    Scd30,
    Scd40,
    Scd41,
    Sht41,
    Sgp30,
    Sen55,
}

impl SensorName {
    pub open spec fn spec_str(self) -> Seq<char> {
        match self {
            SensorName::Bme680 => "BME680"@,
            SensorName::Ens160 => "ENS160"@,
            SensorName::Pmsa003i => "PMSA003I"@,
            SensorName::Scd30 => "SCD30"@,
            SensorName::Scd40 => "SCD40"@,
            SensorName::Scd41 => "SCD41"@,
            SensorName::Sht41 => "SHT41"@,
            SensorName::Sgp30 => "SGP30"@,
            SensorName::Sen55 => "SEN55"@,
        }
    }

    /// The canonical (upper-case) name.
    pub fn as_str(&self) -> (r: &'static str)
        ensures
            r@ == self.spec_str(),
    {
        match self {
            SensorName::Bme680 => "BME680",
            SensorName::Ens160 => "ENS160",
            SensorName::Pmsa003i => "PMSA003I",
            SensorName::Scd30 => "SCD30",
            SensorName::Scd40 => "SCD40",
            SensorName::Scd41 => "SCD41",
            SensorName::Sht41 => "SHT41",
            SensorName::Sgp30 => "SGP30",
            SensorName::Sen55 => "SEN55",
        }
    }

    /// The canonical name as an owned string.
    pub fn to_string(&self) -> (r: String)
        ensures
            r@ == self.spec_str(),
    {
        self.as_str().to_owned()
    }

    /// Upper-casing of one ASCII character, the folding `parse` applies.
    pub open spec fn spec_upper(c: char) -> char {
        if 97 <= c as u32 && c as u32 <= 122 {
            ((c as u32) - 32) as char
        } else {
            c
        }
    }

    /// `s` folded to upper case, character by character.
    pub open spec fn spec_fold_upper(s: Seq<char>) -> Seq<char> {
        s.map_values(|c: char| SensorName::spec_upper(c))
    }

    /// Which identity, if any, a text names: the one whose canonical name
    /// equals the input folded to upper case.
    pub open spec fn spec_parse(s: Seq<char>) -> Option<SensorName> {
        if SensorName::spec_fold_upper(s) == "BME680"@ {
            Some(SensorName::Bme680)
        } else if SensorName::spec_fold_upper(s) == "ENS160"@ {
            Some(SensorName::Ens160)
        } else if SensorName::spec_fold_upper(s) == "PMSA003I"@ {
            Some(SensorName::Pmsa003i)
        } else if SensorName::spec_fold_upper(s) == "SCD30"@ {
            Some(SensorName::Scd30)
        } else if SensorName::spec_fold_upper(s) == "SCD40"@ {
            Some(SensorName::Scd40)
        } else if SensorName::spec_fold_upper(s) == "SCD41"@ {
            Some(SensorName::Scd41)
        } else if SensorName::spec_fold_upper(s) == "SHT41"@ {
            Some(SensorName::Sht41)
        } else if SensorName::spec_fold_upper(s) == "SGP30"@ {
            Some(SensorName::Sgp30)
        } else if SensorName::spec_fold_upper(s) == "SEN55"@ {
            Some(SensorName::Sen55)
        } else {
            None
        }
    }

    /// Parse a sensor name, ignoring ASCII case.
    pub fn parse(s: &str) -> (r: Option<SensorName>)
        ensures
            r == SensorName::spec_parse(s@),
    {
        if eq_folded(s, SensorName::Bme680.as_str()) {
            Some(SensorName::Bme680)
        } else if eq_folded(s, SensorName::Ens160.as_str()) {
            Some(SensorName::Ens160)
        } else if eq_folded(s, SensorName::Pmsa003i.as_str()) {
            Some(SensorName::Pmsa003i)
        } else if eq_folded(s, SensorName::Scd30.as_str()) {
            Some(SensorName::Scd30)
        } else if eq_folded(s, SensorName::Scd40.as_str()) {
            Some(SensorName::Scd40)
        } else if eq_folded(s, SensorName::Scd41.as_str()) {
            Some(SensorName::Scd41)
        } else if eq_folded(s, SensorName::Sht41.as_str()) {
            Some(SensorName::Sht41)
        } else if eq_folded(s, SensorName::Sgp30.as_str()) {
            Some(SensorName::Sgp30)
        } else if eq_folded(s, SensorName::Sen55.as_str()) {
            Some(SensorName::Sen55)
        } else {
            None
        }
    }

    /// The Prometheus label fragment for this sensor: `sensor="NAME"`.
    pub fn fmt_labels(&self) -> (r: String)
        ensures
            r@ == "sensor=\""@ + self.spec_str() + "\""@,
    {
        let mut out = String::new();
        out.append("sensor=\"");
        out.append(self.as_str());
        out.append("\"");
        out
    }
}

/// Whether `s`, folded to upper case, equals `canon`.
fn eq_folded(s: &str, canon: &str) -> (r: bool)
    ensures
        r == (SensorName::spec_fold_upper(s@) == canon@),
{
    let len = s.unicode_len();
    if len != canon.unicode_len() {
        assert(SensorName::spec_fold_upper(s@).len() == s@.len());
        return false;
    }
    let mut i: usize = 0;
    while i < len
        invariant
            i <= len,
            len == s@.len(),
            len == canon@.len(),
            forall|j: int| 0 <= j < i ==> SensorName::spec_upper(s@[j]) == canon@[j],
        decreases len - i,
    {
        let c = s.get_char(i);
        let cu = c as u32;
        let up: char = if 97 <= cu && cu <= 122 {
            ((cu - 32) as u8) as char
        } else {
            c
        };
        assert(up == SensorName::spec_upper(s@[i as int]));
        if up != canon.get_char(i) {
            assert(SensorName::spec_fold_upper(s@)[i as int] != canon@[i as int]);
            return false;
        }
        i += 1;
    }
    proof {
        assert(SensorName::spec_fold_upper(s@) =~= canon@);
    }
    true
}


/// The error of a failed sensor-name parse.
#[derive(Copy, Clone, PartialEq, Eq, Structural, Debug)]
pub struct ParseSensorNameError;

impl core::str::FromStr for SensorName {
    type Err = ParseSensorNameError;

    /// Parse a sensor name, ignoring ASCII case.
    fn from_str(s: &str) -> (r: Result<SensorName, ParseSensorNameError>) {
        match SensorName::parse(s) {
            Some(n) => Ok(n),
            None => Err(ParseSensorNameError),
        }
    }
}

} // verus!
