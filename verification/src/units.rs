//! The closed registry of physical units: case-insensitive parsing and
//! canonical rendering, with the round-trip law proved below.

use crate::scan::lower_char;
use crate::scan::lower_seq;
use crate::types::AfbError;
use vstd::prelude::*;
use vstd::string::StringExecFns;

verus! {

/// The closed set of physical units a signal may carry.
#[allow(non_camel_case_types)]
#[derive(Debug, PartialEq, Eq, Structural, Clone, Copy)]
pub enum VssUnit {
    units,
    mm,
    cm,
    m,
    km,
    inch,
    km_h,
    m_s,
    m_sx2,
    cm_sx2,
    ml,
    l,
    cmx3,
    celsius,
    degrees,
    degrees_s,
    W,
    kW,
    PS,
    kWh,
    g,
    kg,
    lbs,
    V,
    A,
    Ah,
    ms,
    s,
    min,
    h,
    day,
    weeks,
    months,
    years,
    Timestamp,
    mbar,
    Pa,
    kPa,
    stars,
    g_s,
    g_km,
    kWh_100km,
    ml_100km,
    l_100km,
    l_h,
    mpg,
    N,
    Nm,
    rpm,
    Hz,
    ratio,
    percent,
    nm_km,
    dBm,
    kN,
    Unset,
}

/// Canonical rendering of a unit.
pub open spec fn unit_to_str_spec(u: VssUnit) -> Seq<char> {
    match u {
        VssUnit::units => "units"@,
        VssUnit::mm => "mm"@,
        VssUnit::cm => "cm"@,
        VssUnit::m => "m"@,
        VssUnit::km => "km"@,
        VssUnit::inch => "inch"@,
        VssUnit::km_h => "km/h"@,
        VssUnit::m_s => "m/s"@,
        VssUnit::m_sx2 => "m/s^2"@,
        VssUnit::cm_sx2 => "cm/s^2"@,
        VssUnit::ml => "ml"@,
        VssUnit::l => "l"@,
        VssUnit::cmx3 => "cm^3"@,
        VssUnit::celsius => "celsius"@,
        VssUnit::degrees => "degrees"@,
        VssUnit::degrees_s => "degrees/s"@,
        VssUnit::W => "W"@,
        VssUnit::kW => "kW"@,
        VssUnit::PS => "PS"@,
        VssUnit::kWh => "kWh"@,
        VssUnit::g => "g"@,
        VssUnit::kg => "kg"@,
        VssUnit::lbs => "lbs"@,
        VssUnit::V => "V"@,
        VssUnit::A => "A"@,
        VssUnit::Ah => "Ah"@,
        VssUnit::ms => "ms"@,
        VssUnit::s => "s"@,
        VssUnit::min => "min"@,
        VssUnit::h => "h"@,
        VssUnit::day => "day"@,
        VssUnit::weeks => "weeks"@,
        VssUnit::months => "months"@,
        VssUnit::years => "years"@,
        VssUnit::Timestamp => "Timestamp"@,
        VssUnit::mbar => "mbar"@,
        VssUnit::Pa => "Pa"@,
        VssUnit::kPa => "kPa"@,
        VssUnit::stars => "stars"@,
        VssUnit::g_s => "g/s"@,
        VssUnit::g_km => "g/km"@,
        VssUnit::kWh_100km => "kWh/100km"@,
        VssUnit::ml_100km => "ml/100km"@,
        VssUnit::l_100km => "l/100km"@,
        VssUnit::l_h => "l/h"@,
        VssUnit::mpg => "mpg"@,
        VssUnit::N => "N"@,
        VssUnit::Nm => "Nm"@,
        VssUnit::rpm => "rpm"@,
        VssUnit::Hz => "Hz"@,
        VssUnit::ratio => "ratio"@,
        VssUnit::percent => "percent"@,
        VssUnit::nm_km => "nm/km"@,
        VssUnit::dBm => "dBm"@,
        VssUnit::kN => "kN"@,
        VssUnit::Unset => "Unset"@,
    }
}

/// Case-insensitive recognition of a unit token.
pub open spec fn unit_from_str_spec(s: Seq<char>) -> Option<VssUnit> {
    let t = lower_seq(s);
    if t == lower_seq("units"@) {
        Some(VssUnit::units)
    } else if t == lower_seq("mm"@) {
        Some(VssUnit::mm)
    } else if t == lower_seq("cm"@) {
        Some(VssUnit::cm)
    } else if t == lower_seq("m"@) {
        Some(VssUnit::m)
    } else if t == lower_seq("km"@) {
        Some(VssUnit::km)
    } else if t == lower_seq("inch"@) {
        Some(VssUnit::inch)
    } else if t == lower_seq("km/h"@) {
        Some(VssUnit::km_h)
    } else if t == lower_seq("m/s"@) {
        Some(VssUnit::m_s)
    } else if t == lower_seq("m/s^2"@) {
        Some(VssUnit::m_sx2)
    } else if t == lower_seq("cm/s^2"@) {
        Some(VssUnit::cm_sx2)
    } else if t == lower_seq("ml"@) {
        Some(VssUnit::ml)
    } else if t == lower_seq("l"@) {
        Some(VssUnit::l)
    } else if t == lower_seq("cm^3"@) {
        Some(VssUnit::cmx3)
    } else if t == lower_seq("celsius"@) {
        Some(VssUnit::celsius)
    } else if t == lower_seq("degrees"@) {
        Some(VssUnit::degrees)
    } else if t == lower_seq("degrees/s"@) {
        Some(VssUnit::degrees_s)
    } else if t == lower_seq("w"@) {
        Some(VssUnit::W)
    } else if t == lower_seq("kw"@) {
        Some(VssUnit::kW)
    } else if t == lower_seq("ps"@) {
        Some(VssUnit::PS)
    } else if t == lower_seq("kwh"@) {
        Some(VssUnit::kWh)
    } else if t == lower_seq("g"@) {
        Some(VssUnit::g)
    } else if t == lower_seq("kg"@) {
        Some(VssUnit::kg)
    } else if t == lower_seq("lbs"@) {
        Some(VssUnit::lbs)
    } else if t == lower_seq("v"@) {
        Some(VssUnit::V)
    } else if t == lower_seq("a"@) {
        Some(VssUnit::A)
    } else if t == lower_seq("ah"@) {
        Some(VssUnit::Ah)
    } else if t == lower_seq("ms"@) {
        Some(VssUnit::ms)
    } else if t == lower_seq("s"@) {
        Some(VssUnit::s)
    } else if t == lower_seq("min"@) {
        Some(VssUnit::min)
    } else if t == lower_seq("h"@) {
        Some(VssUnit::h)
    } else if t == lower_seq("day"@) {
        Some(VssUnit::day)
    } else if t == lower_seq("weeks"@) {
        Some(VssUnit::weeks)
    } else if t == lower_seq("months"@) {
        Some(VssUnit::months)
    } else if t == lower_seq("years"@) {
        Some(VssUnit::years)
    } else if t == lower_seq("timestamp"@) {
        Some(VssUnit::Timestamp)
    } else if t == lower_seq("mbar"@) {
        Some(VssUnit::mbar)
    } else if t == lower_seq("pa"@) {
        Some(VssUnit::Pa)
    } else if t == lower_seq("kpa"@) {
        Some(VssUnit::kPa)
    } else if t == lower_seq("stars"@) {
        Some(VssUnit::stars)
    } else if t == lower_seq("g/s"@) {
        Some(VssUnit::g_s)
    } else if t == lower_seq("g/km"@) {
        Some(VssUnit::g_km)
    } else if t == lower_seq("kwh/100km"@) {
        Some(VssUnit::kWh_100km)
    } else if t == lower_seq("ml/100km"@) {
        Some(VssUnit::ml_100km)
    } else if t == lower_seq("l/100km"@) {
        Some(VssUnit::l_100km)
    } else if t == lower_seq("l/h"@) {
        Some(VssUnit::l_h)
    } else if t == lower_seq("mpg"@) {
        Some(VssUnit::mpg)
    } else if t == lower_seq("n"@) {
        Some(VssUnit::N)
    } else if t == lower_seq("nm"@) {
        Some(VssUnit::Nm)
    } else if t == lower_seq("rpm"@) {
        Some(VssUnit::rpm)
    } else if t == lower_seq("hz"@) {
        Some(VssUnit::Hz)
    } else if t == lower_seq("ratio"@) {
        Some(VssUnit::ratio)
    } else if t == lower_seq("percent"@) {
        Some(VssUnit::percent)
    } else if t == lower_seq("nm/km"@) {
        Some(VssUnit::nm_km)
    } else if t == lower_seq("dbm"@) {
        Some(VssUnit::dBm)
    } else if t == lower_seq("kn"@) {
        Some(VssUnit::kN)
    } else {
        None
    }
}

impl VssUnit {
    /// Parses a unit token, ignoring ASCII case.
    pub fn from_str(value: &str) -> (r: Result<Self, AfbError>)
        ensures
            match r {
                Ok(u) => unit_from_str_spec(value@) == Some(u),
                Err(e) => unit_from_str_spec(value@) is None && e.uid_spec()
                    == "vss-objunit-invalid"@ && e.info_spec() == "label:"@ + value@
                    + " is not a vss unit"@,
            },
    {
        if crate::scan::str_eq_lower(value, "units") {
            Ok(VssUnit::units)
        } else if crate::scan::str_eq_lower(value, "mm") {
            Ok(VssUnit::mm)
        } else if crate::scan::str_eq_lower(value, "cm") {
            Ok(VssUnit::cm)
        } else if crate::scan::str_eq_lower(value, "m") {
            Ok(VssUnit::m)
        } else if crate::scan::str_eq_lower(value, "km") {
            Ok(VssUnit::km)
        } else if crate::scan::str_eq_lower(value, "inch") {
            Ok(VssUnit::inch)
        } else if crate::scan::str_eq_lower(value, "km/h") {
            Ok(VssUnit::km_h)
        } else if crate::scan::str_eq_lower(value, "m/s") {
            Ok(VssUnit::m_s)
        } else if crate::scan::str_eq_lower(value, "m/s^2") {
            Ok(VssUnit::m_sx2)
        } else if crate::scan::str_eq_lower(value, "cm/s^2") {
            Ok(VssUnit::cm_sx2)
        } else if crate::scan::str_eq_lower(value, "ml") {
            Ok(VssUnit::ml)
        } else if crate::scan::str_eq_lower(value, "l") {
            Ok(VssUnit::l)
        } else if crate::scan::str_eq_lower(value, "cm^3") {
            Ok(VssUnit::cmx3)
        } else if crate::scan::str_eq_lower(value, "celsius") {
            Ok(VssUnit::celsius)
        } else if crate::scan::str_eq_lower(value, "degrees") {
            Ok(VssUnit::degrees)
        } else if crate::scan::str_eq_lower(value, "degrees/s") {
            Ok(VssUnit::degrees_s)
        } else if crate::scan::str_eq_lower(value, "w") {
            Ok(VssUnit::W)
        } else if crate::scan::str_eq_lower(value, "kw") {
            Ok(VssUnit::kW)
        } else if crate::scan::str_eq_lower(value, "ps") {
            Ok(VssUnit::PS)
        } else if crate::scan::str_eq_lower(value, "kwh") {
            Ok(VssUnit::kWh)
        } else if crate::scan::str_eq_lower(value, "g") {
            Ok(VssUnit::g)
        } else if crate::scan::str_eq_lower(value, "kg") {
            Ok(VssUnit::kg)
        } else if crate::scan::str_eq_lower(value, "lbs") {
            Ok(VssUnit::lbs)
        } else if crate::scan::str_eq_lower(value, "v") {
            Ok(VssUnit::V)
        } else if crate::scan::str_eq_lower(value, "a") {
            Ok(VssUnit::A)
        } else if crate::scan::str_eq_lower(value, "ah") {
            Ok(VssUnit::Ah)
        } else if crate::scan::str_eq_lower(value, "ms") {
            Ok(VssUnit::ms)
        } else if crate::scan::str_eq_lower(value, "s") {
            Ok(VssUnit::s)
        } else if crate::scan::str_eq_lower(value, "min") {
            Ok(VssUnit::min)
        } else if crate::scan::str_eq_lower(value, "h") {
            Ok(VssUnit::h)
        } else if crate::scan::str_eq_lower(value, "day") {
            Ok(VssUnit::day)
        } else if crate::scan::str_eq_lower(value, "weeks") {
            Ok(VssUnit::weeks)
        } else if crate::scan::str_eq_lower(value, "months") {
            Ok(VssUnit::months)
        } else if crate::scan::str_eq_lower(value, "years") {
            Ok(VssUnit::years)
        } else if crate::scan::str_eq_lower(value, "timestamp") {
            Ok(VssUnit::Timestamp)
        } else if crate::scan::str_eq_lower(value, "mbar") {
            Ok(VssUnit::mbar)
        } else if crate::scan::str_eq_lower(value, "pa") {
            Ok(VssUnit::Pa)
        } else if crate::scan::str_eq_lower(value, "kpa") {
            Ok(VssUnit::kPa)
        } else if crate::scan::str_eq_lower(value, "stars") {
            Ok(VssUnit::stars)
        } else if crate::scan::str_eq_lower(value, "g/s") {
            Ok(VssUnit::g_s)
        } else if crate::scan::str_eq_lower(value, "g/km") {
            Ok(VssUnit::g_km)
        } else if crate::scan::str_eq_lower(value, "kwh/100km") {
            Ok(VssUnit::kWh_100km)
        } else if crate::scan::str_eq_lower(value, "ml/100km") {
            Ok(VssUnit::ml_100km)
        } else if crate::scan::str_eq_lower(value, "l/100km") {
            Ok(VssUnit::l_100km)
        } else if crate::scan::str_eq_lower(value, "l/h") {
            Ok(VssUnit::l_h)
        } else if crate::scan::str_eq_lower(value, "mpg") {
            Ok(VssUnit::mpg)
        } else if crate::scan::str_eq_lower(value, "n") {
            Ok(VssUnit::N)
        } else if crate::scan::str_eq_lower(value, "nm") {
            Ok(VssUnit::Nm)
        } else if crate::scan::str_eq_lower(value, "rpm") {
            Ok(VssUnit::rpm)
        } else if crate::scan::str_eq_lower(value, "hz") {
            Ok(VssUnit::Hz)
        } else if crate::scan::str_eq_lower(value, "ratio") {
            Ok(VssUnit::ratio)
        } else if crate::scan::str_eq_lower(value, "percent") {
            Ok(VssUnit::percent)
        } else if crate::scan::str_eq_lower(value, "nm/km") {
            Ok(VssUnit::nm_km)
        } else if crate::scan::str_eq_lower(value, "dbm") {
            Ok(VssUnit::dBm)
        } else if crate::scan::str_eq_lower(value, "kn") {
            Ok(VssUnit::kN)
        } else {
            let mut info = String::from_str("label:");
            info.append(value);
            info.append(" is not a vss unit");
            Err(AfbError::new("vss-objunit-invalid", info))
        }
    }

    /// Canonical rendering of the unit.
    pub fn to_str(&self) -> (r: &'static str)
        ensures
            r@ == unit_to_str_spec(*self),
    {
        match self {
            VssUnit::units => "units",
            VssUnit::mm => "mm",
            VssUnit::cm => "cm",
            VssUnit::m => "m",
            VssUnit::km => "km",
            VssUnit::inch => "inch",
            VssUnit::km_h => "km/h",
            VssUnit::m_s => "m/s",
            VssUnit::m_sx2 => "m/s^2",
            VssUnit::cm_sx2 => "cm/s^2",
            VssUnit::ml => "ml",
            VssUnit::l => "l",
            VssUnit::cmx3 => "cm^3",
            VssUnit::celsius => "celsius",
            VssUnit::degrees => "degrees",
            VssUnit::degrees_s => "degrees/s",
            VssUnit::W => "W",
            VssUnit::kW => "kW",
            VssUnit::PS => "PS",
            VssUnit::kWh => "kWh",
            VssUnit::g => "g",
            VssUnit::kg => "kg",
            VssUnit::lbs => "lbs",
            VssUnit::V => "V",
            VssUnit::A => "A",
            VssUnit::Ah => "Ah",
            VssUnit::ms => "ms",
            VssUnit::s => "s",
            VssUnit::min => "min",
            VssUnit::h => "h",
            VssUnit::day => "day",
            VssUnit::weeks => "weeks",
            VssUnit::months => "months",
            VssUnit::years => "years",
            VssUnit::Timestamp => "Timestamp",
            VssUnit::mbar => "mbar",
            VssUnit::Pa => "Pa",
            VssUnit::kPa => "kPa",
            VssUnit::stars => "stars",
            VssUnit::g_s => "g/s",
            VssUnit::g_km => "g/km",
            VssUnit::kWh_100km => "kWh/100km",
            VssUnit::ml_100km => "ml/100km",
            VssUnit::l_100km => "l/100km",
            VssUnit::l_h => "l/h",
            VssUnit::mpg => "mpg",
            VssUnit::N => "N",
            VssUnit::Nm => "Nm",
            VssUnit::rpm => "rpm",
            VssUnit::Hz => "Hz",
            VssUnit::ratio => "ratio",
            VssUnit::percent => "percent",
            VssUnit::nm_km => "nm/km",
            VssUnit::dBm => "dBm",
            VssUnit::kN => "kN",
            VssUnit::Unset => "Unset",
        }
    }
}

/// The lower-casings of two texts differ when they differ at one position.
proof fn lemma_lower_neq_at(x: Seq<char>, y: Seq<char>, i: int)
    requires
        0 <= i < x.len(),
        i < y.len(),
        lower_char(x[i]) != lower_char(y[i]),
    ensures
        lower_seq(x) != lower_seq(y),
{
    assert(lower_seq(x)[i] == lower_char(x[i]));
    assert(lower_seq(y)[i] == lower_char(y[i]));
}

/// Every token the registry accepts re-parses, after canonical rendering, to
/// the unit it named: `from_str(to_str(u))` gives back `u` for every unit of
/// the registry (`VssUnit::Unset` is not in the registry; its rendering is not
/// an accepted token).
pub proof fn lemma_unit_round_trip(u: VssUnit)
    requires
        u != VssUnit::Unset,
    ensures
        unit_from_str_spec(unit_to_str_spec(u)) == Some(u),
{
    reveal_strlit("A");
    reveal_strlit("Ah");
    reveal_strlit("Hz");
    reveal_strlit("N");
    reveal_strlit("Nm");
    reveal_strlit("PS");
    reveal_strlit("Pa");
    reveal_strlit("Timestamp");
    reveal_strlit("V");
    reveal_strlit("W");
    reveal_strlit("a");
    reveal_strlit("ah");
    reveal_strlit("celsius");
    reveal_strlit("cm");
    reveal_strlit("cm/s^2");
    reveal_strlit("cm^3");
    reveal_strlit("dBm");
    reveal_strlit("day");
    reveal_strlit("dbm");
    reveal_strlit("degrees");
    reveal_strlit("degrees/s");
    reveal_strlit("g");
    reveal_strlit("g/km");
    reveal_strlit("g/s");
    reveal_strlit("h");
    reveal_strlit("hz");
    reveal_strlit("inch");
    reveal_strlit("kN");
    reveal_strlit("kPa");
    reveal_strlit("kW");
    reveal_strlit("kWh");
    reveal_strlit("kWh/100km");
    reveal_strlit("kg");
    reveal_strlit("km");
    reveal_strlit("km/h");
    reveal_strlit("kn");
    reveal_strlit("kpa");
    reveal_strlit("kw");
    reveal_strlit("kwh");
    reveal_strlit("kwh/100km");
    reveal_strlit("l");
    reveal_strlit("l/100km");
    reveal_strlit("l/h");
    reveal_strlit("lbs");
    reveal_strlit("m");
    reveal_strlit("m/s");
    reveal_strlit("m/s^2");
    reveal_strlit("mbar");
    reveal_strlit("min");
    reveal_strlit("ml");
    reveal_strlit("ml/100km");
    reveal_strlit("mm");
    reveal_strlit("months");
    reveal_strlit("mpg");
    reveal_strlit("ms");
    reveal_strlit("n");
    reveal_strlit("nm");
    reveal_strlit("nm/km");
    reveal_strlit("pa");
    reveal_strlit("percent");
    reveal_strlit("ps");
    reveal_strlit("ratio");
    reveal_strlit("rpm");
    reveal_strlit("s");
    reveal_strlit("stars");
    reveal_strlit("timestamp");
    reveal_strlit("units");
    reveal_strlit("v");
    reveal_strlit("w");
    reveal_strlit("weeks");
    reveal_strlit("years");
    assert(lower_seq("a"@).len() == 1);
    assert(lower_seq("ah"@).len() == 2);
    assert(lower_seq("celsius"@).len() == 7);
    assert(lower_seq("cm"@).len() == 2);
    assert(lower_seq("cm/s^2"@).len() == 6);
    assert(lower_seq("cm^3"@).len() == 4);
    assert(lower_seq("day"@).len() == 3);
    assert(lower_seq("dbm"@).len() == 3);
    assert(lower_seq("degrees"@).len() == 7);
    assert(lower_seq("degrees/s"@).len() == 9);
    assert(lower_seq("g"@).len() == 1);
    assert(lower_seq("g/km"@).len() == 4);
    assert(lower_seq("g/s"@).len() == 3);
    assert(lower_seq("h"@).len() == 1);
    assert(lower_seq("hz"@).len() == 2);
    assert(lower_seq("inch"@).len() == 4);
    assert(lower_seq("kg"@).len() == 2);
    assert(lower_seq("km"@).len() == 2);
    assert(lower_seq("km/h"@).len() == 4);
    assert(lower_seq("kn"@).len() == 2);
    assert(lower_seq("kpa"@).len() == 3);
    assert(lower_seq("kw"@).len() == 2);
    assert(lower_seq("kwh"@).len() == 3);
    assert(lower_seq("kwh/100km"@).len() == 9);
    assert(lower_seq("l"@).len() == 1);
    assert(lower_seq("l/100km"@).len() == 7);
    assert(lower_seq("l/h"@).len() == 3);
    assert(lower_seq("lbs"@).len() == 3);
    assert(lower_seq("m"@).len() == 1);
    assert(lower_seq("m/s"@).len() == 3);
    assert(lower_seq("m/s^2"@).len() == 5);
    assert(lower_seq("mbar"@).len() == 4);
    assert(lower_seq("min"@).len() == 3);
    assert(lower_seq("ml"@).len() == 2);
    assert(lower_seq("ml/100km"@).len() == 8);
    assert(lower_seq("mm"@).len() == 2);
    assert(lower_seq("months"@).len() == 6);
    assert(lower_seq("mpg"@).len() == 3);
    assert(lower_seq("ms"@).len() == 2);
    assert(lower_seq("n"@).len() == 1);
    assert(lower_seq("nm"@).len() == 2);
    assert(lower_seq("nm/km"@).len() == 5);
    assert(lower_seq("pa"@).len() == 2);
    assert(lower_seq("percent"@).len() == 7);
    assert(lower_seq("ps"@).len() == 2);
    assert(lower_seq("ratio"@).len() == 5);
    assert(lower_seq("rpm"@).len() == 3);
    assert(lower_seq("s"@).len() == 1);
    assert(lower_seq("stars"@).len() == 5);
    assert(lower_seq("timestamp"@).len() == 9);
    assert(lower_seq("units"@).len() == 5);
    assert(lower_seq("v"@).len() == 1);
    assert(lower_seq("w"@).len() == 1);
    assert(lower_seq("weeks"@).len() == 5);
    assert(lower_seq("years"@).len() == 5);
    match u {
        VssUnit::units => {
            assert(unit_from_str_spec(unit_to_str_spec(u)) == Some(VssUnit::units));
        },
        VssUnit::mm => {
            assert(unit_from_str_spec(unit_to_str_spec(u)) == Some(VssUnit::mm));
        },
        VssUnit::cm => {
            lemma_lower_neq_at("cm"@, "mm"@, 0);
            assert(unit_from_str_spec(unit_to_str_spec(u)) == Some(VssUnit::cm));
        },
        VssUnit::m => {
            assert(unit_from_str_spec(unit_to_str_spec(u)) == Some(VssUnit::m));
        },
        VssUnit::km => {
            lemma_lower_neq_at("km"@, "mm"@, 0);
            lemma_lower_neq_at("km"@, "cm"@, 0);
            assert(unit_from_str_spec(unit_to_str_spec(u)) == Some(VssUnit::km));
        },
        VssUnit::inch => {
            assert(unit_from_str_spec(unit_to_str_spec(u)) == Some(VssUnit::inch));
        },
        VssUnit::km_h => {
            lemma_lower_neq_at("km/h"@, "inch"@, 0);
            assert(unit_from_str_spec(unit_to_str_spec(u)) == Some(VssUnit::km_h));
        },
        VssUnit::m_s => {
            assert(unit_from_str_spec(unit_to_str_spec(u)) == Some(VssUnit::m_s));
        },
        VssUnit::m_sx2 => {
            lemma_lower_neq_at("m/s^2"@, "units"@, 0);
            assert(unit_from_str_spec(unit_to_str_spec(u)) == Some(VssUnit::m_sx2));
        },
        VssUnit::cm_sx2 => {
            assert(unit_from_str_spec(unit_to_str_spec(u)) == Some(VssUnit::cm_sx2));
        },
        VssUnit::ml => {
            lemma_lower_neq_at("ml"@, "mm"@, 1);
            lemma_lower_neq_at("ml"@, "cm"@, 0);
            lemma_lower_neq_at("ml"@, "km"@, 0);
            assert(unit_from_str_spec(unit_to_str_spec(u)) == Some(VssUnit::ml));
        },
        VssUnit::l => {
            lemma_lower_neq_at("l"@, "m"@, 0);
            assert(unit_from_str_spec(unit_to_str_spec(u)) == Some(VssUnit::l));
        },
        VssUnit::cmx3 => {
            lemma_lower_neq_at("cm^3"@, "inch"@, 0);
            lemma_lower_neq_at("cm^3"@, "km/h"@, 0);
            assert(unit_from_str_spec(unit_to_str_spec(u)) == Some(VssUnit::cmx3));
        },
        VssUnit::celsius => {
            assert(unit_from_str_spec(unit_to_str_spec(u)) == Some(VssUnit::celsius));
        },
        VssUnit::degrees => {
            lemma_lower_neq_at("degrees"@, "celsius"@, 0);
            assert(unit_from_str_spec(unit_to_str_spec(u)) == Some(VssUnit::degrees));
        },
        VssUnit::degrees_s => {
            assert(unit_from_str_spec(unit_to_str_spec(u)) == Some(VssUnit::degrees_s));
        },
        VssUnit::W => {
            assert(lower_seq("W"@).len() == 1);
            lemma_lower_neq_at("W"@, "m"@, 0);
            lemma_lower_neq_at("W"@, "l"@, 0);
            assert(lower_seq("W"@) =~= lower_seq("w"@));
            assert(unit_from_str_spec(unit_to_str_spec(u)) == Some(VssUnit::W));
        },
        VssUnit::kW => {
            assert(lower_seq("kW"@).len() == 2);
            lemma_lower_neq_at("kW"@, "mm"@, 0);
            lemma_lower_neq_at("kW"@, "cm"@, 0);
            lemma_lower_neq_at("kW"@, "km"@, 1);
            lemma_lower_neq_at("kW"@, "ml"@, 0);
            assert(lower_seq("kW"@) =~= lower_seq("kw"@));
            assert(unit_from_str_spec(unit_to_str_spec(u)) == Some(VssUnit::kW));
        },
        VssUnit::PS => {
            assert(lower_seq("PS"@).len() == 2);
            lemma_lower_neq_at("PS"@, "mm"@, 0);
            lemma_lower_neq_at("PS"@, "cm"@, 0);
            lemma_lower_neq_at("PS"@, "km"@, 0);
            lemma_lower_neq_at("PS"@, "ml"@, 0);
            lemma_lower_neq_at("PS"@, "kw"@, 0);
            assert(lower_seq("PS"@) =~= lower_seq("ps"@));
            assert(unit_from_str_spec(unit_to_str_spec(u)) == Some(VssUnit::PS));
        },
        VssUnit::kWh => {
            assert(lower_seq("kWh"@).len() == 3);
            lemma_lower_neq_at("kWh"@, "m/s"@, 0);
            assert(lower_seq("kWh"@) =~= lower_seq("kwh"@));
            assert(unit_from_str_spec(unit_to_str_spec(u)) == Some(VssUnit::kWh));
        },
        VssUnit::g => {
            lemma_lower_neq_at("g"@, "m"@, 0);
            lemma_lower_neq_at("g"@, "l"@, 0);
            lemma_lower_neq_at("g"@, "w"@, 0);
            assert(unit_from_str_spec(unit_to_str_spec(u)) == Some(VssUnit::g));
        },
        VssUnit::kg => {
            lemma_lower_neq_at("kg"@, "mm"@, 0);
            lemma_lower_neq_at("kg"@, "cm"@, 0);
            lemma_lower_neq_at("kg"@, "km"@, 1);
            lemma_lower_neq_at("kg"@, "ml"@, 0);
            lemma_lower_neq_at("kg"@, "kw"@, 1);
            lemma_lower_neq_at("kg"@, "ps"@, 0);
            assert(unit_from_str_spec(unit_to_str_spec(u)) == Some(VssUnit::kg));
        },
        VssUnit::lbs => {
            lemma_lower_neq_at("lbs"@, "m/s"@, 0);
            lemma_lower_neq_at("lbs"@, "kwh"@, 0);
            assert(unit_from_str_spec(unit_to_str_spec(u)) == Some(VssUnit::lbs));
        },
        VssUnit::V => {
            assert(lower_seq("V"@).len() == 1);
            lemma_lower_neq_at("V"@, "m"@, 0);
            lemma_lower_neq_at("V"@, "l"@, 0);
            lemma_lower_neq_at("V"@, "w"@, 0);
            lemma_lower_neq_at("V"@, "g"@, 0);
            assert(lower_seq("V"@) =~= lower_seq("v"@));
            assert(unit_from_str_spec(unit_to_str_spec(u)) == Some(VssUnit::V));
        },
        VssUnit::A => {
            assert(lower_seq("A"@).len() == 1);
            lemma_lower_neq_at("A"@, "m"@, 0);
            lemma_lower_neq_at("A"@, "l"@, 0);
            lemma_lower_neq_at("A"@, "w"@, 0);
            lemma_lower_neq_at("A"@, "g"@, 0);
            lemma_lower_neq_at("A"@, "v"@, 0);
            assert(lower_seq("A"@) =~= lower_seq("a"@));
            assert(unit_from_str_spec(unit_to_str_spec(u)) == Some(VssUnit::A));
        },
        VssUnit::Ah => {
            assert(lower_seq("Ah"@).len() == 2);
            lemma_lower_neq_at("Ah"@, "mm"@, 0);
            lemma_lower_neq_at("Ah"@, "cm"@, 0);
            lemma_lower_neq_at("Ah"@, "km"@, 0);
            lemma_lower_neq_at("Ah"@, "ml"@, 0);
            lemma_lower_neq_at("Ah"@, "kw"@, 0);
            lemma_lower_neq_at("Ah"@, "ps"@, 0);
            lemma_lower_neq_at("Ah"@, "kg"@, 0);
            assert(lower_seq("Ah"@) =~= lower_seq("ah"@));
            assert(unit_from_str_spec(unit_to_str_spec(u)) == Some(VssUnit::Ah));
        },
        VssUnit::ms => {
            lemma_lower_neq_at("ms"@, "mm"@, 1);
            lemma_lower_neq_at("ms"@, "cm"@, 0);
            lemma_lower_neq_at("ms"@, "km"@, 0);
            lemma_lower_neq_at("ms"@, "ml"@, 1);
            lemma_lower_neq_at("ms"@, "kw"@, 0);
            lemma_lower_neq_at("ms"@, "ps"@, 0);
            lemma_lower_neq_at("ms"@, "kg"@, 0);
            lemma_lower_neq_at("ms"@, "ah"@, 0);
            assert(unit_from_str_spec(unit_to_str_spec(u)) == Some(VssUnit::ms));
        },
        VssUnit::s => {
            lemma_lower_neq_at("s"@, "m"@, 0);
            lemma_lower_neq_at("s"@, "l"@, 0);
            lemma_lower_neq_at("s"@, "w"@, 0);
            lemma_lower_neq_at("s"@, "g"@, 0);
            lemma_lower_neq_at("s"@, "v"@, 0);
            lemma_lower_neq_at("s"@, "a"@, 0);
            assert(unit_from_str_spec(unit_to_str_spec(u)) == Some(VssUnit::s));
        },
        VssUnit::min => {
            lemma_lower_neq_at("min"@, "m/s"@, 1);
            lemma_lower_neq_at("min"@, "kwh"@, 0);
            lemma_lower_neq_at("min"@, "lbs"@, 0);
            assert(unit_from_str_spec(unit_to_str_spec(u)) == Some(VssUnit::min));
        },
        VssUnit::h => {
            lemma_lower_neq_at("h"@, "m"@, 0);
            lemma_lower_neq_at("h"@, "l"@, 0);
            lemma_lower_neq_at("h"@, "w"@, 0);
            lemma_lower_neq_at("h"@, "g"@, 0);
            lemma_lower_neq_at("h"@, "v"@, 0);
            lemma_lower_neq_at("h"@, "a"@, 0);
            lemma_lower_neq_at("h"@, "s"@, 0);
            assert(unit_from_str_spec(unit_to_str_spec(u)) == Some(VssUnit::h));
        },
        VssUnit::day => {
            lemma_lower_neq_at("day"@, "m/s"@, 0);
            lemma_lower_neq_at("day"@, "kwh"@, 0);
            lemma_lower_neq_at("day"@, "lbs"@, 0);
            lemma_lower_neq_at("day"@, "min"@, 0);
            assert(unit_from_str_spec(unit_to_str_spec(u)) == Some(VssUnit::day));
        },
        VssUnit::weeks => {
            lemma_lower_neq_at("weeks"@, "units"@, 0);
            lemma_lower_neq_at("weeks"@, "m/s^2"@, 0);
            assert(unit_from_str_spec(unit_to_str_spec(u)) == Some(VssUnit::weeks));
        },
        VssUnit::months => {
            lemma_lower_neq_at("months"@, "cm/s^2"@, 0);
            assert(unit_from_str_spec(unit_to_str_spec(u)) == Some(VssUnit::months));
        },
        VssUnit::years => {
            lemma_lower_neq_at("years"@, "units"@, 0);
            lemma_lower_neq_at("years"@, "m/s^2"@, 0);
            lemma_lower_neq_at("years"@, "weeks"@, 0);
            assert(unit_from_str_spec(unit_to_str_spec(u)) == Some(VssUnit::years));
        },
        VssUnit::Timestamp => {
            assert(lower_seq("Timestamp"@).len() == 9);
            lemma_lower_neq_at("Timestamp"@, "degrees/s"@, 0);
            assert(lower_seq("Timestamp"@) =~= lower_seq("timestamp"@));
            assert(unit_from_str_spec(unit_to_str_spec(u)) == Some(VssUnit::Timestamp));
        },
        VssUnit::mbar => {
            lemma_lower_neq_at("mbar"@, "inch"@, 0);
            lemma_lower_neq_at("mbar"@, "km/h"@, 0);
            lemma_lower_neq_at("mbar"@, "cm^3"@, 0);
            assert(unit_from_str_spec(unit_to_str_spec(u)) == Some(VssUnit::mbar));
        },
        VssUnit::Pa => {
            assert(lower_seq("Pa"@).len() == 2);
            lemma_lower_neq_at("Pa"@, "mm"@, 0);
            lemma_lower_neq_at("Pa"@, "cm"@, 0);
            lemma_lower_neq_at("Pa"@, "km"@, 0);
            lemma_lower_neq_at("Pa"@, "ml"@, 0);
            lemma_lower_neq_at("Pa"@, "kw"@, 0);
            lemma_lower_neq_at("Pa"@, "ps"@, 1);
            lemma_lower_neq_at("Pa"@, "kg"@, 0);
            lemma_lower_neq_at("Pa"@, "ah"@, 0);
            lemma_lower_neq_at("Pa"@, "ms"@, 0);
            assert(lower_seq("Pa"@) =~= lower_seq("pa"@));
            assert(unit_from_str_spec(unit_to_str_spec(u)) == Some(VssUnit::Pa));
        },
        VssUnit::kPa => {
            assert(lower_seq("kPa"@).len() == 3);
            lemma_lower_neq_at("kPa"@, "m/s"@, 0);
            lemma_lower_neq_at("kPa"@, "kwh"@, 1);
            lemma_lower_neq_at("kPa"@, "lbs"@, 0);
            lemma_lower_neq_at("kPa"@, "min"@, 0);
            lemma_lower_neq_at("kPa"@, "day"@, 0);
            assert(lower_seq("kPa"@) =~= lower_seq("kpa"@));
            assert(unit_from_str_spec(unit_to_str_spec(u)) == Some(VssUnit::kPa));
        },
        VssUnit::stars => {
            lemma_lower_neq_at("stars"@, "units"@, 0);
            lemma_lower_neq_at("stars"@, "m/s^2"@, 0);
            lemma_lower_neq_at("stars"@, "weeks"@, 0);
            lemma_lower_neq_at("stars"@, "years"@, 0);
            assert(unit_from_str_spec(unit_to_str_spec(u)) == Some(VssUnit::stars));
        },
        VssUnit::g_s => {
            lemma_lower_neq_at("g/s"@, "m/s"@, 0);
            lemma_lower_neq_at("g/s"@, "kwh"@, 0);
            lemma_lower_neq_at("g/s"@, "lbs"@, 0);
            lemma_lower_neq_at("g/s"@, "min"@, 0);
            lemma_lower_neq_at("g/s"@, "day"@, 0);
            lemma_lower_neq_at("g/s"@, "kpa"@, 0);
            assert(unit_from_str_spec(unit_to_str_spec(u)) == Some(VssUnit::g_s));
        },
        VssUnit::g_km => {
            lemma_lower_neq_at("g/km"@, "inch"@, 0);
            lemma_lower_neq_at("g/km"@, "km/h"@, 0);
            lemma_lower_neq_at("g/km"@, "cm^3"@, 0);
            lemma_lower_neq_at("g/km"@, "mbar"@, 0);
            assert(unit_from_str_spec(unit_to_str_spec(u)) == Some(VssUnit::g_km));
        },
        VssUnit::kWh_100km => {
            assert(lower_seq("kWh/100km"@).len() == 9);
            lemma_lower_neq_at("kWh/100km"@, "degrees/s"@, 0);
            lemma_lower_neq_at("kWh/100km"@, "timestamp"@, 0);
            assert(lower_seq("kWh/100km"@) =~= lower_seq("kwh/100km"@));
            assert(unit_from_str_spec(unit_to_str_spec(u)) == Some(VssUnit::kWh_100km));
        },
        VssUnit::ml_100km => {
            assert(unit_from_str_spec(unit_to_str_spec(u)) == Some(VssUnit::ml_100km));
        },
        VssUnit::l_100km => {
            lemma_lower_neq_at("l/100km"@, "celsius"@, 0);
            lemma_lower_neq_at("l/100km"@, "degrees"@, 0);
            assert(unit_from_str_spec(unit_to_str_spec(u)) == Some(VssUnit::l_100km));
        },
        VssUnit::l_h => {
            lemma_lower_neq_at("l/h"@, "m/s"@, 0);
            lemma_lower_neq_at("l/h"@, "kwh"@, 0);
            lemma_lower_neq_at("l/h"@, "lbs"@, 1);
            lemma_lower_neq_at("l/h"@, "min"@, 0);
            lemma_lower_neq_at("l/h"@, "day"@, 0);
            lemma_lower_neq_at("l/h"@, "kpa"@, 0);
            lemma_lower_neq_at("l/h"@, "g/s"@, 0);
            assert(unit_from_str_spec(unit_to_str_spec(u)) == Some(VssUnit::l_h));
        },
        VssUnit::mpg => {
            lemma_lower_neq_at("mpg"@, "m/s"@, 1);
            lemma_lower_neq_at("mpg"@, "kwh"@, 0);
            lemma_lower_neq_at("mpg"@, "lbs"@, 0);
            lemma_lower_neq_at("mpg"@, "min"@, 1);
            lemma_lower_neq_at("mpg"@, "day"@, 0);
            lemma_lower_neq_at("mpg"@, "kpa"@, 0);
            lemma_lower_neq_at("mpg"@, "g/s"@, 0);
            lemma_lower_neq_at("mpg"@, "l/h"@, 0);
            assert(unit_from_str_spec(unit_to_str_spec(u)) == Some(VssUnit::mpg));
        },
        VssUnit::N => {
            assert(lower_seq("N"@).len() == 1);
            lemma_lower_neq_at("N"@, "m"@, 0);
            lemma_lower_neq_at("N"@, "l"@, 0);
            lemma_lower_neq_at("N"@, "w"@, 0);
            lemma_lower_neq_at("N"@, "g"@, 0);
            lemma_lower_neq_at("N"@, "v"@, 0);
            lemma_lower_neq_at("N"@, "a"@, 0);
            lemma_lower_neq_at("N"@, "s"@, 0);
            lemma_lower_neq_at("N"@, "h"@, 0);
            assert(lower_seq("N"@) =~= lower_seq("n"@));
            assert(unit_from_str_spec(unit_to_str_spec(u)) == Some(VssUnit::N));
        },
        VssUnit::Nm => {
            assert(lower_seq("Nm"@).len() == 2);
            lemma_lower_neq_at("Nm"@, "mm"@, 0);
            lemma_lower_neq_at("Nm"@, "cm"@, 0);
            lemma_lower_neq_at("Nm"@, "km"@, 0);
            lemma_lower_neq_at("Nm"@, "ml"@, 0);
            lemma_lower_neq_at("Nm"@, "kw"@, 0);
            lemma_lower_neq_at("Nm"@, "ps"@, 0);
            lemma_lower_neq_at("Nm"@, "kg"@, 0);
            lemma_lower_neq_at("Nm"@, "ah"@, 0);
            lemma_lower_neq_at("Nm"@, "ms"@, 0);
            lemma_lower_neq_at("Nm"@, "pa"@, 0);
            assert(lower_seq("Nm"@) =~= lower_seq("nm"@));
            assert(unit_from_str_spec(unit_to_str_spec(u)) == Some(VssUnit::Nm));
        },
        VssUnit::rpm => {
            lemma_lower_neq_at("rpm"@, "m/s"@, 0);
            lemma_lower_neq_at("rpm"@, "kwh"@, 0);
            lemma_lower_neq_at("rpm"@, "lbs"@, 0);
            lemma_lower_neq_at("rpm"@, "min"@, 0);
            lemma_lower_neq_at("rpm"@, "day"@, 0);
            lemma_lower_neq_at("rpm"@, "kpa"@, 0);
            lemma_lower_neq_at("rpm"@, "g/s"@, 0);
            lemma_lower_neq_at("rpm"@, "l/h"@, 0);
            lemma_lower_neq_at("rpm"@, "mpg"@, 0);
            assert(unit_from_str_spec(unit_to_str_spec(u)) == Some(VssUnit::rpm));
        },
        VssUnit::Hz => {
            assert(lower_seq("Hz"@).len() == 2);
            lemma_lower_neq_at("Hz"@, "mm"@, 0);
            lemma_lower_neq_at("Hz"@, "cm"@, 0);
            lemma_lower_neq_at("Hz"@, "km"@, 0);
            lemma_lower_neq_at("Hz"@, "ml"@, 0);
            lemma_lower_neq_at("Hz"@, "kw"@, 0);
            lemma_lower_neq_at("Hz"@, "ps"@, 0);
            lemma_lower_neq_at("Hz"@, "kg"@, 0);
            lemma_lower_neq_at("Hz"@, "ah"@, 0);
            lemma_lower_neq_at("Hz"@, "ms"@, 0);
            lemma_lower_neq_at("Hz"@, "pa"@, 0);
            lemma_lower_neq_at("Hz"@, "nm"@, 0);
            assert(lower_seq("Hz"@) =~= lower_seq("hz"@));
            assert(unit_from_str_spec(unit_to_str_spec(u)) == Some(VssUnit::Hz));
        },
        VssUnit::ratio => {
            lemma_lower_neq_at("ratio"@, "units"@, 0);
            lemma_lower_neq_at("ratio"@, "m/s^2"@, 0);
            lemma_lower_neq_at("ratio"@, "weeks"@, 0);
            lemma_lower_neq_at("ratio"@, "years"@, 0);
            lemma_lower_neq_at("ratio"@, "stars"@, 0);
            assert(unit_from_str_spec(unit_to_str_spec(u)) == Some(VssUnit::ratio));
        },
        VssUnit::percent => {
            lemma_lower_neq_at("percent"@, "celsius"@, 0);
            lemma_lower_neq_at("percent"@, "degrees"@, 0);
            lemma_lower_neq_at("percent"@, "l/100km"@, 0);
            assert(unit_from_str_spec(unit_to_str_spec(u)) == Some(VssUnit::percent));
        },
        VssUnit::nm_km => {
            lemma_lower_neq_at("nm/km"@, "units"@, 0);
            lemma_lower_neq_at("nm/km"@, "m/s^2"@, 0);
            lemma_lower_neq_at("nm/km"@, "weeks"@, 0);
            lemma_lower_neq_at("nm/km"@, "years"@, 0);
            lemma_lower_neq_at("nm/km"@, "stars"@, 0);
            lemma_lower_neq_at("nm/km"@, "ratio"@, 0);
            assert(unit_from_str_spec(unit_to_str_spec(u)) == Some(VssUnit::nm_km));
        },
        VssUnit::dBm => {
            assert(lower_seq("dBm"@).len() == 3);
            lemma_lower_neq_at("dBm"@, "m/s"@, 0);
            lemma_lower_neq_at("dBm"@, "kwh"@, 0);
            lemma_lower_neq_at("dBm"@, "lbs"@, 0);
            lemma_lower_neq_at("dBm"@, "min"@, 0);
            lemma_lower_neq_at("dBm"@, "day"@, 1);
            lemma_lower_neq_at("dBm"@, "kpa"@, 0);
            lemma_lower_neq_at("dBm"@, "g/s"@, 0);
            lemma_lower_neq_at("dBm"@, "l/h"@, 0);
            lemma_lower_neq_at("dBm"@, "mpg"@, 0);
            lemma_lower_neq_at("dBm"@, "rpm"@, 0);
            assert(lower_seq("dBm"@) =~= lower_seq("dbm"@));
            assert(unit_from_str_spec(unit_to_str_spec(u)) == Some(VssUnit::dBm));
        },
        VssUnit::kN => {
            assert(lower_seq("kN"@).len() == 2);
            lemma_lower_neq_at("kN"@, "mm"@, 0);
            lemma_lower_neq_at("kN"@, "cm"@, 0);
            lemma_lower_neq_at("kN"@, "km"@, 1);
            lemma_lower_neq_at("kN"@, "ml"@, 0);
            lemma_lower_neq_at("kN"@, "kw"@, 1);
            lemma_lower_neq_at("kN"@, "ps"@, 0);
            lemma_lower_neq_at("kN"@, "kg"@, 1);
            lemma_lower_neq_at("kN"@, "ah"@, 0);
            lemma_lower_neq_at("kN"@, "ms"@, 0);
            lemma_lower_neq_at("kN"@, "pa"@, 0);
            lemma_lower_neq_at("kN"@, "nm"@, 0);
            lemma_lower_neq_at("kN"@, "hz"@, 0);
            assert(lower_seq("kN"@) =~= lower_seq("kn"@));
            assert(unit_from_str_spec(unit_to_str_spec(u)) == Some(VssUnit::kN));
        },
        VssUnit::Unset => {},
    }
}


// ---------------------------------------------------------------------------
// Unit metadata
// ---------------------------------------------------------------------------

/// The physical quantity a unit measures.
#[allow(non_camel_case_types)]
#[derive(Debug, PartialEq, Eq, Structural, Clone, Copy)]
pub enum VssUnitClass {
    acceleration,
    angle,
    angular_speed,
    distance,
    distance_volume,
    electric_charge,
    electric_current,
    electric_potential,
    energu_consumption,
    energy,
    flow,
    force,
    frequency,
    mass,
    mass_distance,
    mass_per_time,
    Unset,
    power,
    pressure,
    rating,
    relation,
    rotational_speed,
    speed,
    temperature,
    time,
    Torque,
    volume,
    volume_distance,
}

/// Descriptive metadata of one unit, used only for introspection.
pub struct VssUnitInfo {
    pub uid: VssUnit,
    pub label: &'static str,
    pub description: &'static str,
    pub domain: VssUnitClass,
}

/// The introspection table of all registry units.
pub struct VssUnitPool {
    units: Vec<VssUnitInfo>,
}

impl VssUnitPool {
    /// The entries of the table.
    pub closed spec fn units_seq(&self) -> Seq<VssUnitInfo> {
        self.units@
    }

    /// The units of the table, in table order.
    pub open spec fn uids(&self) -> Seq<VssUnit> {
        self.units_seq().map_values(|u: VssUnitInfo| u.uid)
    }

    /// The long names of the table, in table order.
    pub open spec fn labels(&self) -> Seq<Seq<char>> {
        self.units_seq().map_values(|u: VssUnitInfo| u.label@)
    }

    /// The descriptions of the table, in table order.
    pub open spec fn descriptions(&self) -> Seq<Seq<char>> {
        self.units_seq().map_values(|u: VssUnitInfo| u.description@)
    }

    /// The physical-quantity classes of the table, in table order.
    pub open spec fn domains(&self) -> Seq<VssUnitClass> {
        self.units_seq().map_values(|u: VssUnitInfo| u.domain)
    }

    /// How many entries the table holds.
    pub fn len(&self) -> (r: usize)
        ensures
            r == self.units_seq().len(),
    {
        self.units.len()
    }

    /// The entry at an index.
    pub fn get(&self, idx: usize) -> (r: &VssUnitInfo)
        requires
            idx < self.units_seq().len(),
        ensures
            *r == self.units_seq()[idx as int],
    {
        &self.units[idx]
    }
}

impl VssUnitInfo {
    pub fn new(
        uid: VssUnit,
        label: &'static str,
        description: &'static str,
        domain: VssUnitClass,
    ) -> (r: VssUnitInfo)
        ensures
            r.uid == uid,
            r.label == label,
            r.description == description,
            r.domain == domain,
    {
        VssUnitInfo { uid, label, description, domain }
    }

    /// Builds the introspection table: one entry per registry unit, with its
    /// long name, description and physical-quantity class, all pinned by the
    /// table constants below.
    pub fn get_pool() -> (r: VssUnitPool)
        ensures
            r.uids() == pool_uids(),
            r.labels() == pool_labels(),
            r.descriptions() == pool_descriptions(),
            r.domains() == pool_domains(),
    {
        let mut pool = VssUnitPool { units: Vec::new() };

        pool.units.push(VssUnitInfo::new(
            VssUnit::mm,
            "millimeter",
            "Distance measured in millimeters",
            VssUnitClass::distance,
        ));
        pool.units.push(VssUnitInfo::new(
            VssUnit::cm,
            "centimeter",
            "Distance measured in centimeters",
            VssUnitClass::distance,
        ));
        pool.units.push(VssUnitInfo::new(
            VssUnit::m,
            "meter",
            "Distance measured in meters",
            VssUnitClass::distance,
        ));
        pool.units.push(VssUnitInfo::new(
            VssUnit::km,
            "kilometer",
            "Distance measured in kilometers",
            VssUnitClass::distance,
        ));
        pool.units.push(VssUnitInfo::new(
            VssUnit::inch,
            "inch",
            "Distance measured in inches",
            VssUnitClass::distance,
        ));
        pool.units.push(VssUnitInfo::new(
            VssUnit::km_h,
            "kilometer per hour",
            "Speed measured in kilometers per hours",
            VssUnitClass::speed,
        ));
        pool.units.push(VssUnitInfo::new(
            VssUnit::m_s,
            "meters per second",
            "Speed measured in meters per second",
            VssUnitClass::speed,
        ));
        pool.units.push(VssUnitInfo::new(
            VssUnit::m_sx2,
            "meters per second squared",
            "Acceleration measured in meters per second squared",
            VssUnitClass::acceleration,
        ));
        pool.units.push(VssUnitInfo::new(
            VssUnit::cm_sx2,
            "centimeters per second squared",
            "Acceleration measured in centimeters per second squared",
            VssUnitClass::acceleration,
        ));
        pool.units.push(VssUnitInfo::new(
            VssUnit::ml,
            "milliliter",
            "Volume measured in milliliters",
            VssUnitClass::volume,
        ));
        pool.units.push(VssUnitInfo::new(
            VssUnit::l,
            "liter",
            "Volume measured in liters",
            VssUnitClass::volume,
        ));
        pool.units.push(VssUnitInfo::new(
            VssUnit::cmx3,
            "cubic centimeters",
            "Volume measured in cubic centimeters",
            VssUnitClass::volume,
        ));
        pool.units.push(VssUnitInfo::new(
            VssUnit::celsius,
            "degree celsius",
            "Temperature measured in degree celsius",
            VssUnitClass::temperature,
        ));
        pool.units.push(VssUnitInfo::new(
            VssUnit::degrees,
            "degree",
            "Angle measured in degrees",
            VssUnitClass::angle,
        ));
        pool.units.push(VssUnitInfo::new(
            VssUnit::degrees_s,
            "degree per second",
            "Angular speed measured in degrees per second",
            VssUnitClass::angular_speed,
        ));
        pool.units.push(VssUnitInfo::new(
            VssUnit::W,
            "watt",
            "Power measured in watts",
            VssUnitClass::power,
        ));
        pool.units.push(VssUnitInfo::new(
            VssUnit::kW,
            "kilowatt",
            "Power measured in kilowatts",
            VssUnitClass::power,
        ));
        pool.units.push(VssUnitInfo::new(
            VssUnit::PS,
            "horsepower",
            "Power measured in horsepower",
            VssUnitClass::power,
        ));
        pool.units.push(VssUnitInfo::new(
            VssUnit::kWh,
            "kilowatt hours",
            "Energy consumption measured in kilowatt hours",
            VssUnitClass::energu_consumption,
        ));
        pool.units.push(VssUnitInfo::new(
            VssUnit::g,
            "gram",
            "Mass measured in grams",
            VssUnitClass::mass,
        ));
        pool.units.push(VssUnitInfo::new(
            VssUnit::kg,
            "kilogram",
            "Mass measured in kilograms",
            VssUnitClass::mass,
        ));
        pool.units.push(VssUnitInfo::new(
            VssUnit::lbs,
            "pound",
            "Mass measured in pounds",
            VssUnitClass::mass,
        ));
        pool.units.push(VssUnitInfo::new(
            VssUnit::V,
            "volt",
            "Electric potential measured in volts",
            VssUnitClass::electric_potential,
        ));
        pool.units.push(VssUnitInfo::new(
            VssUnit::A,
            "ampere",
            "Electric current measured in amperes",
            VssUnitClass::electric_current,
        ));
        pool.units.push(VssUnitInfo::new(
            VssUnit::Ah,
            "ampere hours",
            "Electric charge measured in ampere hours",
            VssUnitClass::electric_charge,
        ));
        pool.units.push(VssUnitInfo::new(
            VssUnit::ms,
            "millisecond",
            "Time measured in milliseconds",
            VssUnitClass::time,
        ));
        pool.units.push(VssUnitInfo::new(
            VssUnit::s,
            "second",
            "Time measured in seconds",
            VssUnitClass::time,
        ));
        pool.units.push(VssUnitInfo::new(
            VssUnit::min,
            "minute",
            "Time measured in minutes",
            VssUnitClass::time,
        ));
        pool.units.push(VssUnitInfo::new(
            VssUnit::h,
            "hour",
            "Time measured in hours",
            VssUnitClass::time,
        ));
        pool.units.push(VssUnitInfo::new(
            VssUnit::day,
            "days",
            "Time measured in days",
            VssUnitClass::time,
        ));
        pool.units.push(VssUnitInfo::new(
            VssUnit::weeks,
            "weeks",
            "Time measured in weeks",
            VssUnitClass::time,
        ));
        pool.units.push(VssUnitInfo::new(
            VssUnit::months,
            "months",
            "Time measured in months",
            VssUnitClass::time,
        ));
        pool.units.push(VssUnitInfo::new(
            VssUnit::years,
            "years",
            "Time measured in years",
            VssUnitClass::time,
        ));
        pool.units.push(VssUnitInfo::new(
            VssUnit::Timestamp,
            "Timestamp",
            "Unix time is a system for describing a point in time. It is the number of seconds that have elapsed since the Unix epoch, excluding leap seconds.",
            VssUnitClass::time,
        ));
        pool.units.push(VssUnitInfo::new(
            VssUnit::mbar,
            "millibar",
            "Pressure measured in millibars",
            VssUnitClass::pressure,
        ));
        pool.units.push(VssUnitInfo::new(
            VssUnit::Pa,
            "pascal",
            "Pressure measured in pascal",
            VssUnitClass::pressure,
        ));
        pool.units.push(VssUnitInfo::new(
            VssUnit::kPa,
            "kilopascal",
            "Pressure measured in kilopascal",
            VssUnitClass::pressure,
        ));
        pool.units.push(VssUnitInfo::new(
            VssUnit::stars,
            "stars",
            "Rating measured in stars",
            VssUnitClass::rating,
        ));
        pool.units.push(VssUnitInfo::new(
            VssUnit::g_s,
            "grams per second",
            "Mass per time measured in grams per second",
            VssUnitClass::mass_per_time,
        ));
        pool.units.push(VssUnitInfo::new(
            VssUnit::g_km,
            "grams per kilometer",
            "Mass per distance measured in grams per kilometers",
            VssUnitClass::mass_distance,
        ));
        pool.units.push(VssUnitInfo::new(
            VssUnit::kWh_100km,
            "kilowatt hours per 100 kilometers",
            "Energy consumption per distance measured in kilowatt hours per 100 kilometers",
            VssUnitClass::energy,
        ));
        pool.units.push(VssUnitInfo::new(
            VssUnit::ml_100km,
            "milliliter per 100 kilometers",
            "Volume per distance measured in milliliters per 100 kilometers",
            VssUnitClass::volume_distance,
        ));
        pool.units.push(VssUnitInfo::new(
            VssUnit::l_100km,
            "liter per 100 kilometers",
            "Volume per distance measured in liters per 100 kilometers",
            VssUnitClass::volume_distance,
        ));
        pool.units.push(VssUnitInfo::new(
            VssUnit::l_h,
            "liter per hour",
            "Flow measured in liters per hour",
            VssUnitClass::flow,
        ));
        pool.units.push(VssUnitInfo::new(
            VssUnit::mpg,
            "miles per gallon",
            "Distance per volume measured in miles per gallon",
            VssUnitClass::distance_volume,
        ));
        pool.units.push(VssUnitInfo::new(
            VssUnit::N,
            "newton",
            "force measured in newton",
            VssUnitClass::force,
        ));
        pool.units.push(VssUnitInfo::new(
            VssUnit::Nm,
            "newton meter",
            "Torque measured in newton meters",
            VssUnitClass::Torque,
        ));
        pool.units.push(VssUnitInfo::new(
            VssUnit::rpm,
            "revolutions per minute",
            "Rotational speed measured in revolutions per minute",
            VssUnitClass::rotational_speed,
        ));
        pool.units.push(VssUnitInfo::new(
            VssUnit::Hz,
            "frequency",
            "frequency measured in hertz",
            VssUnitClass::frequency,
        ));
        pool.units.push(VssUnitInfo::new(
            VssUnit::ratio,
            "ratio",
            "relation measured as ratio",
            VssUnitClass::relation,
        ));
        pool.units.push(VssUnitInfo::new(
            VssUnit::percent,
            "percent",
            "relation measured in percent",
            VssUnitClass::relation,
        ));
        pool.units.push(VssUnitInfo::new(
            VssUnit::nm_km,
            "nano meter per kilometer",
            "nm_km",
            VssUnitClass::Unset,
        ));
        pool.units.push(VssUnitInfo::new(
            VssUnit::dBm,
            "decibel milliwatt",
            "Power level expressed in decibels with reference to one milliwatt",
            VssUnitClass::relation,
        ));
        pool.units.push(VssUnitInfo::new(
            VssUnit::kN,
            "kilo newton",
            "force measured in kilo newton",
            VssUnitClass::force,
        ));

        proof {
            assert(pool.uids() =~= pool_uids());
            assert(pool.labels() =~= pool_labels());
            assert(pool.descriptions() =~= pool_descriptions());
            assert(pool.domains() =~= pool_domains());
        }
        pool
    }
}

/// The units of the introspection table, in table order.
pub open spec fn pool_uids() -> Seq<VssUnit> {
    seq![
        VssUnit::mm,
        VssUnit::cm,
        VssUnit::m,
        VssUnit::km,
        VssUnit::inch,
        VssUnit::km_h,
        VssUnit::m_s,
        VssUnit::m_sx2,
        VssUnit::cm_sx2,
        VssUnit::ml,
        VssUnit::l,
        VssUnit::cmx3,
        VssUnit::celsius,
        VssUnit::degrees,
        VssUnit::degrees_s,
        VssUnit::W,
        VssUnit::kW,
        VssUnit::PS,
        VssUnit::kWh,
        VssUnit::g,
        VssUnit::kg,
        VssUnit::lbs,
        VssUnit::V,
        VssUnit::A,
        VssUnit::Ah,
        VssUnit::ms,
        VssUnit::s,
        VssUnit::min,
        VssUnit::h,
        VssUnit::day,
        VssUnit::weeks,
        VssUnit::months,
        VssUnit::years,
        VssUnit::Timestamp,
        VssUnit::mbar,
        VssUnit::Pa,
        VssUnit::kPa,
        VssUnit::stars,
        VssUnit::g_s,
        VssUnit::g_km,
        VssUnit::kWh_100km,
        VssUnit::ml_100km,
        VssUnit::l_100km,
        VssUnit::l_h,
        VssUnit::mpg,
        VssUnit::N,
        VssUnit::Nm,
        VssUnit::rpm,
        VssUnit::Hz,
        VssUnit::ratio,
        VssUnit::percent,
        VssUnit::nm_km,
        VssUnit::dBm,
        VssUnit::kN,
    ]
}



/// The registries are closed: no token parses to the sentinel value of any
/// registry, so a parsed data type, unit or object kind is always a proper
/// member of its registry.
pub proof fn lemma_registry_closure(s: Seq<char>)
    ensures
        unit_from_str_spec(s) != Some(VssUnit::Unset),
        crate::types::value_type_from_str_spec(s) != Some(crate::types::VssValueType::Unset),
        crate::types::object_type_from_str_spec(s) != Some(crate::types::VssObjectType::Unset),
{
}


/// The long names of the introspection table, in table order.
pub open spec fn pool_labels() -> Seq<Seq<char>> {
    seq![
        "millimeter"@,
        "centimeter"@,
        "meter"@,
        "kilometer"@,
        "inch"@,
        "kilometer per hour"@,
        "meters per second"@,
        "meters per second squared"@,
        "centimeters per second squared"@,
        "milliliter"@,
        "liter"@,
        "cubic centimeters"@,
        "degree celsius"@,
        "degree"@,
        "degree per second"@,
        "watt"@,
        "kilowatt"@,
        "horsepower"@,
        "kilowatt hours"@,
        "gram"@,
        "kilogram"@,
        "pound"@,
        "volt"@,
        "ampere"@,
        "ampere hours"@,
        "millisecond"@,
        "second"@,
        "minute"@,
        "hour"@,
        "days"@,
        "weeks"@,
        "months"@,
        "years"@,
        "Timestamp"@,
        "millibar"@,
        "pascal"@,
        "kilopascal"@,
        "stars"@,
        "grams per second"@,
        "grams per kilometer"@,
        "kilowatt hours per 100 kilometers"@,
        "milliliter per 100 kilometers"@,
        "liter per 100 kilometers"@,
        "liter per hour"@,
        "miles per gallon"@,
        "newton"@,
        "newton meter"@,
        "revolutions per minute"@,
        "frequency"@,
        "ratio"@,
        "percent"@,
        "nano meter per kilometer"@,
        "decibel milliwatt"@,
        "kilo newton"@,
    ]
}

/// The descriptions of the introspection table, in table order.
pub open spec fn pool_descriptions() -> Seq<Seq<char>> {
    seq![
        "Distance measured in millimeters"@,
        "Distance measured in centimeters"@,
        "Distance measured in meters"@,
        "Distance measured in kilometers"@,
        "Distance measured in inches"@,
        "Speed measured in kilometers per hours"@,
        "Speed measured in meters per second"@,
        "Acceleration measured in meters per second squared"@,
        "Acceleration measured in centimeters per second squared"@,
        "Volume measured in milliliters"@,
        "Volume measured in liters"@,
        "Volume measured in cubic centimeters"@,
        "Temperature measured in degree celsius"@,
        "Angle measured in degrees"@,
        "Angular speed measured in degrees per second"@,
        "Power measured in watts"@,
        "Power measured in kilowatts"@,
        "Power measured in horsepower"@,
        "Energy consumption measured in kilowatt hours"@,
        "Mass measured in grams"@,
        "Mass measured in kilograms"@,
        "Mass measured in pounds"@,
        "Electric potential measured in volts"@,
        "Electric current measured in amperes"@,
        "Electric charge measured in ampere hours"@,
        "Time measured in milliseconds"@,
        "Time measured in seconds"@,
        "Time measured in minutes"@,
        "Time measured in hours"@,
        "Time measured in days"@,
        "Time measured in weeks"@,
        "Time measured in months"@,
        "Time measured in years"@,
        "Unix time is a system for describing a point in time. It is the number of seconds that have elapsed since the Unix epoch, excluding leap seconds."@,
        "Pressure measured in millibars"@,
        "Pressure measured in pascal"@,
        "Pressure measured in kilopascal"@,
        "Rating measured in stars"@,
        "Mass per time measured in grams per second"@,
        "Mass per distance measured in grams per kilometers"@,
        "Energy consumption per distance measured in kilowatt hours per 100 kilometers"@,
        "Volume per distance measured in milliliters per 100 kilometers"@,
        "Volume per distance measured in liters per 100 kilometers"@,
        "Flow measured in liters per hour"@,
        "Distance per volume measured in miles per gallon"@,
        "force measured in newton"@,
        "Torque measured in newton meters"@,
        "Rotational speed measured in revolutions per minute"@,
        "frequency measured in hertz"@,
        "relation measured as ratio"@,
        "relation measured in percent"@,
        "nm_km"@,
        "Power level expressed in decibels with reference to one milliwatt"@,
        "force measured in kilo newton"@,
    ]
}

/// The physical-quantity classes of the introspection table, in table order.
pub open spec fn pool_domains() -> Seq<VssUnitClass> {
    seq![
        VssUnitClass::distance,
        VssUnitClass::distance,
        VssUnitClass::distance,
        VssUnitClass::distance,
        VssUnitClass::distance,
        VssUnitClass::speed,
        VssUnitClass::speed,
        VssUnitClass::acceleration,
        VssUnitClass::acceleration,
        VssUnitClass::volume,
        VssUnitClass::volume,
        VssUnitClass::volume,
        VssUnitClass::temperature,
        VssUnitClass::angle,
        VssUnitClass::angular_speed,
        VssUnitClass::power,
        VssUnitClass::power,
        VssUnitClass::power,
        VssUnitClass::energu_consumption,
        VssUnitClass::mass,
        VssUnitClass::mass,
        VssUnitClass::mass,
        VssUnitClass::electric_potential,
        VssUnitClass::electric_current,
        VssUnitClass::electric_charge,
        VssUnitClass::time,
        VssUnitClass::time,
        VssUnitClass::time,
        VssUnitClass::time,
        VssUnitClass::time,
        VssUnitClass::time,
        VssUnitClass::time,
        VssUnitClass::time,
        VssUnitClass::time,
        VssUnitClass::pressure,
        VssUnitClass::pressure,
        VssUnitClass::pressure,
        VssUnitClass::rating,
        VssUnitClass::mass_per_time,
        VssUnitClass::mass_distance,
        VssUnitClass::energy,
        VssUnitClass::volume_distance,
        VssUnitClass::volume_distance,
        VssUnitClass::flow,
        VssUnitClass::distance_volume,
        VssUnitClass::force,
        VssUnitClass::Torque,
        VssUnitClass::rotational_speed,
        VssUnitClass::frequency,
        VssUnitClass::relation,
        VssUnitClass::relation,
        VssUnitClass::Unset,
        VssUnitClass::relation,
        VssUnitClass::force,
    ]
}

/// No unit appears twice in the introspection table.
pub proof fn lemma_pool_uids_distinct()
    ensures
        forall|i: int, j: int|
            0 <= i < j < pool_uids().len() ==> pool_uids()[i] != pool_uids()[j],
{
    assert(pool_uids()[0] == VssUnit::mm);
    assert(pool_uids()[1] == VssUnit::cm);
    assert(pool_uids()[2] == VssUnit::m);
    assert(pool_uids()[3] == VssUnit::km);
    assert(pool_uids()[4] == VssUnit::inch);
    assert(pool_uids()[5] == VssUnit::km_h);
    assert(pool_uids()[6] == VssUnit::m_s);
    assert(pool_uids()[7] == VssUnit::m_sx2);
    assert(pool_uids()[8] == VssUnit::cm_sx2);
    assert(pool_uids()[9] == VssUnit::ml);
    assert(pool_uids()[10] == VssUnit::l);
    assert(pool_uids()[11] == VssUnit::cmx3);
    assert(pool_uids()[12] == VssUnit::celsius);
    assert(pool_uids()[13] == VssUnit::degrees);
    assert(pool_uids()[14] == VssUnit::degrees_s);
    assert(pool_uids()[15] == VssUnit::W);
    assert(pool_uids()[16] == VssUnit::kW);
    assert(pool_uids()[17] == VssUnit::PS);
    assert(pool_uids()[18] == VssUnit::kWh);
    assert(pool_uids()[19] == VssUnit::g);
    assert(pool_uids()[20] == VssUnit::kg);
    assert(pool_uids()[21] == VssUnit::lbs);
    assert(pool_uids()[22] == VssUnit::V);
    assert(pool_uids()[23] == VssUnit::A);
    assert(pool_uids()[24] == VssUnit::Ah);
    assert(pool_uids()[25] == VssUnit::ms);
    assert(pool_uids()[26] == VssUnit::s);
    assert(pool_uids()[27] == VssUnit::min);
    assert(pool_uids()[28] == VssUnit::h);
    assert(pool_uids()[29] == VssUnit::day);
    assert(pool_uids()[30] == VssUnit::weeks);
    assert(pool_uids()[31] == VssUnit::months);
    assert(pool_uids()[32] == VssUnit::years);
    assert(pool_uids()[33] == VssUnit::Timestamp);
    assert(pool_uids()[34] == VssUnit::mbar);
    assert(pool_uids()[35] == VssUnit::Pa);
    assert(pool_uids()[36] == VssUnit::kPa);
    assert(pool_uids()[37] == VssUnit::stars);
    assert(pool_uids()[38] == VssUnit::g_s);
    assert(pool_uids()[39] == VssUnit::g_km);
    assert(pool_uids()[40] == VssUnit::kWh_100km);
    assert(pool_uids()[41] == VssUnit::ml_100km);
    assert(pool_uids()[42] == VssUnit::l_100km);
    assert(pool_uids()[43] == VssUnit::l_h);
    assert(pool_uids()[44] == VssUnit::mpg);
    assert(pool_uids()[45] == VssUnit::N);
    assert(pool_uids()[46] == VssUnit::Nm);
    assert(pool_uids()[47] == VssUnit::rpm);
    assert(pool_uids()[48] == VssUnit::Hz);
    assert(pool_uids()[49] == VssUnit::ratio);
    assert(pool_uids()[50] == VssUnit::percent);
    assert(pool_uids()[51] == VssUnit::nm_km);
    assert(pool_uids()[52] == VssUnit::dBm);
    assert(pool_uids()[53] == VssUnit::kN);
}

/// Every entry of the introspection table carries a long name and a
/// description.
pub proof fn lemma_pool_metadata_nonempty()
    ensures
        forall|i: int|
            0 <= i < pool_labels().len() ==> #[trigger] pool_labels()[i].len() > 0,
        forall|i: int|
            0 <= i < pool_descriptions().len() ==> #[trigger] pool_descriptions()[i].len() > 0,
{
    reveal_strlit("Acceleration measured in centimeters per second squared");
    reveal_strlit("Acceleration measured in meters per second squared");
    reveal_strlit("Angle measured in degrees");
    reveal_strlit("Angular speed measured in degrees per second");
    reveal_strlit("Distance measured in centimeters");
    reveal_strlit("Distance measured in inches");
    reveal_strlit("Distance measured in kilometers");
    reveal_strlit("Distance measured in meters");
    reveal_strlit("Distance measured in millimeters");
    reveal_strlit("Distance per volume measured in miles per gallon");
    reveal_strlit("Electric charge measured in ampere hours");
    reveal_strlit("Electric current measured in amperes");
    reveal_strlit("Electric potential measured in volts");
    reveal_strlit("Energy consumption measured in kilowatt hours");
    reveal_strlit("Energy consumption per distance measured in kilowatt hours per 100 kilometers");
    reveal_strlit("Flow measured in liters per hour");
    reveal_strlit("Mass measured in grams");
    reveal_strlit("Mass measured in kilograms");
    reveal_strlit("Mass measured in pounds");
    reveal_strlit("Mass per distance measured in grams per kilometers");
    reveal_strlit("Mass per time measured in grams per second");
    reveal_strlit("Power level expressed in decibels with reference to one milliwatt");
    reveal_strlit("Power measured in horsepower");
    reveal_strlit("Power measured in kilowatts");
    reveal_strlit("Power measured in watts");
    reveal_strlit("Pressure measured in kilopascal");
    reveal_strlit("Pressure measured in millibars");
    reveal_strlit("Pressure measured in pascal");
    reveal_strlit("Rating measured in stars");
    reveal_strlit("Rotational speed measured in revolutions per minute");
    reveal_strlit("Speed measured in kilometers per hours");
    reveal_strlit("Speed measured in meters per second");
    reveal_strlit("Temperature measured in degree celsius");
    reveal_strlit("Time measured in days");
    reveal_strlit("Time measured in hours");
    reveal_strlit("Time measured in milliseconds");
    reveal_strlit("Time measured in minutes");
    reveal_strlit("Time measured in months");
    reveal_strlit("Time measured in seconds");
    reveal_strlit("Time measured in weeks");
    reveal_strlit("Time measured in years");
    reveal_strlit("Timestamp");
    reveal_strlit("Torque measured in newton meters");
    reveal_strlit("Unix time is a system for describing a point in time. It is the number of seconds that have elapsed since the Unix epoch, excluding leap seconds.");
    reveal_strlit("Volume measured in cubic centimeters");
    reveal_strlit("Volume measured in liters");
    reveal_strlit("Volume measured in milliliters");
    reveal_strlit("Volume per distance measured in liters per 100 kilometers");
    reveal_strlit("Volume per distance measured in milliliters per 100 kilometers");
    reveal_strlit("ampere");
    reveal_strlit("ampere hours");
    reveal_strlit("centimeter");
    reveal_strlit("centimeters per second squared");
    reveal_strlit("cubic centimeters");
    reveal_strlit("days");
    reveal_strlit("decibel milliwatt");
    reveal_strlit("degree");
    reveal_strlit("degree celsius");
    reveal_strlit("degree per second");
    reveal_strlit("force measured in kilo newton");
    reveal_strlit("force measured in newton");
    reveal_strlit("frequency");
    reveal_strlit("frequency measured in hertz");
    reveal_strlit("gram");
    reveal_strlit("grams per kilometer");
    reveal_strlit("grams per second");
    reveal_strlit("horsepower");
    reveal_strlit("hour");
    reveal_strlit("inch");
    reveal_strlit("kilo newton");
    reveal_strlit("kilogram");
    reveal_strlit("kilometer");
    reveal_strlit("kilometer per hour");
    reveal_strlit("kilopascal");
    reveal_strlit("kilowatt");
    reveal_strlit("kilowatt hours");
    reveal_strlit("kilowatt hours per 100 kilometers");
    reveal_strlit("liter");
    reveal_strlit("liter per 100 kilometers");
    reveal_strlit("liter per hour");
    reveal_strlit("meter");
    reveal_strlit("meters per second");
    reveal_strlit("meters per second squared");
    reveal_strlit("miles per gallon");
    reveal_strlit("millibar");
    reveal_strlit("milliliter");
    reveal_strlit("milliliter per 100 kilometers");
    reveal_strlit("millimeter");
    reveal_strlit("millisecond");
    reveal_strlit("minute");
    reveal_strlit("months");
    reveal_strlit("nano meter per kilometer");
    reveal_strlit("newton");
    reveal_strlit("newton meter");
    reveal_strlit("nm_km");
    reveal_strlit("pascal");
    reveal_strlit("percent");
    reveal_strlit("pound");
    reveal_strlit("ratio");
    reveal_strlit("relation measured as ratio");
    reveal_strlit("relation measured in percent");
    reveal_strlit("revolutions per minute");
    reveal_strlit("second");
    reveal_strlit("stars");
    reveal_strlit("volt");
    reveal_strlit("watt");
    reveal_strlit("weeks");
    reveal_strlit("years");
    assert(pool_labels()[0].len() == 10);
    assert(pool_descriptions()[0].len() == 32);
    assert(pool_labels()[1].len() == 10);
    assert(pool_descriptions()[1].len() == 32);
    assert(pool_labels()[2].len() == 5);
    assert(pool_descriptions()[2].len() == 27);
    assert(pool_labels()[3].len() == 9);
    assert(pool_descriptions()[3].len() == 31);
    assert(pool_labels()[4].len() == 4);
    assert(pool_descriptions()[4].len() == 27);
    assert(pool_labels()[5].len() == 18);
    assert(pool_descriptions()[5].len() == 38);
    assert(pool_labels()[6].len() == 17);
    assert(pool_descriptions()[6].len() == 35);
    assert(pool_labels()[7].len() == 25);
    assert(pool_descriptions()[7].len() == 50);
    assert(pool_labels()[8].len() == 30);
    assert(pool_descriptions()[8].len() == 55);
    assert(pool_labels()[9].len() == 10);
    assert(pool_descriptions()[9].len() == 30);
    assert(pool_labels()[10].len() == 5);
    assert(pool_descriptions()[10].len() == 25);
    assert(pool_labels()[11].len() == 17);
    assert(pool_descriptions()[11].len() == 36);
    assert(pool_labels()[12].len() == 14);
    assert(pool_descriptions()[12].len() == 38);
    assert(pool_labels()[13].len() == 6);
    assert(pool_descriptions()[13].len() == 25);
    assert(pool_labels()[14].len() == 17);
    assert(pool_descriptions()[14].len() == 44);
    assert(pool_labels()[15].len() == 4);
    assert(pool_descriptions()[15].len() == 23);
    assert(pool_labels()[16].len() == 8);
    assert(pool_descriptions()[16].len() == 27);
    assert(pool_labels()[17].len() == 10);
    assert(pool_descriptions()[17].len() == 28);
    assert(pool_labels()[18].len() == 14);
    assert(pool_descriptions()[18].len() == 45);
    assert(pool_labels()[19].len() == 4);
    assert(pool_descriptions()[19].len() == 22);
    assert(pool_labels()[20].len() == 8);
    assert(pool_descriptions()[20].len() == 26);
    assert(pool_labels()[21].len() == 5);
    assert(pool_descriptions()[21].len() == 23);
    assert(pool_labels()[22].len() == 4);
    assert(pool_descriptions()[22].len() == 36);
    assert(pool_labels()[23].len() == 6);
    assert(pool_descriptions()[23].len() == 36);
    assert(pool_labels()[24].len() == 12);
    assert(pool_descriptions()[24].len() == 40);
    assert(pool_labels()[25].len() == 11);
    assert(pool_descriptions()[25].len() == 29);
    assert(pool_labels()[26].len() == 6);
    assert(pool_descriptions()[26].len() == 24);
    assert(pool_labels()[27].len() == 6);
    assert(pool_descriptions()[27].len() == 24);
    assert(pool_labels()[28].len() == 4);
    assert(pool_descriptions()[28].len() == 22);
    assert(pool_labels()[29].len() == 4);
    assert(pool_descriptions()[29].len() == 21);
    assert(pool_labels()[30].len() == 5);
    assert(pool_descriptions()[30].len() == 22);
    assert(pool_labels()[31].len() == 6);
    assert(pool_descriptions()[31].len() == 23);
    assert(pool_labels()[32].len() == 5);
    assert(pool_descriptions()[32].len() == 22);
    assert(pool_labels()[33].len() == 9);
    assert(pool_descriptions()[33].len() == 145);
    assert(pool_labels()[34].len() == 8);
    assert(pool_descriptions()[34].len() == 30);
    assert(pool_labels()[35].len() == 6);
    assert(pool_descriptions()[35].len() == 27);
    assert(pool_labels()[36].len() == 10);
    assert(pool_descriptions()[36].len() == 31);
    assert(pool_labels()[37].len() == 5);
    assert(pool_descriptions()[37].len() == 24);
    assert(pool_labels()[38].len() == 16);
    assert(pool_descriptions()[38].len() == 42);
    assert(pool_labels()[39].len() == 19);
    assert(pool_descriptions()[39].len() == 50);
    assert(pool_labels()[40].len() == 33);
    assert(pool_descriptions()[40].len() == 77);
    assert(pool_labels()[41].len() == 29);
    assert(pool_descriptions()[41].len() == 62);
    assert(pool_labels()[42].len() == 24);
    assert(pool_descriptions()[42].len() == 57);
    assert(pool_labels()[43].len() == 14);
    assert(pool_descriptions()[43].len() == 32);
    assert(pool_labels()[44].len() == 16);
    assert(pool_descriptions()[44].len() == 48);
    assert(pool_labels()[45].len() == 6);
    assert(pool_descriptions()[45].len() == 24);
    assert(pool_labels()[46].len() == 12);
    assert(pool_descriptions()[46].len() == 32);
    assert(pool_labels()[47].len() == 22);
    assert(pool_descriptions()[47].len() == 51);
    assert(pool_labels()[48].len() == 9);
    assert(pool_descriptions()[48].len() == 27);
    assert(pool_labels()[49].len() == 5);
    assert(pool_descriptions()[49].len() == 26);
    assert(pool_labels()[50].len() == 7);
    assert(pool_descriptions()[50].len() == 28);
    assert(pool_labels()[51].len() == 24);
    assert(pool_descriptions()[51].len() == 5);
    assert(pool_labels()[52].len() == 17);
    assert(pool_descriptions()[52].len() == 65);
    assert(pool_labels()[53].len() == 11);
    assert(pool_descriptions()[53].len() == 29);
}

} // verus!
