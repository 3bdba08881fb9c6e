//! Tests of the closed unit, value-type and object-type registries.

use vssparser::types::VssObjectType;
use vssparser::types::VssValueType;
use vssparser::units::VssUnit;
use vssparser::units::VssUnitClass;
use vssparser::units::VssUnitInfo;

#[test]
fn unit_round_trip_every_registry_token() {
    let units = [
        VssUnit::units,
        VssUnit::mm,
        VssUnit::cm,
        VssUnit::m,
        VssUnit::km,
        VssUnit::inch,
        VssUnit::km_h,
        VssUnit::m_s,
        VssUnit::m_sx2,
        VssUnit::cm_sx2,
        VssUnit::ml,
        VssUnit::l,
        VssUnit::cmx3,
        VssUnit::celsius,
        VssUnit::degrees,
        VssUnit::degrees_s,
        VssUnit::W,
        VssUnit::kW,
        VssUnit::PS,
        VssUnit::kWh,
        VssUnit::g,
        VssUnit::kg,
        VssUnit::lbs,
        VssUnit::V,
        VssUnit::A,
        VssUnit::Ah,
        VssUnit::ms,
        VssUnit::s,
        VssUnit::min,
        VssUnit::h,
        VssUnit::day,
        VssUnit::weeks,
        VssUnit::months,
        VssUnit::years,
        VssUnit::Timestamp,
        VssUnit::mbar,
        VssUnit::Pa,
        VssUnit::kPa,
        VssUnit::stars,
        VssUnit::g_s,
        VssUnit::g_km,
        VssUnit::kWh_100km,
        VssUnit::ml_100km,
        VssUnit::l_100km,
        VssUnit::l_h,
        VssUnit::mpg,
        VssUnit::N,
        VssUnit::Nm,
        VssUnit::rpm,
        VssUnit::Hz,
        VssUnit::ratio,
        VssUnit::percent,
        VssUnit::nm_km,
        VssUnit::dBm,
        VssUnit::kN,
    ];
    for u in units {
        let rendered = u.to_str();
        let reparsed = VssUnit::from_str(rendered).unwrap();
        assert_eq!(reparsed, u);
    }
}

#[test]
fn unit_from_str_is_case_insensitive() {
    assert_eq!(VssUnit::from_str("KM/H").unwrap(), VssUnit::km_h);
    assert_eq!(VssUnit::from_str("Celsius").unwrap(), VssUnit::celsius);
    assert_eq!(VssUnit::from_str("kWh/100km").unwrap(), VssUnit::kWh_100km);
}

#[test]
fn unit_from_str_rejects_unknown_tokens() {
    let err = VssUnit::from_str("parsec").unwrap_err();
    assert_eq!(err.get_uid(), "vss-objunit-invalid");
    assert_eq!(err.get_info(), "label:parsec is not a vss unit");
}

#[test]
fn unset_unit_rendering_is_not_a_registry_token() {
    assert_eq!(VssUnit::Unset.to_str(), "Unset");
    assert!(VssUnit::from_str("Unset").is_err());
}

#[test]
fn value_type_round_trip() {
    let types = [
        VssValueType::Uint8,
        VssValueType::Int8,
        VssValueType::Uint16,
        VssValueType::Int16,
        VssValueType::Uint32,
        VssValueType::Int32,
        VssValueType::Uint64,
        VssValueType::Int64,
        VssValueType::Boolean,
        VssValueType::Float,
        VssValueType::Double,
        VssValueType::String,
    ];
    for t in types {
        assert_eq!(VssValueType::from_str(t.to_str()).unwrap(), t);
    }
    assert_eq!(VssValueType::Unset.to_str(), "unset");
    let err = VssValueType::from_str("unset").unwrap_err();
    assert_eq!(err.get_uid(), "vss-datatype-invalid");
}

#[test]
fn object_type_round_trip() {
    assert_eq!(VssObjectType::from_str("branch").unwrap(), VssObjectType::Branch);
    assert_eq!(VssObjectType::from_str("SENSOR").unwrap(), VssObjectType::Sensor);
    assert_eq!(VssObjectType::from_str("Actuator").unwrap(), VssObjectType::Actuator);
    assert_eq!(VssObjectType::from_str("attribute").unwrap(), VssObjectType::Attribute);
    assert!(VssObjectType::from_str("widget").is_err());
    assert_eq!(VssObjectType::Unset.to_str(), "attribute");
}

#[test]
fn unit_pool_holds_every_registry_unit() {
    let pool = VssUnitInfo::get_pool();
    assert_eq!(pool.len(), 54);
    assert_eq!(pool.get(0).uid, VssUnit::mm);
    assert_eq!(pool.get(0).label, "millimeter");
    assert_eq!(pool.get(0).description, "Distance measured in millimeters");
    assert_eq!(pool.get(53).uid, VssUnit::kN);
    assert_eq!(pool.get(53).label, "kilo newton");
}

#[test]
fn unit_pool_metadata_is_filled_and_uids_are_distinct() {
    let pool = VssUnitInfo::get_pool();
    for i in 0..pool.len() {
        assert!(!pool.get(i).label.is_empty());
        assert!(!pool.get(i).description.is_empty());
        for j in 0..i {
            assert_ne!(pool.get(j).uid, pool.get(i).uid);
        }
    }
}

#[test]
fn unit_pool_domains_follow_the_table() {
    let pool = VssUnitInfo::get_pool();
    assert_eq!(pool.get(0).domain, VssUnitClass::distance);
    assert_eq!(pool.get(5).domain, VssUnitClass::speed);
    assert_eq!(pool.get(5).label, "kilometer per hour");
}
