//! Scenario tests of the object parser, driven through the loader and the
//! location index exactly as a caller would use them.

use vssparser::loader::LoadStep;
use vssparser::loader::VssLoader;
use vssparser::parser::vss_parse_rules;
use vssparser::types::make_filename;
use vssparser::types::Locator;
use vssparser::types::VssHandle;
use vssparser::types::VssSpec;
use vssparser::types::VssValueType;
use vssparser::units::VssUnit;

fn locator_of(text: &str) -> Locator {
    let mut loader = VssLoader::new("root.vss".to_string(), None, None);
    match loader.step().unwrap() {
        LoadStep::NeedFile(_) => {}
        LoadStep::Done => panic!("loader finished before reading the root file"),
    }
    loader.supply_file(text);
    loop {
        match loader.step().unwrap() {
            LoadStep::Done => break,
            LoadStep::NeedFile(p) => panic!("unexpected file request: {}", p),
        }
    }
    let handle = VssHandle {
        count: 0,
        filename: make_filename("root.vss".to_string(), None, None),
        data: loader.into_data(),
    };
    Locator::new(handle).unwrap()
}

fn parse(text: &str) -> Result<VssSpec, vssparser::types::AfbError> {
    let locator = locator_of(text);
    vss_parse_rules(&locator)
}

#[test]
fn end_to_end_single_sensor() {
    let spec = parse("Vehicle.Speed:\n  type: sensor\n  datatype: float\n  unit: km/h\n").unwrap();
    assert_eq!(spec.sensors.len(), 1);
    assert_eq!(spec.branches.len(), 0);
    assert_eq!(spec.attributes.len(), 0);
    let s = &spec.sensors[0];
    assert_eq!(s.vpath, "Vehicle.Speed");
    assert_eq!(s.datatype, VssValueType::Float);
    assert_eq!(s.unit, VssUnit::km_h);
    assert_eq!(s.min, None);
    assert_eq!(s.max, None);
    assert_eq!(s.arraysize, None);
}

#[test]
fn parsing_twice_yields_equal_specs() {
    let text = "Vehicle.Speed:\n  type: sensor\n  datatype: float\n  unit: km/h\n  min: -3\n\
                Vehicle.Name:\n  type: attribute\n  datatype: string\n";
    let a = parse(text).unwrap();
    let b = parse(text).unwrap();
    assert_eq!(a.sensors, b.sensors);
    assert_eq!(a.attributes, b.attributes);
    assert_eq!(a.branches, b.branches);
}

#[test]
fn bracket_and_dash_lists_agree() {
    let bracketed = parse(
        "A:\n  type: attribute\n  datatype: string\n  allowed: [1, 2, 3]\n",
    )
    .unwrap();
    let dashed = parse(
        "A:\n  type: attribute\n  datatype: string\n  allowed:\n    - 1\n    - 2\n    - 3\n",
    )
    .unwrap();
    assert_eq!(bracketed.attributes[0].allowed, vec!["1", "2", "3"]);
    assert_eq!(dashed.attributes[0].allowed, vec!["1", "2", "3"]);
    assert_eq!(bracketed.attributes[0].allowed, dashed.attributes[0].allowed);
}

#[test]
fn quoted_elements_in_lists() {
    let spec = parse(
        "A:\n  type: attribute\n  datatype: string\n  allowed: [\"low\", 'high']\n",
    )
    .unwrap();
    assert_eq!(spec.attributes[0].allowed, vec!["low", "high"]);
}

#[test]
fn default_accepts_a_single_scalar() {
    let spec = parse("A:\n  type: attribute\n  datatype: uint8\n  default: 7\n").unwrap();
    assert_eq!(spec.attributes[0].default, vec!["7"]);
}

#[test]
fn unauthorized_tag_is_rejected_with_its_line() {
    let err = parse(
        "A.B:\n  type: attribute\n  datatype: string\n  badtag: 1\n",
    )
    .unwrap_err();
    assert_eq!(err.get_uid(), "vss-unauthorized-tag");
    assert_eq!(err.get_info(), "./root.vss:4 'invalid: (badtag: 1)'");
}

#[test]
fn attribute_field_set_is_closed_but_bounds_tags_are_tolerated() {
    // min, max and arraysize are authorized tags on an attribute even though
    // the attribute grammar extracts no bounds
    let spec = parse(
        "A:\n  type: attribute\n  datatype: string\n  min: 1\n  max: 2\n",
    )
    .unwrap();
    assert_eq!(spec.attributes.len(), 1);
}

#[test]
fn sensor_bounds_parse_to_integers() {
    let spec = parse(
        "S:\n  type: sensor\n  datatype: int32\n  min: -10\n  max: 10\n",
    )
    .unwrap();
    assert_eq!(spec.sensors[0].min, Some(-10));
    assert_eq!(spec.sensors[0].max, Some(10));
}

#[test]
fn non_numeric_bound_is_rejected() {
    let err = parse("S:\n  type: sensor\n  datatype: int32\n  min: abc\n").unwrap_err();
    assert_eq!(err.get_uid(), "vss-bounds-not-numeric");
}

#[test]
fn missing_type_tag_is_structural() {
    let err = parse("S:\n  datatype: int32\n").unwrap_err();
    assert_eq!(err.get_uid(), "vss-object-type-unset");
}

#[test]
fn invalid_datatype_is_rejected() {
    let err = parse("S:\n  type: sensor\n  datatype: blob\n").unwrap_err();
    assert_eq!(err.get_uid(), "vss-datatype-invalid");
}

#[test]
fn invalid_unit_is_rejected() {
    let err = parse("S:\n  type: sensor\n  datatype: float\n  unit: parsec\n").unwrap_err();
    assert_eq!(err.get_uid(), "vss-objunit-invalid");
}

#[test]
fn non_numeric_arraysize_is_rejected() {
    let err = parse("S:\n  type: sensor\n  datatype: int32\n  arraysize: big\n").unwrap_err();
    assert_eq!(err.get_uid(), "vss-arraysize-not-numeric");
}

#[test]
fn array_marker_sets_sentinel_size() {
    let spec = parse("S:\n  type: sensor\n  datatype: uint8[]\n").unwrap();
    assert_eq!(spec.sensors[0].datatype, VssValueType::Uint8);
    assert_eq!(spec.sensors[0].arraysize, Some(0));
}

#[test]
fn explicit_arraysize_overrides_sentinel() {
    let spec = parse("S:\n  type: sensor\n  datatype: uint8[]\n  arraysize: 4\n").unwrap();
    assert_eq!(spec.sensors[0].arraysize, Some(4));
}

#[test]
fn description_joins_continuation_lines() {
    let spec = parse(
        "A:\n  type: attribute\n  datatype: string\n  description: first part\n               continued here\n",
    )
    .unwrap();
    assert_eq!(spec.attributes[0].description.as_deref(), Some("first part continued here"));
}

#[test]
fn comment_field_is_extracted() {
    let spec = parse("A:\n  type: attribute\n  datatype: string\n  comment: a note\n").unwrap();
    assert_eq!(spec.attributes[0].comment.as_deref(), Some("a note"));
}

#[test]
fn branch_aggregate_reads_boolean_token() {
    let spec = parse("B:\n  type: branch\n  aggregate: true\n").unwrap();
    assert!(spec.branches[0].aggregate);
    let spec = parse("B:\n  type: branch\n  aggregate: FALSE\n").unwrap();
    assert!(!spec.branches[0].aggregate);
}

#[test]
fn inline_instances_collect_every_group() {
    let spec = parse(
        "B:\n  type: branch\n  instances: Row[1,2] [\"Left\",\"Right\"]\n",
    )
    .unwrap();
    let inst = &spec.branches[0].instances;
    assert_eq!(inst.len(), 2);
    assert_eq!(inst[0].prefix.as_deref(), Some("Row"));
    assert_eq!(inst[0].array, vec!["1", "2"]);
    assert_eq!(inst[1].prefix, None);
    assert_eq!(inst[1].array, vec!["Left", "Right"]);
}

#[test]
fn dashed_instances_collect_every_group() {
    let spec = parse(
        "B:\n  type: branch\n  instances:\n    - Row[1,2]\n    - [\"Left\",\"Right\"]\n",
    )
    .unwrap();
    let inst = &spec.branches[0].instances;
    assert_eq!(inst.len(), 2);
    assert_eq!(inst[0].prefix.as_deref(), Some("Row"));
    assert_eq!(inst[0].array, vec!["1", "2"]);
    assert_eq!(inst[1].prefix, None);
    assert_eq!(inst[1].array, vec!["Left", "Right"]);
}

#[test]
fn actuators_share_the_sensor_grammar() {
    let spec = parse("S:\n  type: actuator\n  datatype: float\n  unit: percent\n").unwrap();
    assert_eq!(spec.sensors.len(), 1);
    assert_eq!(spec.sensors[0].vtype, vssparser::types::VssObjectType::Actuator);
}

#[test]
fn objects_accumulate_in_source_order() {
    let spec = parse(
        "B:\n  type: branch\nS1:\n  type: sensor\n  datatype: int8\nS2:\n  type: sensor\n  datatype: int16\nA:\n  type: attribute\n  datatype: string\n",
    )
    .unwrap();
    assert_eq!(spec.branches.len(), 1);
    assert_eq!(spec.sensors.len(), 2);
    assert_eq!(spec.attributes.len(), 1);
    assert_eq!(spec.sensors[0].vpath, "S1");
    assert_eq!(spec.sensors[1].vpath, "S2");
}

#[test]
fn empty_input_parses_to_an_empty_spec() {
    let spec = parse("").unwrap();
    assert_eq!(spec.branches.len(), 0);
    assert_eq!(spec.sensors.len(), 0);
    assert_eq!(spec.attributes.len(), 0);
}

#[test]
fn comments_and_blank_lines_are_dropped_but_counted() {
    let err = parse(
        "# heading\n\nA.B:\n  type: attribute\n  datatype: string\n  badtag: 1\n",
    )
    .unwrap_err();
    // the offending tag sits on physical line 6 of the file
    assert_eq!(err.get_info(), "./root.vss:6 'invalid: (badtag: 1)'");
}

#[test]
fn branch_rejects_data_field_tags() {
    let err = parse("B:\n  type: branch\n  datatype: int8\n").unwrap_err();
    assert_eq!(err.get_uid(), "vss-unauthorized-tag");
    assert_eq!(err.get_info(), "./root.vss:3 'invalid: (datatype: int8)'");
}

#[test]
fn deprecation_tag_is_always_tolerated() {
    let spec = parse("B:\n  type: branch\n  deprecation: v2\n").unwrap();
    assert_eq!(spec.branches.len(), 1);
}

#[test]
fn empty_quoted_strings_are_rejected_as_elements() {
    let err = parse("A:\n  type: attribute\n  datatype: string\n  allowed: [\"\"]\n").unwrap_err();
    assert_eq!(err.get_uid(), "vss-syntax-error");
}

#[test]
fn list_tag_without_any_value_is_a_syntax_error() {
    let err = parse("A:\n  type: attribute\n  datatype: string\n  allowed:\n").unwrap_err();
    assert_eq!(err.get_uid(), "vss-syntax-error");
    // the failure sits at the very end of the buffer; the report names the
    // last line of the table
    assert_eq!(err.get_info(), "./root.vss:4 'invalid: ()'");
}

#[test]
fn numeric_tokens_follow_the_sign_digits_fraction_grammar() {
    let spec = parse(
        "A:\n  type: attribute\n  datatype: string\n  allowed: [1.5, -2]\n",
    )
    .unwrap();
    assert_eq!(spec.attributes[0].allowed, vec!["1.5", "-2"]);
}

#[test]
fn malformed_numeric_list_element_is_a_syntax_error() {
    let err = parse(
        "A:\n  type: attribute\n  datatype: string\n  allowed: [.-.]\n",
    )
    .unwrap_err();
    assert_eq!(err.get_uid(), "vss-syntax-error");
}

#[test]
fn bound_with_scrambled_numeric_characters_is_not_numeric() {
    let err = parse("S:\n  type: sensor\n  datatype: int32\n  min: .-.\n").unwrap_err();
    assert_eq!(err.get_uid(), "vss-bounds-not-numeric");
    let err = parse("S:\n  type: sensor\n  datatype: int32\n  min: 1.\n").unwrap_err();
    assert_eq!(err.get_uid(), "vss-bounds-not-numeric");
}

#[test]
fn sensor_default_takes_the_dash_form_too() {
    let spec = parse(
        "S:\n  type: sensor\n  datatype: uint8\n  default:\n    - 4\n    - 5\n",
    )
    .unwrap();
    assert_eq!(spec.sensors[0].default, vec!["4", "5"]);
}

#[test]
fn nested_deeper_content_is_skipped_wholesale() {
    let spec = parse(
        "A:\n  type: attribute\n  datatype: string\n  Vehicle.Child:\n    freeform notes\nS:\n  type: sensor\n  datatype: int8\n",
    )
    .unwrap();
    assert_eq!(spec.attributes.len(), 1);
    assert_eq!(spec.sensors.len(), 1);
}
