//! Tests of line classification, the include-resolving loader, the location
//! index, and the error type.

use vssparser::loader::classify_line;
use vssparser::loader::LoadStep;
use vssparser::loader::VssLoader;
use vssparser::parser::get_one_line;
use vssparser::parser::vss_parse_rules;
use vssparser::scan::parse_i64_token;
use vssparser::scan::parse_usize_token;
use vssparser::types::location;
use vssparser::types::make_filename;
use vssparser::types::to_static_str;
use vssparser::types::AfbError;
use vssparser::types::Locator;
use vssparser::types::VssHandle;
use vssparser::types::VssType;

#[test]
fn classify_empty_comment_and_data() {
    assert!(matches!(classify_line("").unwrap(), VssType::Empty()));
    assert!(matches!(classify_line("  # note").unwrap(), VssType::Comment(_)));
    assert!(matches!(classify_line("Vehicle:").unwrap(), VssType::Data(_)));
    assert!(matches!(classify_line("   ").unwrap(), VssType::Data(_)));
}

#[test]
fn classify_include_with_and_without_prefix() {
    match classify_line("#include sub.vss Drivetrain").unwrap() {
        VssType::Include(inc) => {
            assert_eq!(inc.filename, "sub.vss");
            assert_eq!(inc.prefix.as_deref(), Some("Drivetrain"));
        }
        _ => panic!("expected an include"),
    }
    match classify_line("#include sub.vss").unwrap() {
        VssType::Include(inc) => {
            assert_eq!(inc.filename, "sub.vss");
            assert_eq!(inc.prefix, None);
        }
        _ => panic!("expected an include"),
    }
}

#[test]
fn malformed_include_is_a_syntax_error() {
    let err = classify_line("#include ").unwrap_err();
    assert_eq!(err.get_uid(), "vss-include-syntax");
    let err = classify_line("#include a.vss pfx junk").unwrap_err();
    assert_eq!(err.get_uid(), "vss-include-syntax");
}

#[test]
fn hash_without_include_grammar_is_a_comment() {
    assert!(matches!(classify_line("#includefoo").unwrap(), VssType::Comment(_)));
    assert!(matches!(classify_line("#include").unwrap(), VssType::Comment(_)));
}

#[test]
fn included_objects_carry_the_namespace_prefix() {
    let mut loader = VssLoader::new("root.vss".to_string(), None, None);
    match loader.step().unwrap() {
        LoadStep::NeedFile(p) => assert_eq!(p, "./root.vss"),
        LoadStep::Done => panic!("no file requested"),
    }
    loader.supply_file(
        "Cabin:\n  type: branch\n#include sub.vss Drivetrain\n",
    );
    match loader.step().unwrap() {
        LoadStep::NeedFile(p) => assert_eq!(p, ".///sub.vss"),
        LoadStep::Done => panic!("include was not requested"),
    }
    loader.supply_file("Axle:\n  type: branch\n");
    loop {
        match loader.step().unwrap() {
            LoadStep::Done => break,
            LoadStep::NeedFile(p) => panic!("unexpected file request: {}", p),
        }
    }
    let handle = VssHandle {
        count: 0,
        filename: make_filename("root.vss".to_string(), None, None),
        data: loader.into_data(),
    };
    let locator = Locator::new(handle).unwrap();
    let spec = vss_parse_rules(&locator).unwrap();
    assert_eq!(spec.branches.len(), 2);
    assert_eq!(spec.branches[0].vpath, "Cabin");
    assert_eq!(spec.branches[1].vpath, "Drivetrain.Axle");
    assert!(spec.branches[1].vpath.starts_with("Drivetrain."));
}

#[test]
fn nested_includes_inherit_the_prefix() {
    let mut loader = VssLoader::new("/a.vss".to_string(), None, None);
    match loader.step().unwrap() {
        LoadStep::NeedFile(p) => assert_eq!(p, "/a.vss"),
        LoadStep::Done => panic!("no file requested"),
    }
    loader.supply_file("#include /b.vss Chassis\n");
    match loader.step().unwrap() {
        LoadStep::NeedFile(p) => assert_eq!(p, "/b.vss"),
        LoadStep::Done => panic!("include was not requested"),
    }
    loader.supply_file("#include /c.vss\n");
    match loader.step().unwrap() {
        LoadStep::NeedFile(p) => assert_eq!(p, "/c.vss"),
        LoadStep::Done => panic!("nested include was not requested"),
    }
    loader.supply_file("Wheel:\n  type: branch\n");
    loop {
        match loader.step().unwrap() {
            LoadStep::Done => break,
            LoadStep::NeedFile(p) => panic!("unexpected file request: {}", p),
        }
    }
    let handle = VssHandle {
        count: 0,
        filename: make_filename("/a.vss".to_string(), None, None),
        data: loader.into_data(),
    };
    let locator = Locator::new(handle).unwrap();
    let spec = vss_parse_rules(&locator).unwrap();
    assert_eq!(spec.branches[0].vpath, "Chassis.Wheel");
}

#[test]
fn include_cycles_fail_fast() {
    let mut loader = VssLoader::new("/a.vss".to_string(), None, None);
    match loader.step().unwrap() {
        LoadStep::NeedFile(p) => assert_eq!(p, "/a.vss"),
        LoadStep::Done => panic!("no file requested"),
    }
    loader.supply_file("#include /a.vss\n");
    let err = loader.step().unwrap_err();
    assert_eq!(err.get_uid(), "vss-include-cycle");
}

#[test]
fn line_numbers_are_per_file() {
    let mut loader = VssLoader::new("/a.vss".to_string(), None, None);
    let _ = loader.step().unwrap();
    loader.supply_file("# top\n#include /b.vss\nTail:\n  type: branch\n");
    let _ = loader.step().unwrap();
    loader.supply_file("Head:\n  type: branch\n");
    loop {
        match loader.step().unwrap() {
            LoadStep::Done => break,
            LoadStep::NeedFile(p) => panic!("unexpected file request: {}", p),
        }
    }
    let data = loader.into_data();
    // lines arrive in include order: the included file's lines sit between
    // the root lines that surround the directive
    assert_eq!(data.lines[0].text, "Head:");
    assert_eq!(data.lines[0].line, 1);
    assert_eq!(data.lines[0].filename.basename, "b.vss");
    assert_eq!(data.lines[2].text, "Tail:");
    assert_eq!(data.lines[2].line, 3);
    assert_eq!(data.lines[2].filename.basename, "a.vss");
}

#[test]
fn locator_builds_offsets_and_buffer() {
    let mut loader = VssLoader::new("/a.vss".to_string(), None, None);
    let _ = loader.step().unwrap();
    loader.supply_file("ab:\n  type: branch\n");
    loop {
        match loader.step().unwrap() {
            LoadStep::Done => break,
            LoadStep::NeedFile(p) => panic!("unexpected file request: {}", p),
        }
    }
    let handle = VssHandle {
        count: 0,
        filename: make_filename("/a.vss".to_string(), None, None),
        data: loader.into_data(),
    };
    let locator = Locator::new(handle).unwrap();
    assert_eq!(locator.buffer, "ab:\n  type: branch\n");
    assert_eq!(locator.table, vec![4, 19]);
    assert_eq!(locator.count, 19);
    // a residual of 15 characters points into the first line
    assert_eq!(location(&locator, 16), 0);
    // a residual of 10 characters points into the second line
    assert_eq!(location(&locator, 10), 1);
    // a residual longer than the buffer maps to the first line
    assert_eq!(location(&locator, 100), 0);
    // a residual of zero lies past every offset and maps to the last line
    assert_eq!(location(&locator, 0), 1);
}

#[test]
fn filenames_resolve_like_paths() {
    let f = make_filename("dir/a.vss".to_string(), None, None);
    assert_eq!(f.basename, "a.vss");
    assert_eq!(f.dirname, "dir/");
    let f = make_filename("/abs/a.vss".to_string(), Some("ignored".to_string()), None);
    assert_eq!(f.basename, "a.vss");
    assert_eq!(f.dirname, "/abs/");
    let f = make_filename("a.vss".to_string(), Some("dir".to_string()), None);
    assert_eq!(f.dirname, "dir//");
    let f = make_filename("a.vss".to_string(), None, Some("P".to_string()));
    assert_eq!(f.dirname, "./");
    assert_eq!(f.prefix.as_deref(), Some("P"));
}

#[test]
fn handle_starts_empty() {
    let h = VssHandle::new("x/y.vss".to_string(), None, None);
    assert_eq!(h.count, 0);
    assert_eq!(h.data.lines.len(), 0);
    assert_eq!(h.filename.basename, "y.vss");
}

#[test]
fn error_renders_uid_and_info() {
    let e = AfbError::new("some-uid", "something went wrong".to_string());
    assert_eq!(e.get_uid(), "some-uid");
    assert_eq!(e.get_info(), "something went wrong");
    assert_eq!(e.to_str(), "uid:some-uid info:something went wrong");
    let e2 = e.clone();
    assert_eq!(e2.get_info(), "something went wrong");
}

#[test]
fn static_str_keeps_the_text() {
    assert_eq!(to_static_str("kept".to_string()), "kept");
}

#[test]
fn one_line_excerpts_skip_leading_spaces() {
    assert_eq!(get_one_line("  min: abc\nrest", 0), "min: abc");
    assert_eq!(get_one_line("abc", 1), "bc");
}

#[test]
fn decimal_tokens_parse_like_std() {
    assert_eq!(parse_usize_token("123"), Some(123));
    assert_eq!(parse_usize_token(""), None);
    assert_eq!(parse_usize_token("12a"), None);
    assert_eq!(parse_usize_token("99999999999999999999999999"), None);
    assert_eq!(parse_i64_token("-10"), Some(-10));
    assert_eq!(parse_i64_token("10"), Some(10));
    assert_eq!(parse_i64_token("9223372036854775807"), Some(i64::MAX));
    assert_eq!(parse_i64_token("-9223372036854775808"), Some(i64::MIN));
    assert_eq!(parse_i64_token("9223372036854775808"), None);
    assert_eq!(parse_i64_token("-9223372036854775809"), None);
    assert_eq!(parse_i64_token("1.5"), None);
    assert_eq!(parse_i64_token("-"), None);
}
