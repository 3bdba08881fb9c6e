//! The indentation-aware object parser.
//!
//! The parser walks the merged buffer built by the location index, recognises
//! object headers, extracts the fields of each object kind with closed
//! per-kind grammars, enforces tag authorization and accumulates a
//! [`VssSpec`].  Every executable function is proved equal to a recursive
//! specification over the buffer's view, so parsing is a mathematical
//! function of the input text.

use crate::scan::eol;
use crate::scan::eol_spec;
use crate::scan::has_tag;
use crate::scan::has_tag_spec;
use crate::scan::lemma_scan_spec_bounds;
use crate::scan::opt_pos_ok;
use crate::scan::scan;
use crate::scan::scan_class_spec;
use crate::scan::class_pred;
use crate::scan::CharClass;
use crate::scan::lower_seq;
use crate::scan::parse_i64_spec;
use crate::scan::parse_i64_token;
use crate::scan::parse_usize_spec;
use crate::scan::parse_usize_token;
use crate::scan::str_eq;
use crate::scan::str_eq_lower;
use crate::types::object_type_from_str_spec;
use crate::scan::dec_seq;
use crate::scan::u32_to_dec;
use crate::types::location;
use crate::types::first_above;
use crate::types::line_off;
use crate::types::locator_wf;
use crate::types::location_spec;
use crate::types::AfbError;
use crate::types::VssObject;
use crate::types::VssSpec;
use crate::types::VssSpecV;
use crate::types::strings_view;
use crate::types::Locator;
use crate::types::LocatorV;
use crate::types::VssAttribute;
use crate::types::VssAttributeV;
use crate::types::VssBranch;
use crate::types::VssBranchV;
use crate::types::VssSensor;
use crate::types::VssSensorV;
use crate::types::instances_view;
use crate::types::value_type_from_str_spec;
use crate::types::VssDataType;
use crate::types::VssInstance;
use crate::types::VssInstanceV;
use crate::types::VssObjectType;
use crate::types::VssValueType;
use crate::units::unit_from_str_spec;
use crate::units::VssUnit;
use vstd::prelude::*;
use vstd::string::StrSliceExecFns;
use vstd::string::StringExecFns;

verus! {

// ---------------------------------------------------------------------------
// Parse errors
// ---------------------------------------------------------------------------

/// The kinds of failure the parser can report.
#[derive(PartialEq, Eq, Structural, Debug, Clone, Copy)]
pub enum PKind {
    /// The text does not follow the line grammar.
    Syntax,
    /// An object block has no resolvable `type:` tag.
    ObjectTypeNotSet,
    /// A `datatype:` value is outside the value-type registry.
    DataTypeInvalid,
    /// A `unit:` value is outside the unit registry.
    UnitInvalid,
    /// A field tag outside the object kind's closed field set.
    UnauthorizedTag,
    /// An `arraysize:` value is not a plain number.
    ArraySizeNotNumeric,
    /// A `min:` or `max:` value is not a plain integer.
    BoundsNotNumeric,
}

/// A parse failure: its kind and the buffer position it was detected at.
#[derive(PartialEq, Eq, Structural, Debug, Clone, Copy)]
pub struct PErr {
    pub kind: PKind,
    pub pos: usize,
}

/// Relates an executable parse failure to its specification counterpart.
pub open spec fn perr_ok(e: PErr, m: (PKind, int)) -> bool {
    e.kind == m.0 && e.pos as int == m.1
}

// ---------------------------------------------------------------------------
// Value grammars
// ---------------------------------------------------------------------------

/// Relates an executable token result to its specification counterpart.
pub open spec fn tok_ok(r: Option<(usize, String)>, m: Option<(int, Seq<char>)>) -> bool {
    match r {
        Some((p, t)) => m == Some((p as int, t@)),
        None => m is None,
    }
}

/// A quoted string: surrounding spaces allowed, ASCII content without the
/// quote character, non-empty.
pub open spec fn vss_string_spec(s: Seq<char>, i: int) -> Option<(int, Seq<char>)> {
    let a = scan_class_spec(s, i, CharClass::Space);
    if a < s.len() && (s[a] == '"' || s[a] == '\'') {
        let cls = if s[a] == '"' {
            CharClass::DqString
        } else {
            CharClass::SqString
        };
        let b = scan_class_spec(s, a + 1, cls);
        if b < s.len() && s[b] == s[a] {
            let c = scan_class_spec(s, b + 1, CharClass::Space);
            if b > a + 1 {
                Some((c, s.subrange(a + 1, b)))
            } else {
                None
            }
        } else {
            None
        }
    } else {
        None
    }
}

/// A numeric token: leading spaces allowed, then an optional minus sign,
/// digits, and an optional fraction part (a dot followed by digits).
pub open spec fn vss_number_spec(s: Seq<char>, i: int) -> Option<(int, Seq<char>)> {
    let a = scan_class_spec(s, i, CharClass::Space);
    let b = if a < s.len() && s[a] == '-' {
        a + 1
    } else {
        a
    };
    let d1 = scan_class_spec(s, b, CharClass::Digit);
    if d1 > b {
        if d1 < s.len() && s[d1] == '.' {
            let d2 = scan_class_spec(s, d1 + 1, CharClass::Digit);
            if d2 > d1 + 1 {
                Some((d2, s.subrange(a, d2)))
            } else {
                None
            }
        } else {
            Some((d1, s.subrange(a, d1)))
        }
    } else {
        None
    }
}

/// A list or scalar element: numeric first, quoted string otherwise.
pub open spec fn string_or_number_spec(s: Seq<char>, i: int) -> Option<(int, Seq<char>)> {
    match vss_number_spec(s, i) {
        Some(r) => Some(r),
        None => vss_string_spec(s, i),
    }
}

/// Parses a quoted string at `i`.
pub fn vss_string(s: &str, i: usize) -> (r: Option<(usize, String)>)
    requires
        i <= s@.len(),
    ensures
        tok_ok(r, vss_string_spec(s@, i as int)),
        r matches Some((p, _)) ==> i <= p <= s@.len(),
{
    let n = s.unicode_len();
    let a = scan(s, i, CharClass::Space);
    if a < n {
        let q = s.get_char(a);
        if q == '"' || q == '\'' {
            let cls = if q == '"' {
                CharClass::DqString
            } else {
                CharClass::SqString
            };
            let b = scan(s, a + 1, cls);
            if b < n && s.get_char(b) == q {
                let c = scan(s, b + 1, CharClass::Space);
                if b > a + 1 {
                    return Some((c, s.substring_char(a + 1, b).to_owned()));
                }
            }
            return None;
        }
    }
    None
}

/// Parses a numeric token at `i`.
pub fn vss_number(s: &str, i: usize) -> (r: Option<(usize, String)>)
    requires
        i <= s@.len(),
    ensures
        tok_ok(r, vss_number_spec(s@, i as int)),
        r matches Some((p, _)) ==> i <= p <= s@.len(),
{
    let n = s.unicode_len();
    let a = scan(s, i, CharClass::Space);
    let b = if a < n && s.get_char(a) == '-' {
        a + 1
    } else {
        a
    };
    let d1 = scan(s, b, CharClass::Digit);
    if d1 > b {
        if d1 < n && s.get_char(d1) == '.' {
            let d2 = scan(s, d1 + 1, CharClass::Digit);
            if d2 > d1 + 1 {
                Some((d2, s.substring_char(a, d2).to_owned()))
            } else {
                None
            }
        } else {
            Some((d1, s.substring_char(a, d1).to_owned()))
        }
    } else {
        None
    }
}

/// Parses a numeric or quoted element at `i`.
pub fn string_or_number(s: &str, i: usize) -> (r: Option<(usize, String)>)
    requires
        i <= s@.len(),
    ensures
        tok_ok(r, string_or_number_spec(s@, i as int)),
        r matches Some((p, _)) ==> i <= p <= s@.len(),
{
    match vss_number(s, i) {
        Some(r) => Some(r),
        None => vss_string(s, i),
    }
}

// ---------------------------------------------------------------------------
// Indentation
// ---------------------------------------------------------------------------

/// Exactly `idt` spaces stand at `i`: the space run there is at least that
/// long, and the position after them is returned.
pub open spec fn check_indent_spec(s: Seq<char>, i: int, idt: int) -> Option<int> {
    if 0 <= idt && i + idt <= scan_class_spec(s, i, CharClass::Space) {
        Some(i + idt)
    } else {
        None
    }
}

/// Checks that exactly `idt` spaces stand at `i`.
pub fn check_indent(s: &str, i: usize, idt: usize) -> (r: Option<usize>)
    requires
        i <= s@.len(),
    ensures
        opt_pos_ok(r, check_indent_spec(s@, i as int, idt as int)),
        r matches Some(p) ==> i + idt == p && p <= s@.len(),
{
    let e = scan(s, i, CharClass::Space);
    if e - i >= idt {
        Some(i + idt)
    } else {
        None
    }
}

// ---------------------------------------------------------------------------
// Object headers
// ---------------------------------------------------------------------------

/// An object header: a label of argument characters, a colon, the end of the
/// line, and at least one space opening the body block on the next line.
/// Yields the position after the header line, the label, and the body
/// indentation (which is only peeked at, not consumed).
pub open spec fn vss_label_spec(s: Seq<char>, i: int) -> Option<(int, Seq<char>, int)> {
    let a = scan_class_spec(s, i, CharClass::Argument);
    if a < s.len() && s[a] == ':' {
        match eol_spec(s, a + 1) {
            Some(b) => {
                let e = scan_class_spec(s, b, CharClass::Space);
                if e > b {
                    Some((b, s.subrange(i, a), e - b))
                } else {
                    None
                }
            },
            None => None,
        }
    } else {
        None
    }
}

/// Relates an executable header result to its specification counterpart.
pub open spec fn label_ok(r: Option<(usize, String, usize)>, m: Option<(int, Seq<char>, int)>) -> bool {
    match r {
        Some((p, t, d)) => m == Some((p as int, t@, d as int)),
        None => m is None,
    }
}

/// Parses an object header at `i`.
pub fn vss_label(s: &str, i: usize) -> (r: Option<(usize, String, usize)>)
    requires
        i <= s@.len(),
    ensures
        label_ok(r, vss_label_spec(s@, i as int)),
{
    let n = s.unicode_len();
    let a = scan(s, i, CharClass::Argument);
    if a < n && s.get_char(a) == ':' {
        match eol(s, a + 1) {
            Some(b) => {
                let e = scan(s, b, CharClass::Space);
                if e > b {
                    Some((b, s.substring_char(i, a).to_owned(), e - b))
                } else {
                    None
                }
            },
            None => None,
        }
    } else {
        None
    }
}

// ---------------------------------------------------------------------------
// Tag search
// ---------------------------------------------------------------------------

/// Outcome of searching an object block for a field tag.
pub ghost enum SearchSpec {
    /// No line at the block's indentation carries the tag.
    Absent,
    /// The tag stands at `start`; `after` is the position behind the tag and
    /// the spaces that follow it.
    Found { start: int, after: int },
    /// The block is not made of lines (a stray carriage return).
    Abort(int),
}

/// Searches, line by line, for a line indented exactly `idt` whose content
/// begins with `tag`.  Lines indented more deeply are skipped; the search
/// ends at the first line indented less.
pub open spec fn search_tag_spec(s: Seq<char>, i: int, tag: Seq<char>, idt: int) -> SearchSpec
    decreases s.len() - i,
    when 0 <= i <= s.len() && 1 <= idt
{
    match check_indent_spec(s, i, idt) {
        None => SearchSpec::Absent,
        Some(start) => {
            proof {
                lemma_scan_spec_bounds(s, i, class_pred(CharClass::Space));
            }
            if has_tag_spec(s, start, tag) {
                SearchSpec::Found {
                    start,
                    after: scan_class_spec(s, start + tag.len(), CharClass::Space),
                }
            } else {
                let e = scan_class_spec(s, start, CharClass::Line);
                proof {
                    lemma_scan_spec_bounds(s, start, class_pred(CharClass::Line));
                }
                match eol_spec(s, e) {
                    Some(nx) => search_tag_spec(s, nx, tag, idt),
                    None => SearchSpec::Abort(e),
                }
            }
        },
    }
}

/// Outcome of an executable tag search.
#[derive(PartialEq, Eq, Structural, Debug, Clone, Copy)]
pub enum SearchRes {
    Absent,
    Found(usize, usize),
    Abort(usize),
}

/// Relates an executable search outcome to its specification counterpart.
pub open spec fn search_ok(r: SearchRes, m: SearchSpec) -> bool {
    match r {
        SearchRes::Absent => m is Absent,
        SearchRes::Found(a, b) => m == (SearchSpec::Found { start: a as int, after: b as int }),
        SearchRes::Abort(p) => m == SearchSpec::Abort(p as int),
    }
}

/// Searches an object block for a field tag at indentation `idt`.
pub fn search_tag(s: &str, i: usize, tag: &str, idt: usize) -> (r: SearchRes)
    requires
        i <= s@.len(),
        1 <= idt,
    ensures
        search_ok(r, search_tag_spec(s@, i as int, tag@, idt as int)),
        r matches SearchRes::Found(a, b) ==> a <= b && b <= s@.len(),
{
    let n = s.unicode_len();
    let mut cur = i;
    loop
        invariant
            i <= cur <= n,
            n == s@.len(),
            1 <= idt,
            search_tag_spec(s@, i as int, tag@, idt as int) == search_tag_spec(
                s@,
                cur as int,
                tag@,
                idt as int,
            ),
        decreases n - cur,
    {
        match check_indent(s, cur, idt) {
            None => {
                return SearchRes::Absent;
            },
            Some(start) => {
                if has_tag(s, start, tag) {
                    let m = tag.unicode_len();
                    let after = scan(s, start + m, CharClass::Space);
                    assert(start + m <= after);
                    return SearchRes::Found(start, after);
                }
                let e = scan(s, start, CharClass::Line);
                match eol(s, e) {
                    Some(nx) => {
                        assert(nx > cur);
                        cur = nx;
                    },
                    None => {
                        return SearchRes::Abort(e);
                    },
                }
            },
        }
    }
}

// ---------------------------------------------------------------------------
// Field extraction results
// ---------------------------------------------------------------------------

/// Outcome of running a field extractor over an object block.
pub enum FieldRes<T> {
    /// The block has no line carrying the field's tag.
    Absent,
    /// The field was found and its value parsed.
    Found(T),
    /// The field was found but its value is invalid.
    Bad(PErr),
}

/// Specification counterpart of [`FieldRes`].
pub ghost enum FSpec<T> {
    Absent,
    Found(T),
    Bad(PKind, int),
}

/// Relates an extractor outcome to its specification counterpart, for value
/// payloads that are their own model.
pub open spec fn f_ok<T>(r: FieldRes<T>, m: FSpec<T>) -> bool {
    match r {
        FieldRes::Absent => m is Absent,
        FieldRes::Found(v) => m == FSpec::Found(v),
        FieldRes::Bad(e) => m == FSpec::<T>::Bad(e.kind, e.pos as int),
    }
}

/// As [`f_ok`], for a text payload.
pub open spec fn f_ok_str(r: FieldRes<String>, m: FSpec<Seq<char>>) -> bool {
    match r {
        FieldRes::Absent => m is Absent,
        FieldRes::Found(v) => m == FSpec::Found(v@),
        FieldRes::Bad(e) => m == FSpec::<Seq<char>>::Bad(e.kind, e.pos as int),
    }
}

/// As [`f_ok`], for a list-of-texts payload.
pub open spec fn f_ok_list(r: FieldRes<Vec<String>>, m: FSpec<Seq<Seq<char>>>) -> bool {
    match r {
        FieldRes::Absent => m is Absent,
        FieldRes::Found(v) => m == FSpec::Found(strings_view(v@)),
        FieldRes::Bad(e) => m == FSpec::<Seq<Seq<char>>>::Bad(e.kind, e.pos as int),
    }
}

/// As [`f_ok`], for an instance-list payload.
pub open spec fn f_ok_insts(r: FieldRes<Vec<VssInstance>>, m: FSpec<Seq<VssInstanceV>>) -> bool {
    match r {
        FieldRes::Absent => m is Absent,
        FieldRes::Found(v) => m == FSpec::Found(instances_view(v@)),
        FieldRes::Bad(e) => m == FSpec::<Seq<VssInstanceV>>::Bad(e.kind, e.pos as int),
    }
}

// ---------------------------------------------------------------------------
// Simple tagged fields
// ---------------------------------------------------------------------------

/// The `datatype:` field: a value-type token with an optional `[]` array
/// marker.
pub open spec fn datatype_spec(s: Seq<char>, i: int, idt: int) -> FSpec<VssDataType> {
    match search_tag_spec(s, i, "datatype:"@, idt) {
        SearchSpec::Absent => FSpec::Absent,
        SearchSpec::Abort(p) => FSpec::Bad(PKind::Syntax, p),
        SearchSpec::Found { start, after } => {
            let b = scan_class_spec(s, after, CharClass::Argument);
            let tok = s.subrange(after, b);
            let c = scan_class_spec(s, b, CharClass::Space);
            let arr = has_tag_spec(s, c, "[]"@);
            let d = if arr {
                scan_class_spec(s, c + 2, CharClass::Space)
            } else {
                c
            };
            match eol_spec(s, d) {
                None => FSpec::Bad(PKind::Syntax, d),
                Some(_) => match value_type_from_str_spec(tok) {
                    None => FSpec::Bad(PKind::DataTypeInvalid, start),
                    Some(vt) => FSpec::Found(VssDataType { is_type: vt, is_array: arr }),
                },
            }
        },
    }
}

/// Extracts the `datatype:` field of an object block.
pub fn vss_datatype(s: &str, i: usize, idt: usize) -> (r: FieldRes<VssDataType>)
    requires
        i <= s@.len(),
        1 <= idt,
    ensures
        f_ok(r, datatype_spec(s@, i as int, idt as int)),
{
    match search_tag(s, i, "datatype:", idt) {
        SearchRes::Absent => FieldRes::Absent,
        SearchRes::Abort(p) => FieldRes::Bad(PErr { kind: PKind::Syntax, pos: p }),
        SearchRes::Found(start, after) => {
            let b = scan(s, after, CharClass::Argument);
            let tok = s.substring_char(after, b);
            let n = s.unicode_len();
            let c = scan(s, b, CharClass::Space);
            let arr = has_tag(s, c, "[]");
            let d = if arr {
                proof {
                    reveal_strlit("[]");
                }
                assert(c + 2 <= n);
                scan(s, c + 2, CharClass::Space)
            } else {
                c
            };
            match eol(s, d) {
                None => FieldRes::Bad(PErr { kind: PKind::Syntax, pos: d }),
                Some(_) => match VssValueType::from_str(tok) {
                    Err(_) => FieldRes::Bad(PErr { kind: PKind::DataTypeInvalid, pos: start }),
                    Ok(vt) => FieldRes::Found(VssDataType { is_type: vt, is_array: arr }),
                },
            }
        },
    }
}

/// The `type:` field: the object kind of a block.  A missing or unresolvable
/// kind is a structural failure of the whole object.
pub open spec fn objtype_spec(s: Seq<char>, i: int, idt: int) -> FSpec<VssObjectType> {
    match search_tag_spec(s, i, "type:"@, idt) {
        SearchSpec::Absent => FSpec::Absent,
        SearchSpec::Abort(p) => FSpec::Bad(PKind::Syntax, p),
        SearchSpec::Found { start, after } => {
            let b = scan_class_spec(s, after, CharClass::Argument);
            let tok = s.subrange(after, b);
            let c = scan_class_spec(s, b, CharClass::Space);
            match eol_spec(s, c) {
                None => FSpec::Bad(PKind::Syntax, c),
                Some(_) => match object_type_from_str_spec(tok) {
                    None => FSpec::Bad(PKind::ObjectTypeNotSet, start),
                    Some(t) => FSpec::Found(t),
                },
            }
        },
    }
}

/// Extracts the `type:` field of an object block.
pub fn vss_objtype(s: &str, i: usize, idt: usize) -> (r: FieldRes<VssObjectType>)
    requires
        i <= s@.len(),
        1 <= idt,
    ensures
        f_ok(r, objtype_spec(s@, i as int, idt as int)),
{
    match search_tag(s, i, "type:", idt) {
        SearchRes::Absent => FieldRes::Absent,
        SearchRes::Abort(p) => FieldRes::Bad(PErr { kind: PKind::Syntax, pos: p }),
        SearchRes::Found(start, after) => {
            let b = scan(s, after, CharClass::Argument);
            let tok = s.substring_char(after, b);
            let c = scan(s, b, CharClass::Space);
            match eol(s, c) {
                None => FieldRes::Bad(PErr { kind: PKind::Syntax, pos: c }),
                Some(_) => match VssObjectType::from_str(tok) {
                    Err(_) => FieldRes::Bad(PErr { kind: PKind::ObjectTypeNotSet, pos: start }),
                    Ok(t) => FieldRes::Found(t),
                },
            }
        },
    }
}

/// The `unit:` field: a token of the unit registry.
pub open spec fn unit_spec(s: Seq<char>, i: int, idt: int) -> FSpec<VssUnit> {
    match search_tag_spec(s, i, "unit:"@, idt) {
        SearchSpec::Absent => FSpec::Absent,
        SearchSpec::Abort(p) => FSpec::Bad(PKind::Syntax, p),
        SearchSpec::Found { start, after } => {
            let b = scan_class_spec(s, after, CharClass::Pathname);
            let tok = s.subrange(after, b);
            match eol_spec(s, b) {
                None => FSpec::Bad(PKind::Syntax, b),
                Some(_) => match unit_from_str_spec(tok) {
                    None => FSpec::Bad(PKind::UnitInvalid, start),
                    Some(u) => FSpec::Found(u),
                },
            }
        },
    }
}

/// Extracts the `unit:` field of an object block.
pub fn vss_unit(s: &str, i: usize, idt: usize) -> (r: FieldRes<VssUnit>)
    requires
        i <= s@.len(),
        1 <= idt,
    ensures
        f_ok(r, unit_spec(s@, i as int, idt as int)),
{
    match search_tag(s, i, "unit:", idt) {
        SearchRes::Absent => FieldRes::Absent,
        SearchRes::Abort(p) => FieldRes::Bad(PErr { kind: PKind::Syntax, pos: p }),
        SearchRes::Found(start, after) => {
            let b = scan(s, after, CharClass::Pathname);
            let tok = s.substring_char(after, b);
            match eol(s, b) {
                None => FieldRes::Bad(PErr { kind: PKind::Syntax, pos: b }),
                Some(_) => match VssUnit::from_str(tok) {
                    Err(_) => FieldRes::Bad(PErr { kind: PKind::UnitInvalid, pos: start }),
                    Ok(u) => FieldRes::Found(u),
                },
            }
        },
    }
}

/// The `arraysize:` field: a plain decimal size.
pub open spec fn arraysize_spec(s: Seq<char>, i: int, idt: int) -> FSpec<usize> {
    match search_tag_spec(s, i, "arraysize:"@, idt) {
        SearchSpec::Absent => FSpec::Absent,
        SearchSpec::Abort(p) => FSpec::Bad(PKind::Syntax, p),
        SearchSpec::Found { start, after } => {
            let b = scan_class_spec(s, after, CharClass::Argument);
            let tok = s.subrange(after, b);
            match eol_spec(s, b) {
                None => FSpec::Bad(PKind::Syntax, b),
                Some(_) => match parse_usize_spec(tok) {
                    None => FSpec::Bad(PKind::ArraySizeNotNumeric, start),
                    Some(v) => FSpec::Found(v),
                },
            }
        },
    }
}

/// Extracts the `arraysize:` field of an object block.
pub fn vss_arraysize(s: &str, i: usize, idt: usize) -> (r: FieldRes<usize>)
    requires
        i <= s@.len(),
        1 <= idt,
    ensures
        f_ok(r, arraysize_spec(s@, i as int, idt as int)),
{
    match search_tag(s, i, "arraysize:", idt) {
        SearchRes::Absent => FieldRes::Absent,
        SearchRes::Abort(p) => FieldRes::Bad(PErr { kind: PKind::Syntax, pos: p }),
        SearchRes::Found(start, after) => {
            let b = scan(s, after, CharClass::Argument);
            let tok = s.substring_char(after, b);
            match eol(s, b) {
                None => FieldRes::Bad(PErr { kind: PKind::Syntax, pos: b }),
                Some(_) => match parse_usize_token(tok) {
                    None => FieldRes::Bad(PErr { kind: PKind::ArraySizeNotNumeric, pos: start }),
                    Some(v) => FieldRes::Found(v),
                },
            }
        },
    }
}

/// A `min:` or `max:` field: a numeric token parsed as a signed integer.
pub open spec fn bound_spec(s: Seq<char>, i: int, tag: Seq<char>, idt: int) -> FSpec<i64> {
    match search_tag_spec(s, i, tag, idt) {
        SearchSpec::Absent => FSpec::Absent,
        SearchSpec::Abort(p) => FSpec::Bad(PKind::Syntax, p),
        SearchSpec::Found { start, after } => match vss_number_spec(s, after) {
            None => FSpec::Bad(PKind::BoundsNotNumeric, start),
            Some((p, tok)) => match eol_spec(s, p) {
                None => FSpec::Bad(PKind::Syntax, p),
                Some(_) => match parse_i64_spec(tok) {
                    None => FSpec::Bad(PKind::BoundsNotNumeric, start),
                    Some(v) => FSpec::Found(v),
                },
            },
        },
    }
}

/// Extracts a `min:` or `max:` bound of a sensor block.
pub fn vss_bound(s: &str, i: usize, tag: &str, idt: usize) -> (r: FieldRes<i64>)
    requires
        i <= s@.len(),
        1 <= idt,
    ensures
        f_ok(r, bound_spec(s@, i as int, tag@, idt as int)),
{
    match search_tag(s, i, tag, idt) {
        SearchRes::Absent => FieldRes::Absent,
        SearchRes::Abort(p) => FieldRes::Bad(PErr { kind: PKind::Syntax, pos: p }),
        SearchRes::Found(start, after) => match vss_number(s, after) {
            None => FieldRes::Bad(PErr { kind: PKind::BoundsNotNumeric, pos: start }),
            Some((p, tok)) => match eol(s, p) {
                None => FieldRes::Bad(PErr { kind: PKind::Syntax, pos: p }),
                Some(_) => match parse_i64_token(tok.as_str()) {
                    None => FieldRes::Bad(PErr { kind: PKind::BoundsNotNumeric, pos: start }),
                    Some(v) => FieldRes::Found(v),
                },
            },
        },
    }
}

/// The `aggregate:` field: a case-insensitive boolean token; the stored value
/// is the plain reading of the token.
pub open spec fn aggregate_spec(s: Seq<char>, i: int, idt: int) -> FSpec<bool> {
    match search_tag_spec(s, i, "aggregate:"@, idt) {
        SearchSpec::Absent => FSpec::Absent,
        SearchSpec::Abort(p) => FSpec::Bad(PKind::Syntax, p),
        SearchSpec::Found { start, after } => {
            let b = scan_class_spec(s, after, CharClass::Argument);
            let tok = s.subrange(after, b);
            match eol_spec(s, b) {
                None => FSpec::Bad(PKind::Syntax, b),
                Some(_) => if lower_seq(tok) == lower_seq("true"@) {
                    FSpec::Found(true)
                } else if lower_seq(tok) == lower_seq("false"@) {
                    FSpec::Found(false)
                } else {
                    FSpec::Bad(PKind::Syntax, start)
                },
            }
        },
    }
}

/// Extracts the `aggregate:` field of a branch block.
pub fn vss_aggregate(s: &str, i: usize, idt: usize) -> (r: FieldRes<bool>)
    requires
        i <= s@.len(),
        1 <= idt,
    ensures
        f_ok(r, aggregate_spec(s@, i as int, idt as int)),
{
    match search_tag(s, i, "aggregate:", idt) {
        SearchRes::Absent => FieldRes::Absent,
        SearchRes::Abort(p) => FieldRes::Bad(PErr { kind: PKind::Syntax, pos: p }),
        SearchRes::Found(start, after) => {
            let b = scan(s, after, CharClass::Argument);
            let tok = s.substring_char(after, b);
            match eol(s, b) {
                None => FieldRes::Bad(PErr { kind: PKind::Syntax, pos: b }),
                Some(_) => {
                    if str_eq_lower(tok, "true") {
                        FieldRes::Found(true)
                    } else if str_eq_lower(tok, "false") {
                        FieldRes::Found(false)
                    } else {
                        FieldRes::Bad(PErr { kind: PKind::Syntax, pos: start })
                    }
                },
            }
        },
    }
}

// ---------------------------------------------------------------------------
// Bounds of the value grammars
// ---------------------------------------------------------------------------

/// A parsed element always moves the cursor forward and stays in the text.
pub proof fn lemma_son_bounds(s: Seq<char>, i: int)
    requires
        0 <= i <= s.len(),
    ensures
        match string_or_number_spec(s, i) {
            Some((p, _)) => i < p <= s.len(),
            None => true,
        },
{
    lemma_scan_spec_bounds(s, i, class_pred(CharClass::Space));
    let a = scan_class_spec(s, i, CharClass::Space);
    let b = if a < s.len() && s[a] == '-' {
        a + 1
    } else {
        a
    };
    lemma_scan_spec_bounds(s, b, class_pred(CharClass::Digit));
    let d1 = scan_class_spec(s, b, CharClass::Digit);
    if d1 < s.len() {
        lemma_scan_spec_bounds(s, d1 + 1, class_pred(CharClass::Digit));
    }
    if a < s.len() && (s[a] == '"' || s[a] == '\'') {
        let cls = if s[a] == '"' {
            CharClass::DqString
        } else {
            CharClass::SqString
        };
        lemma_scan_spec_bounds(s, a + 1, class_pred(cls));
        let b = scan_class_spec(s, a + 1, cls);
        if b < s.len() {
            lemma_scan_spec_bounds(s, b + 1, class_pred(CharClass::Space));
        }
    }
}

/// A found tag lies behind the searched position, and the position behind it
/// stays in the text.
pub proof fn lemma_search_tag_bounds(s: Seq<char>, i: int, tag: Seq<char>, idt: int)
    requires
        0 <= i <= s.len(),
        1 <= idt,
    ensures
        match search_tag_spec(s, i, tag, idt) {
            SearchSpec::Found { start, after } => i + idt <= start && start + tag.len() <= after
                <= s.len(),
            _ => true,
        },
    decreases s.len() - i,
{
    match check_indent_spec(s, i, idt) {
        None => {},
        Some(start) => {
            lemma_scan_spec_bounds(s, i, class_pred(CharClass::Space));
            if has_tag_spec(s, start, tag) {
                lemma_scan_spec_bounds(s, start + tag.len(), class_pred(CharClass::Space));
            } else {
                let e = scan_class_spec(s, start, CharClass::Line);
                lemma_scan_spec_bounds(s, start, class_pred(CharClass::Line));
                match eol_spec(s, e) {
                    Some(nx) => {
                        lemma_search_tag_bounds(s, nx, tag, idt);
                    },
                    None => {},
                }
            }
        },
    }
}

/// Appending one string to a list appends its view to the list's view.
proof fn lemma_strings_view_push(v: Seq<String>, t: String)
    ensures
        strings_view(v.push(t)) == strings_view(v) + seq![t@],
{
    assert(strings_view(v.push(t)) =~= strings_view(v) + seq![t@]);
}

/// Appending one instance to a list appends its view to the list's view.
proof fn lemma_instances_view_push(v: Seq<VssInstance>, t: VssInstanceV)
    ensures
        forall|x: VssInstance| x@ == t ==> instances_view(v.push(x)) == instances_view(v) + seq![t],
{
    assert forall|x: VssInstance| x@ == t implies instances_view(v.push(x)) == instances_view(v)
        + seq![t] by {
        assert(instances_view(v.push(x)) =~= instances_view(v) + seq![t]);
    }
}

// ---------------------------------------------------------------------------
// Description and comment blocks
// ---------------------------------------------------------------------------

/// The value lines of a block joined by single spaces.
pub open spec fn join_with_spaces(first: Seq<char>, rest: Seq<Seq<char>>) -> Seq<char>
    decreases rest.len(),
{
    if rest.len() == 0 {
        first
    } else {
        join_with_spaces(first + " "@ + rest[0], rest.drop_first())
    }
}

proof fn lemma_join_snoc(first: Seq<char>, rest: Seq<Seq<char>>, last: Seq<char>)
    ensures
        join_with_spaces(first, rest.push(last)) == join_with_spaces(first, rest) + " "@ + last,
    decreases rest.len(),
{
    if rest.len() == 0 {
        assert(rest.push(last).drop_first() =~= Seq::<Seq<char>>::empty());
        assert(rest.push(last)[0] == last);
        assert(join_with_spaces(first, rest.push(last)) == join_with_spaces(
            first + " "@ + last,
            rest.push(last).drop_first(),
        ));
        assert(join_with_spaces(first + " "@ + last, rest.push(last).drop_first()) == first + " "@
            + last);
    } else {
        assert(rest.push(last).drop_first() =~= rest.drop_first().push(last));
        assert(rest.push(last)[0] == rest[0]);
        let f2 = first + " "@ + rest[0];
        assert(join_with_spaces(first, rest.push(last)) == join_with_spaces(
            f2,
            rest.drop_first().push(last),
        ));
        assert(join_with_spaces(first, rest) == join_with_spaces(f2, rest.drop_first()));
        lemma_join_snoc(f2, rest.drop_first(), last);
    }
}

/// The continuation lines of a block: every following line indented exactly
/// `idt`, up to the first line that is not.
pub open spec fn many_lines_spec(s: Seq<char>, i: int, idt: int) -> Seq<Seq<char>>
    decreases s.len() - i,
    when 0 <= i <= s.len() && 1 <= idt
{
    match check_indent_spec(s, i, idt) {
        None => Seq::<Seq<char>>::empty(),
        Some(st) => {
            proof {
                lemma_scan_spec_bounds(s, i, class_pred(CharClass::Space));
            }
            let e = scan_class_spec(s, st, CharClass::Line);
            proof {
                lemma_scan_spec_bounds(s, st, class_pred(CharClass::Line));
            }
            match eol_spec(s, e) {
                None => Seq::<Seq<char>>::empty(),
                Some(nx) => seq![s.subrange(st, e)] + many_lines_spec(s, nx, idt),
            }
        },
    }
}

/// A `description:` or `comment:` field: the rest of the tag's line, then any
/// continuation lines indented to the column where the value started, all
/// joined by single spaces.
pub open spec fn block_field_spec(s: Seq<char>, i: int, tag: Seq<char>, idt: int) -> FSpec<
    Seq<char>,
> {
    match search_tag_spec(s, i, tag, idt) {
        SearchSpec::Absent => FSpec::Absent,
        SearchSpec::Abort(p) => FSpec::Bad(PKind::Syntax, p),
        SearchSpec::Found { start, after } => {
            // continuation lines align under the value: the found line's
            // indentation, the tag and the spaces that follow it
            let vind = idt + (after - start);
            let e = scan_class_spec(s, after, CharClass::Line);
            match eol_spec(s, e) {
                None => FSpec::Bad(PKind::Syntax, e),
                Some(b) => FSpec::Found(
                    join_with_spaces(s.subrange(after, e), many_lines_spec(s, b, vind)),
                ),
            }
        },
    }
}

/// Extracts a `description:` or `comment:` block of an object.
pub fn get_block_indent(s: &str, i: usize, tag: &str, idt: usize) -> (r: FieldRes<String>)
    requires
        i <= s@.len(),
        1 <= idt,
    ensures
        f_ok_str(r, block_field_spec(s@, i as int, tag@, idt as int)),
{
    let n = s.unicode_len();
    match search_tag(s, i, tag, idt) {
        SearchRes::Absent => FieldRes::Absent,
        SearchRes::Abort(p) => FieldRes::Bad(PErr { kind: PKind::Syntax, pos: p }),
        SearchRes::Found(start, after) => {
            proof {
                lemma_search_tag_bounds(s@, i as int, tag@, idt as int);
            }
            let vind = idt + (after - start);
            let e = scan(s, after, CharClass::Line);
            match eol(s, e) {
                None => FieldRes::Bad(PErr { kind: PKind::Syntax, pos: e }),
                Some(b) => {
                    let ghost first = s@.subrange(after as int, e as int);
                    let mut acc = s.substring_char(after, e).to_owned();
                    let mut p = b;
                    let ghost mut taken: Seq<Seq<char>> = Seq::empty();
                    loop
                        invariant_except_break
                            p <= n,
                            n == s@.len(),
                            1 <= vind,
                            acc@ == join_with_spaces(first, taken),
                            many_lines_spec(s@, b as int, vind as int) == taken + many_lines_spec(
                                s@,
                                p as int,
                                vind as int,
                            ),
                        ensures
                            acc@ == join_with_spaces(
                                first,
                                many_lines_spec(s@, b as int, vind as int),
                            ),
                        decreases n - p,
                    {
                        let mut stop = true;
                        match check_indent(s, p, vind) {
                            None => {},
                            Some(st) => {
                                let e2 = scan(s, st, CharClass::Line);
                                match eol(s, e2) {
                                    None => {},
                                    Some(nx) => {
                                        stop = false;
                                        acc.append(" ");
                                        acc.append(s.substring_char(st, e2));
                                        proof {
                                            let line = s@.subrange(st as int, e2 as int);
                                            lemma_join_snoc(first, taken, line);
                                            assert(many_lines_spec(s@, p as int, vind as int)
                                                == seq![line] + many_lines_spec(
                                                s@,
                                                nx as int,
                                                vind as int,
                                            ));
                                            assert(taken + (seq![line] + many_lines_spec(
                                                s@,
                                                nx as int,
                                                vind as int,
                                            )) =~= taken.push(line) + many_lines_spec(
                                                s@,
                                                nx as int,
                                                vind as int,
                                            ));
                                            taken = taken.push(line);
                                        }
                                        p = nx;
                                    },
                                }
                            },
                        }
                        if stop {
                            proof {
                                assert(many_lines_spec(s@, p as int, vind as int)
                                    =~= Seq::<Seq<char>>::empty());
                                assert(taken + Seq::<Seq<char>>::empty() =~= taken);
                            }
                            break ;
                        }
                    }
                    FieldRes::Found(acc)
                },
            }
        },
    }
}

// ---------------------------------------------------------------------------
// Lists: inline brackets and indented dashes
// ---------------------------------------------------------------------------

/// The elements inside a bracketed list, from the position after the opening
/// bracket to the position after the closing bracket and its trailing spaces.
pub open spec fn bracket_items_spec(s: Seq<char>, i: int) -> Option<(int, Seq<Seq<char>>)>
    decreases s.len() - i,
    when 0 <= i <= s.len()
{
    let parsed = string_or_number_spec(s, i);
    let p = match parsed {
        Some((p, _)) => p,
        None => i,
    };
    let toks = match parsed {
        Some((_, t)) => seq![t],
        None => Seq::<Seq<char>>::empty(),
    };
    proof {
        lemma_son_bounds(s, i);
        lemma_scan_spec_bounds(s, p, class_pred(CharClass::Space));
    }
    let q = scan_class_spec(s, p, CharClass::Space);
    if q < s.len() && s[q] == ']' {
        Some((scan_class_spec(s, q + 1, CharClass::Space), toks))
    } else if q < s.len() && s[q] == ',' {
        match bracket_items_spec(s, q + 1) {
            Some((e, rest)) => Some((e, toks + rest)),
            None => None,
        }
    } else {
        None
    }
}

/// An inline list value: a bracketed list, or a single scalar element.
pub open spec fn get_one_allowed_spec(s: Seq<char>, i: int) -> Option<(int, Seq<Seq<char>>)> {
    let a = scan_class_spec(s, i, CharClass::Space);
    if a < s.len() && s[a] == '[' {
        bracket_items_spec(s, a + 1)
    } else {
        match string_or_number_spec(s, i) {
            Some((p, t)) => Some((p, seq![t])),
            None => None,
        }
    }
}

/// Parses the elements of a bracketed list, from the position after the
/// opening bracket.
fn bracket_items(s: &str, i: usize) -> (r: Option<(usize, Vec<String>)>)
    requires
        i <= s@.len(),
    ensures
        match bracket_items_spec(s@, i as int) {
            Some((e, toks)) => r matches Some((p, v)) && p as int == e && strings_view(v@) == toks,
            None => r is None,
        },
{
    let n = s.unicode_len();
    let mut acc: Vec<String> = Vec::new();
    let mut cur = i;
    loop
        invariant
            i <= cur <= n,
            n == s@.len(),
            match bracket_items_spec(s@, cur as int) {
                Some((e, rest)) => bracket_items_spec(s@, i as int) == Some(
                    (e, strings_view(acc@) + rest),
                ),
                None => bracket_items_spec(s@, i as int) is None,
            },
        decreases n - cur,
    {
        let ghost toks_cur: Seq<Seq<char>> = match string_or_number_spec(s@, cur as int) {
            Some((_, t)) => seq![t],
            None => Seq::<Seq<char>>::empty(),
        };
        let ghost accv0 = strings_view(acc@);
        let p: usize;
        match string_or_number(s, cur) {
            Some((pp, t)) => {
                p = pp;
                proof {
                    lemma_strings_view_push(acc@, t);
                }
                acc.push(t);
            },
            None => {
                p = cur;
            },
        }
        assert(strings_view(acc@) == accv0 + toks_cur);
        let q = scan(s, p, CharClass::Space);
        if q < n && s.get_char(q) == ']' {
            let e = scan(s, q + 1, CharClass::Space);
            return Some((e, acc));
        } else if q < n && s.get_char(q) == ',' {
            proof {
                match bracket_items_spec(s@, q + 1) {
                    Some((e, rest)) => {
                        assert(accv0 + (toks_cur + rest) =~= (accv0 + toks_cur) + rest);
                    },
                    None => {},
                }
            }
            cur = q + 1;
        } else {
            return None;
        }
    }
}

/// Parses an inline list value: a bracketed list or a single scalar element.
fn get_one_allowed(s: &str, i: usize) -> (r: Option<(usize, Vec<String>)>)
    requires
        i <= s@.len(),
    ensures
        match get_one_allowed_spec(s@, i as int) {
            Some((e, toks)) => r matches Some((p, v)) && p as int == e && strings_view(v@) == toks,
            None => r is None,
        },
{
    let n = s.unicode_len();
    let a = scan(s, i, CharClass::Space);
    if a < n && s.get_char(a) == '[' {
        bracket_items(s, a + 1)
    } else {
        match string_or_number(s, i) {
            Some((p, t)) => {
                let mut v: Vec<String> = Vec::new();
                proof {
                    lemma_strings_view_push(v@, t);
                    assert(strings_view(Seq::<String>::empty()) =~= Seq::<Seq<char>>::empty());
                }
                v.push(t);
                Some((p, v))
            },
            None => None,
        }
    }
}

/// The values of an indented dash list: lines of the form `- <value>` at
/// exactly the given indentation, up to the first line of another shape.
pub open spec fn dash_values_spec(s: Seq<char>, i: int, idt: int) -> Seq<Seq<char>>
    decreases s.len() - i,
    when 0 <= i <= s.len() && 1 <= idt
{
    match check_indent_spec(s, i, idt) {
        None => Seq::<Seq<char>>::empty(),
        Some(st) => {
            proof {
                lemma_scan_spec_bounds(s, i, class_pred(CharClass::Space));
            }
            if st < s.len() && s[st] == '-' {
                let sp = scan_class_spec(s, st + 1, CharClass::Space);
                proof {
                    lemma_scan_spec_bounds(s, st + 1, class_pred(CharClass::Space));
                    lemma_son_bounds(s, sp);
                }
                if sp > st + 1 {
                    match string_or_number_spec(s, sp) {
                        Some((p, t)) => match eol_spec(s, p) {
                            Some(nx) => seq![t] + dash_values_spec(s, nx, idt),
                            None => Seq::<Seq<char>>::empty(),
                        },
                        None => Seq::<Seq<char>>::empty(),
                    }
                } else {
                    Seq::<Seq<char>>::empty()
                }
            } else {
                Seq::<Seq<char>>::empty()
            }
        },
    }
}

/// Collects the values of an indented dash list.
fn dash_values(s: &str, i: usize, idt: usize) -> (r: Vec<String>)
    requires
        i <= s@.len(),
        1 <= idt,
    ensures
        strings_view(r@) == dash_values_spec(s@, i as int, idt as int),
{
    let n = s.unicode_len();
    let mut acc: Vec<String> = Vec::new();
    let mut cur = i;
    proof {
        assert(strings_view(acc@) =~= Seq::<Seq<char>>::empty());
    }
    loop
        invariant
            i <= cur <= n,
            n == s@.len(),
            1 <= idt,
            dash_values_spec(s@, i as int, idt as int) == strings_view(acc@) + dash_values_spec(
                s@,
                cur as int,
                idt as int,
            ),
        decreases n - cur,
    {
        match check_indent(s, cur, idt) {
            None => {
                proof {
                    assert(strings_view(acc@) + dash_values_spec(s@, cur as int, idt as int)
                        =~= strings_view(acc@));
                }
                return acc;
            },
            Some(st) => {
                if st < n && s.get_char(st) == '-' {
                    let sp = scan(s, st + 1, CharClass::Space);
                    if sp > st + 1 {
                        match string_or_number(s, sp) {
                            Some((p, t)) => {
                                match eol(s, p) {
                                    Some(nx) => {
                                        let ghost accv0 = strings_view(acc@);
                                        let ghost tv = t@;
                                        proof {
                                            lemma_strings_view_push(acc@, t);
                                        }
                                        acc.push(t);
                                        proof {
                                            assert(accv0 + (seq![tv] + dash_values_spec(
                                                s@,
                                                nx as int,
                                                idt as int,
                                            )) =~= (accv0 + seq![tv]) + dash_values_spec(
                                                s@,
                                                nx as int,
                                                idt as int,
                                            ));
                                        }
                                        cur = nx;
                                    },
                                    None => {
                                        proof {
                                            assert(strings_view(acc@) + dash_values_spec(
                                                s@,
                                                cur as int,
                                                idt as int,
                                            ) =~= strings_view(acc@));
                                        }
                                        return acc;
                                    },
                                }
                            },
                            None => {
                                proof {
                                    assert(strings_view(acc@) + dash_values_spec(
                                        s@,
                                        cur as int,
                                        idt as int,
                                    ) =~= strings_view(acc@));
                                }
                                return acc;
                            },
                        }
                    } else {
                        proof {
                            assert(strings_view(acc@) + dash_values_spec(
                                s@,
                                cur as int,
                                idt as int,
                            ) =~= strings_view(acc@));
                        }
                        return acc;
                    }
                } else {
                    proof {
                        assert(strings_view(acc@) + dash_values_spec(s@, cur as int, idt as int)
                            =~= strings_view(acc@));
                    }
                    return acc;
                }
            },
        }
    }
}

/// An `allowed:` or `default:` field: an inline bracketed list or scalar on
/// the tag's line, or an indented dash list below it; both give the same
/// ordered list of strings.
pub open spec fn array_field_spec(s: Seq<char>, i: int, tag: Seq<char>, idt: int) -> FSpec<
    Seq<Seq<char>>,
> {
    match search_tag_spec(s, i, tag, idt) {
        SearchSpec::Absent => FSpec::Absent,
        SearchSpec::Abort(p) => FSpec::Bad(PKind::Syntax, p),
        SearchSpec::Found { start, after } => match get_one_allowed_spec(s, after) {
            Some((_, toks)) => FSpec::Found(toks),
            None => match eol_spec(s, after) {
                None => FSpec::Bad(PKind::Syntax, after),
                Some(b) => {
                    let idt2 = scan_class_spec(s, b, CharClass::Space) - b;
                    if idt2 == 0 {
                        FSpec::Bad(PKind::Syntax, b)
                    } else {
                        FSpec::Found(dash_values_spec(s, b, idt2))
                    }
                },
            },
        },
    }
}

/// Extracts an `allowed:` or `default:` list field of an object.
pub fn vss_array(s: &str, i: usize, tag: &str, idt: usize) -> (r: FieldRes<Vec<String>>)
    requires
        i <= s@.len(),
        1 <= idt,
    ensures
        f_ok_list(r, array_field_spec(s@, i as int, tag@, idt as int)),
{
    match search_tag(s, i, tag, idt) {
        SearchRes::Absent => FieldRes::Absent,
        SearchRes::Abort(p) => FieldRes::Bad(PErr { kind: PKind::Syntax, pos: p }),
        SearchRes::Found(start, after) => {
            match get_one_allowed(s, after) {
                Some((_, v)) => FieldRes::Found(v),
                None => {
                    match eol(s, after) {
                        None => FieldRes::Bad(PErr { kind: PKind::Syntax, pos: after }),
                        Some(b) => {
                            let e = scan(s, b, CharClass::Space);
                            let idt2 = e - b;
                            if idt2 == 0 {
                                FieldRes::Bad(PErr { kind: PKind::Syntax, pos: b })
                            } else {
                                FieldRes::Found(dash_values(s, b, idt2))
                            }
                        },
                    }
                },
            }
        },
    }
}

// ---------------------------------------------------------------------------
// Instance templates
// ---------------------------------------------------------------------------

/// The tokens inside one instance bracket group, from the position after the
/// opening bracket: alphanumeric tokens, each optionally framed by quote
/// characters, separated by commas.
pub open spec fn inst_items_spec(s: Seq<char>, i: int) -> Option<(int, Seq<Seq<char>>)>
    decreases s.len() - i,
    when 0 <= i <= s.len()
{
    let q1 = if i < s.len() && (s[i] == '"' || s[i] == '\'') {
        i + 1
    } else {
        i
    };
    let te = scan_class_spec(s, q1, CharClass::Alnum);
    proof {
        lemma_scan_spec_bounds(s, q1, class_pred(CharClass::Alnum));
    }
    let toks = if te > q1 {
        seq![s.subrange(q1, te)]
    } else {
        Seq::<Seq<char>>::empty()
    };
    let q2 = if te < s.len() && (s[te] == '"' || s[te] == '\'') {
        te + 1
    } else {
        te
    };
    if q2 < s.len() && s[q2] == ']' {
        Some((scan_class_spec(s, q2 + 1, CharClass::Space), toks))
    } else if q2 < s.len() && s[q2] == ',' {
        let nx = scan_class_spec(s, q2 + 1, CharClass::Space);
        proof {
            lemma_scan_spec_bounds(s, q2 + 1, class_pred(CharClass::Space));
        }
        match inst_items_spec(s, nx) {
            Some((e, rest)) => Some((e, toks + rest)),
            None => None,
        }
    } else {
        None
    }
}

/// One instance group: an optional alphanumeric prefix and a bracketed token
/// list.
pub open spec fn one_instance_spec(s: Seq<char>, i: int) -> Option<(int, VssInstanceV)> {
    let a = scan_class_spec(s, i, CharClass::Space);
    let pe = scan_class_spec(s, a, CharClass::Alnum);
    let pfx = if pe > a {
        Some(s.subrange(a, pe))
    } else {
        None
    };
    let b = scan_class_spec(s, pe, CharClass::Space);
    if b < s.len() && s[b] == '[' {
        match inst_items_spec(s, b + 1) {
            Some((e, toks)) => Some((e, VssInstanceV { prefix: pfx, array: toks })),
            None => None,
        }
    } else {
        None
    }
}

/// A parsed instance group ends behind where it began and stays in the text.
pub proof fn lemma_inst_items_bounds(s: Seq<char>, i: int)
    requires
        0 <= i <= s.len(),
    ensures
        match inst_items_spec(s, i) {
            Some((e, _)) => i < e <= s.len(),
            None => true,
        },
    decreases s.len() - i,
{
    let q1 = if i < s.len() && (s[i] == '"' || s[i] == '\'') {
        i + 1
    } else {
        i
    };
    let te = scan_class_spec(s, q1, CharClass::Alnum);
    lemma_scan_spec_bounds(s, q1, class_pred(CharClass::Alnum));
    let q2 = if te < s.len() && (s[te] == '"' || s[te] == '\'') {
        te + 1
    } else {
        te
    };
    if q2 < s.len() && s[q2] == ']' {
        lemma_scan_spec_bounds(s, q2 + 1, class_pred(CharClass::Space));
    } else if q2 < s.len() && s[q2] == ',' {
        let nx = scan_class_spec(s, q2 + 1, CharClass::Space);
        lemma_scan_spec_bounds(s, q2 + 1, class_pred(CharClass::Space));
        lemma_inst_items_bounds(s, nx);
    }
}

/// A parsed instance group ends behind where it began and stays in the text.
pub proof fn lemma_one_instance_bounds(s: Seq<char>, i: int)
    requires
        0 <= i <= s.len(),
    ensures
        match one_instance_spec(s, i) {
            Some((e, _)) => i < e <= s.len(),
            None => true,
        },
{
    lemma_scan_spec_bounds(s, i, class_pred(CharClass::Space));
    let a = scan_class_spec(s, i, CharClass::Space);
    lemma_scan_spec_bounds(s, a, class_pred(CharClass::Alnum));
    let pe = scan_class_spec(s, a, CharClass::Alnum);
    lemma_scan_spec_bounds(s, pe, class_pred(CharClass::Space));
    let b = scan_class_spec(s, pe, CharClass::Space);
    if b < s.len() && s[b] == '[' {
        lemma_inst_items_bounds(s, b + 1);
    }
}

/// Parses the tokens of one instance bracket group.
fn inst_items(s: &str, i: usize) -> (r: Option<(usize, Vec<String>)>)
    requires
        i <= s@.len(),
    ensures
        match inst_items_spec(s@, i as int) {
            Some((e, toks)) => r matches Some((p, v)) && p as int == e && strings_view(v@) == toks,
            None => r is None,
        },
{
    let n = s.unicode_len();
    let mut acc: Vec<String> = Vec::new();
    let mut cur = i;
    loop
        invariant
            i <= cur <= n,
            n == s@.len(),
            match inst_items_spec(s@, cur as int) {
                Some((e, rest)) => inst_items_spec(s@, i as int) == Some(
                    (e, strings_view(acc@) + rest),
                ),
                None => inst_items_spec(s@, i as int) is None,
            },
        decreases n - cur,
    {
        let q1 = if cur < n && (s.get_char(cur) == '"' || s.get_char(cur) == '\'') {
            cur + 1
        } else {
            cur
        };
        let te = scan(s, q1, CharClass::Alnum);
        let ghost toks_cur: Seq<Seq<char>> = if te > q1 {
            seq![s@.subrange(q1 as int, te as int)]
        } else {
            Seq::<Seq<char>>::empty()
        };
        let ghost accv0 = strings_view(acc@);
        if te > q1 {
            let t = s.substring_char(q1, te).to_owned();
            proof {
                lemma_strings_view_push(acc@, t);
            }
            acc.push(t);
        }
        assert(strings_view(acc@) == accv0 + toks_cur);
        let q2 = if te < n && (s.get_char(te) == '"' || s.get_char(te) == '\'') {
            te + 1
        } else {
            te
        };
        if q2 < n && s.get_char(q2) == ']' {
            let e = scan(s, q2 + 1, CharClass::Space);
            return Some((e, acc));
        } else if q2 < n && s.get_char(q2) == ',' {
            let nx = scan(s, q2 + 1, CharClass::Space);
            proof {
                match inst_items_spec(s@, nx as int) {
                    Some((e, rest)) => {
                        assert(accv0 + (toks_cur + rest) =~= (accv0 + toks_cur) + rest);
                    },
                    None => {},
                }
            }
            cur = nx;
        } else {
            return None;
        }
    }
}

/// Parses one instance group: optional prefix token, then a bracket group.
pub fn get_one_instance(s: &str, i: usize) -> (r: Option<(usize, VssInstance)>)
    requires
        i <= s@.len(),
    ensures
        match one_instance_spec(s@, i as int) {
            Some((e, inst)) => r matches Some((p, v)) && p as int == e && v@ == inst,
            None => r is None,
        },
{
    let n = s.unicode_len();
    let a = scan(s, i, CharClass::Space);
    let pe = scan(s, a, CharClass::Alnum);
    let pfx: Option<String> = if pe > a {
        Some(s.substring_char(a, pe).to_owned())
    } else {
        None
    };
    let b = scan(s, pe, CharClass::Space);
    if b < n && s.get_char(b) == '[' {
        match inst_items(s, b + 1) {
            Some((e, toks)) => Some((e, VssInstance { prefix: pfx, array: toks })),
            None => None,
        }
    } else {
        None
    }
}

/// Further inline instance groups on the tag's line, collected greedily.
pub open spec fn inline_instances_spec(s: Seq<char>, i: int) -> Seq<VssInstanceV>
    decreases s.len() - i,
    when 0 <= i <= s.len()
{
    match one_instance_spec(s, i) {
        Some((p, inst)) => {
            proof {
                lemma_one_instance_bounds(s, i);
            }
            seq![inst] + inline_instances_spec(s, p)
        },
        None => Seq::<VssInstanceV>::empty(),
    }
}

/// The instance groups of an indented dash list: lines of the form
/// `- <group>` at exactly the given indentation.
pub open spec fn dash_instances_spec(s: Seq<char>, i: int, idt: int) -> Seq<VssInstanceV>
    decreases s.len() - i,
    when 0 <= i <= s.len() && 1 <= idt
{
    match check_indent_spec(s, i, idt) {
        None => Seq::<VssInstanceV>::empty(),
        Some(st) => {
            proof {
                lemma_scan_spec_bounds(s, i, class_pred(CharClass::Space));
            }
            if st < s.len() && s[st] == '-' {
                let sp = scan_class_spec(s, st + 1, CharClass::Space);
                proof {
                    lemma_scan_spec_bounds(s, st + 1, class_pred(CharClass::Space));
                    lemma_one_instance_bounds(s, sp);
                }
                if sp > st + 1 {
                    match one_instance_spec(s, sp) {
                        Some((p, inst)) => match eol_spec(s, p) {
                            Some(nx) => seq![inst] + dash_instances_spec(s, nx, idt),
                            None => Seq::<VssInstanceV>::empty(),
                        },
                        None => Seq::<VssInstanceV>::empty(),
                    }
                } else {
                    Seq::<VssInstanceV>::empty()
                }
            } else {
                Seq::<VssInstanceV>::empty()
            }
        },
    }
}

/// The `instances:` field of a branch: one or more inline bracket groups on
/// the tag's line, or an indented dash list of groups below it.
pub open spec fn instances_field_spec(s: Seq<char>, i: int, idt: int) -> FSpec<Seq<VssInstanceV>> {
    match search_tag_spec(s, i, "instances:"@, idt) {
        SearchSpec::Absent => FSpec::Absent,
        SearchSpec::Abort(p) => FSpec::Bad(PKind::Syntax, p),
        SearchSpec::Found { start, after } => match one_instance_spec(s, after) {
            Some((p, first)) => FSpec::Found(seq![first] + inline_instances_spec(s, p)),
            None => match eol_spec(s, after) {
                None => FSpec::Bad(PKind::Syntax, after),
                Some(b) => {
                    let idt2 = scan_class_spec(s, b, CharClass::Space) - b;
                    if idt2 == 0 {
                        FSpec::Bad(PKind::Syntax, b)
                    } else {
                        FSpec::Found(dash_instances_spec(s, b, idt2))
                    }
                },
            },
        },
    }
}

/// Collects the instance groups of an indented dash list.
fn dash_instances(s: &str, i: usize, idt: usize) -> (r: Vec<VssInstance>)
    requires
        i <= s@.len(),
        1 <= idt,
    ensures
        instances_view(r@) == dash_instances_spec(s@, i as int, idt as int),
{
    let n = s.unicode_len();
    let mut acc: Vec<VssInstance> = Vec::new();
    let mut cur = i;
    proof {
        assert(instances_view(acc@) =~= Seq::<VssInstanceV>::empty());
    }
    loop
        invariant
            i <= cur <= n,
            n == s@.len(),
            1 <= idt,
            dash_instances_spec(s@, i as int, idt as int) == instances_view(acc@)
                + dash_instances_spec(s@, cur as int, idt as int),
        decreases n - cur,
    {
        let mut fin = true;
        match check_indent(s, cur, idt) {
            None => {},
            Some(st) => {
                if st < n && s.get_char(st) == '-' {
                    let sp = scan(s, st + 1, CharClass::Space);
                    if sp > st + 1 {
                        match get_one_instance(s, sp) {
                            Some((p, inst)) => {
                                proof {
                                    lemma_one_instance_bounds(s@, sp as int);
                                }
                                match eol(s, p) {
                                    Some(nx) => {
                                        fin = false;
                                        let ghost accv0 = instances_view(acc@);
                                        let ghost iv = inst@;
                                        proof {
                                            lemma_instances_view_push(acc@, inst@);
                                        }
                                        acc.push(inst);
                                        proof {
                                            assert(accv0 + (seq![iv] + dash_instances_spec(
                                                s@,
                                                nx as int,
                                                idt as int,
                                            )) =~= (accv0 + seq![iv]) + dash_instances_spec(
                                                s@,
                                                nx as int,
                                                idt as int,
                                            ));
                                        }
                                        cur = nx;
                                    },
                                    None => {},
                                }
                            },
                            None => {},
                        }
                    }
                }
            },
        }
        if fin {
            proof {
                assert(instances_view(acc@) + dash_instances_spec(s@, cur as int, idt as int)
                    =~= instances_view(acc@));
            }
            return acc;
        }
    }
}

/// Extracts the `instances:` field of a branch block.
pub fn vss_instances(s: &str, i: usize, idt: usize) -> (r: FieldRes<Vec<VssInstance>>)
    requires
        i <= s@.len(),
        1 <= idt,
    ensures
        f_ok_insts(r, instances_field_spec(s@, i as int, idt as int)),
{
    let n = s.unicode_len();
    match search_tag(s, i, "instances:", idt) {
        SearchRes::Absent => FieldRes::Absent,
        SearchRes::Abort(p) => FieldRes::Bad(PErr { kind: PKind::Syntax, pos: p }),
        SearchRes::Found(start, after) => {
            match get_one_instance(s, after) {
                Some((p0, first)) => {
                    let mut acc: Vec<VssInstance> = Vec::new();
                    proof {
                        lemma_instances_view_push(acc@, first@);
                        assert(instances_view(Seq::<VssInstance>::empty())
                            =~= Seq::<VssInstanceV>::empty());
                    }
                    let ghost firstv = first@;
                    acc.push(first);
                    let mut cur = p0;
                    proof {
                        lemma_one_instance_bounds(s@, after as int);
                    }
                    loop
                        invariant
                            cur <= n,
                            n == s@.len(),
                            instances_field_spec(s@, i as int, idt as int) == FSpec::Found(
                                instances_view(acc@) + inline_instances_spec(s@, cur as int),
                            ),
                        decreases n - cur,
                    {
                        match get_one_instance(s, cur) {
                            Some((p, inst)) => {
                                proof {
                                    lemma_one_instance_bounds(s@, cur as int);
                                }
                                let ghost accv0 = instances_view(acc@);
                                let ghost iv = inst@;
                                proof {
                                    lemma_instances_view_push(acc@, inst@);
                                }
                                acc.push(inst);
                                proof {
                                    assert(accv0 + (seq![iv] + inline_instances_spec(
                                        s@,
                                        p as int,
                                    )) =~= (accv0 + seq![iv]) + inline_instances_spec(
                                        s@,
                                        p as int,
                                    ));
                                }
                                cur = p;
                            },
                            None => {
                                proof {
                                    assert(instances_view(acc@) + inline_instances_spec(
                                        s@,
                                        cur as int,
                                    ) =~= instances_view(acc@));
                                }
                                return FieldRes::Found(acc);
                            },
                        }
                    }
                },
                None => {
                    match eol(s, after) {
                        None => FieldRes::Bad(PErr { kind: PKind::Syntax, pos: after }),
                        Some(b) => {
                            let e = scan(s, b, CharClass::Space);
                            let idt2 = e - b;
                            if idt2 == 0 {
                                FieldRes::Bad(PErr { kind: PKind::Syntax, pos: b })
                            } else {
                                FieldRes::Found(dash_instances(s, b, idt2))
                            }
                        },
                    }
                },
            }
        },
    }
}

// ---------------------------------------------------------------------------
// Tag authorization
// ---------------------------------------------------------------------------

/// The closed field set of an object kind, plus the always-allowed tags.
/// Branches take `aggregate` and `instances`; the leaf kinds take the data
/// field tags.
pub open spec fn authorized_label_spec(lbl: Seq<char>, branch: bool) -> bool {
    ||| lbl == "type"@
    ||| lbl == "deprecation"@
    ||| lbl == "description"@
    ||| lbl == "comment"@
    ||| (branch && (lbl == "aggregate"@ || lbl == "instances"@))
    ||| (!branch && (lbl == "arraysize"@ || lbl == "datatype"@ || lbl == "default"@ || lbl
        == "allowed"@ || lbl == "unit"@ || lbl == "min"@ || lbl == "max"@))
}

/// Decides whether a tag belongs to the field set of the object kind.
pub fn authorized_label(lbl: &str, branch: bool) -> (r: bool)
    ensures
        r == authorized_label_spec(lbl@, branch),
{
    if str_eq(lbl, "type") || str_eq(lbl, "deprecation") || str_eq(lbl, "description") || str_eq(
        lbl,
        "comment",
    ) {
        return true;
    }
    if branch {
        str_eq(lbl, "aggregate") || str_eq(lbl, "instances")
    } else {
        str_eq(lbl, "arraysize") || str_eq(lbl, "datatype") || str_eq(lbl, "default") || str_eq(
            lbl,
            "allowed",
        ) || str_eq(lbl, "unit") || str_eq(lbl, "min") || str_eq(lbl, "max")
    }
}

/// Scans an object block for tag lines at exactly `idt` and yields the
/// position of the first tag outside the kind's field set, if any.  Deeper
/// lines and lines that are not tags are passed over; the scan ends at the
/// first line indented less than `idt`.
pub open spec fn check_auth_spec(s: Seq<char>, i: int, idt: int, branch: bool) -> Option<int>
    decreases s.len() - i,
    when 0 <= i <= s.len() && 1 <= idt
{
    match check_indent_spec(s, i, idt) {
        None => None,
        Some(st) => {
            proof {
                lemma_scan_spec_bounds(s, i, class_pred(CharClass::Space));
            }
            let te = scan_class_spec(s, st, CharClass::Alnum);
            proof {
                lemma_scan_spec_bounds(s, st, class_pred(CharClass::Alnum));
            }
            let sp = scan_class_spec(s, te, CharClass::Space);
            proof {
                lemma_scan_spec_bounds(s, te, class_pred(CharClass::Space));
            }
            let is_tag = te > st && sp < s.len() && s[sp] == ':';
            let e = scan_class_spec(s, st, CharClass::Line);
            proof {
                lemma_scan_spec_bounds(s, st, class_pred(CharClass::Line));
            }
            let nx = match eol_spec(s, e) {
                Some(nx) => nx,
                None => e + 1,
            };
            if is_tag && !authorized_label_spec(s.subrange(st, te), branch) {
                Some(st)
            } else {
                check_auth_spec(s, nx, idt, branch)
            }
        },
    }
}

/// Checks every tag line of an object block against the kind's field set;
/// yields the position of the first unauthorized tag, if any.
pub fn check_authorized_labels(s: &str, i: usize, idt: usize, branch: bool) -> (r: Option<usize>)
    requires
        i <= s@.len(),
        1 <= idt,
    ensures
        opt_pos_ok(r, check_auth_spec(s@, i as int, idt as int, branch)),
{
    let n = s.unicode_len();
    let mut cur = i;
    loop
        invariant
            i <= cur <= n,
            n == s@.len(),
            1 <= idt,
            check_auth_spec(s@, i as int, idt as int, branch) == check_auth_spec(
                s@,
                cur as int,
                idt as int,
                branch,
            ),
        decreases n - cur,
    {
        match check_indent(s, cur, idt) {
            None => {
                return None;
            },
            Some(st) => {
                let te = scan(s, st, CharClass::Alnum);
                let sp = scan(s, te, CharClass::Space);
                let is_tag = te > st && sp < n && s.get_char(sp) == ':';
                let e = scan(s, st, CharClass::Line);
                let nx = match eol(s, e) {
                    Some(nx) => nx,
                    None => e + 1,
                };
                if is_tag && !authorized_label(s.substring_char(st, te), branch) {
                    return Some(st);
                }
                cur = nx;
            },
        }
    }
}

// ---------------------------------------------------------------------------
// Object blocks
// ---------------------------------------------------------------------------

/// Position after an object's whole body block: every line indented at least
/// `idt` is passed over, and one line terminator after the block, if present,
/// is consumed.
pub open spec fn ignore_block_spec(s: Seq<char>, i: int, idt: int) -> int
    decreases s.len() - i,
    when 0 <= i <= s.len() && 1 <= idt
{
    match check_indent_spec(s, i, idt) {
        Some(st) => {
            proof {
                lemma_scan_spec_bounds(s, i, class_pred(CharClass::Space));
            }
            let e = scan_class_spec(s, st, CharClass::Line);
            proof {
                lemma_scan_spec_bounds(s, st, class_pred(CharClass::Line));
            }
            match eol_spec(s, e) {
                Some(nx) => ignore_block_spec(s, nx, idt),
                None => e,
            }
        },
        None => match eol_spec(s, i) {
            Some(nx) => nx,
            None => i,
        },
    }
}

/// Skipping a block never moves backwards and stays in the text.
pub proof fn lemma_ignore_block_bounds(s: Seq<char>, i: int, idt: int)
    requires
        0 <= i <= s.len(),
        1 <= idt,
    ensures
        i <= ignore_block_spec(s, i, idt) <= s.len(),
    decreases s.len() - i,
{
    match check_indent_spec(s, i, idt) {
        Some(st) => {
            lemma_scan_spec_bounds(s, i, class_pred(CharClass::Space));
            let e = scan_class_spec(s, st, CharClass::Line);
            lemma_scan_spec_bounds(s, st, class_pred(CharClass::Line));
            match eol_spec(s, e) {
                Some(nx) => {
                    lemma_ignore_block_bounds(s, nx, idt);
                },
                None => {},
            }
        },
        None => {},
    }
}

/// Skips an object's body block.
pub fn ignore_indent_block(s: &str, i: usize, idt: usize) -> (r: usize)
    requires
        i <= s@.len(),
        1 <= idt,
    ensures
        r == ignore_block_spec(s@, i as int, idt as int),
        i <= r <= s@.len(),
{
    let n = s.unicode_len();
    let mut cur = i;
    loop
        invariant
            i <= cur <= n,
            n == s@.len(),
            1 <= idt,
            ignore_block_spec(s@, i as int, idt as int) == ignore_block_spec(
                s@,
                cur as int,
                idt as int,
            ),
        decreases n - cur,
    {
        match check_indent(s, cur, idt) {
            Some(st) => {
                let e = scan(s, st, CharClass::Line);
                match eol(s, e) {
                    Some(nx) => {
                        cur = nx;
                    },
                    None => {
                        return e;
                    },
                }
            },
            None => {
                match eol(s, cur) {
                    Some(nx) => {
                        return nx;
                    },
                    None => {
                        return cur;
                    },
                }
            },
        }
    }
}

// ---------------------------------------------------------------------------
// Field composition helpers
// ---------------------------------------------------------------------------

/// The failure carried by an extractor outcome, if any.
pub open spec fn fs_err<T>(f: FSpec<T>) -> Option<(PKind, int)> {
    match f {
        FSpec::Bad(k, p) => Some((k, p)),
        _ => None,
    }
}

/// The found value of an extractor outcome, or a default.
pub open spec fn fs_or<T>(f: FSpec<T>, dflt: T) -> T {
    match f {
        FSpec::Found(v) => v,
        _ => dflt,
    }
}

/// The found value of an extractor outcome, if any.
pub open spec fn fs_opt<T>(f: FSpec<T>) -> Option<T> {
    match f {
        FSpec::Found(v) => Some(v),
        _ => None,
    }
}

/// The object path: the label, prefixed by the owning file's namespace
/// prefix when it carries one.
pub open spec fn make_vpath_spec(prefix: Option<Seq<char>>, label: Seq<char>) -> Seq<char> {
    match prefix {
        Some(p) => p + "."@ + label,
        None => label,
    }
}

/// The namespace prefix of the file owning the line that position `pos`
/// falls on, if that line exists and its file carries one.
pub open spec fn prefix_at_spec(l: LocatorV, pos: int) -> Option<Seq<char>> {
    let idx = location_spec(l, l.buffer.len() - pos);
    if 0 <= idx < l.lines.len() {
        l.lines[idx].filename.prefix
    } else {
        None
    }
}

// ---------------------------------------------------------------------------
// Per-kind object parsing
// ---------------------------------------------------------------------------

/// An attribute block: the closed field set {description, comment, datatype,
/// unit, default, allowed}, extracted by independent scans from the block
/// start, then tag authorization.  An array marker without an explicit size
/// leaves the sentinel size zero.
pub open spec fn attribute_spec(
    l: LocatorV,
    start: int,
    idt: int,
    vpath: Seq<char>,
    vtype: VssObjectType,
) -> Result<VssAttributeV, (PKind, int)> {
    let s = l.buffer;
    let desc = block_field_spec(s, start, "description:"@, idt);
    let com = block_field_spec(s, start, "comment:"@, idt);
    let dt = datatype_spec(s, start, idt);
    let un = unit_spec(s, start, idt);
    let def = array_field_spec(s, start, "default:"@, idt);
    let alw = array_field_spec(s, start, "allowed:"@, idt);
    if fs_err(desc) is Some {
        Err(fs_err(desc).unwrap())
    } else if fs_err(com) is Some {
        Err(fs_err(com).unwrap())
    } else if fs_err(dt) is Some {
        Err(fs_err(dt).unwrap())
    } else if fs_err(un) is Some {
        Err(fs_err(un).unwrap())
    } else if fs_err(def) is Some {
        Err(fs_err(def).unwrap())
    } else if fs_err(alw) is Some {
        Err(fs_err(alw).unwrap())
    } else {
        match check_auth_spec(s, start, idt, false) {
            Some(p) => Err((PKind::UnauthorizedTag, p)),
            None => Ok(
                VssAttributeV {
                    vpath,
                    vtype,
                    description: fs_opt(desc),
                    comment: fs_opt(com),
                    location: location_spec(l, l.buffer.len() - start),
                    datatype: match fs_opt(dt) {
                        Some(d) => d.is_type,
                        None => VssValueType::Unset,
                    },
                    arraysize: match fs_opt(dt) {
                        Some(d) => if d.is_array {
                            Some(0usize)
                        } else {
                            None
                        },
                        None => None,
                    },
                    default: fs_or(def, Seq::<Seq<char>>::empty()),
                    allowed: fs_or(alw, Seq::<Seq<char>>::empty()),
                    unit: fs_or(un, VssUnit::Unset),
                },
            ),
        }
    }
}

/// Parses an attribute block.
pub fn vss_attribute(
    locator: &Locator,
    start: usize,
    label: String,
    vtype: VssObjectType,
    indent: usize,
) -> (r: Result<VssAttribute, PErr>)
    requires
        start <= locator.buffer@.len(),
        1 <= indent,
    ensures
        match r {
            Ok(a) => attribute_spec(locator@, start as int, indent as int, label@, vtype) == Ok::<VssAttributeV, (PKind, int)>(a@),
            Err(e) => attribute_spec(locator@, start as int, indent as int, label@, vtype) == Err::<VssAttributeV, (PKind, int)>((e.kind, e.pos as int)),
        },
{
    let s = locator.buffer.as_str();
    let n = s.unicode_len();
    let desc = get_block_indent(s, start, "description:", indent);
    let com = get_block_indent(s, start, "comment:", indent);
    let dt = vss_datatype(s, start, indent);
    let un = vss_unit(s, start, indent);
    let def = vss_array(s, start, "default:", indent);
    let alw = vss_array(s, start, "allowed:", indent);
    if let FieldRes::Bad(e) = &desc {
        return Err(*e);
    }
    if let FieldRes::Bad(e) = &com {
        return Err(*e);
    }
    if let FieldRes::Bad(e) = &dt {
        return Err(*e);
    }
    if let FieldRes::Bad(e) = &un {
        return Err(*e);
    }
    if let FieldRes::Bad(e) = &def {
        return Err(*e);
    }
    if let FieldRes::Bad(e) = &alw {
        return Err(*e);
    }
    if let Some(p) = check_authorized_labels(s, start, indent, false) {
        return Err(PErr { kind: PKind::UnauthorizedTag, pos: p });
    }
    let mut obj = VssAttribute::new(locator, s.substring_char(start, n), label, vtype);
    match desc {
        FieldRes::Found(v) => obj.description = Some(v),
        _ => (),
    }
    match com {
        FieldRes::Found(v) => obj.comment = Some(v),
        _ => (),
    }
    match dt {
        FieldRes::Found(d) => {
            obj.datatype = d.is_type;
            if d.is_array {
                obj.arraysize = Some(0);
            }
        },
        _ => (),
    }
    match un {
        FieldRes::Found(u) => obj.unit = u,
        _ => (),
    }
    match def {
        FieldRes::Found(v) => obj.default = v,
        _ => (),
    }
    match alw {
        FieldRes::Found(v) => obj.allowed = v,
        _ => (),
    }
    Ok(obj)
}

/// A sensor or actuator block: the closed field set {description, comment,
/// datatype, arraysize, default, allowed, unit, min, max}, extracted by
/// independent scans from the block start, then tag authorization.  An
/// explicit `arraysize:` overrides the array-marker sentinel.
pub open spec fn sensor_spec(
    l: LocatorV,
    start: int,
    idt: int,
    vpath: Seq<char>,
    vtype: VssObjectType,
) -> Result<VssSensorV, (PKind, int)> {
    let s = l.buffer;
    let desc = block_field_spec(s, start, "description:"@, idt);
    let com = block_field_spec(s, start, "comment:"@, idt);
    let dt = datatype_spec(s, start, idt);
    let asz = arraysize_spec(s, start, idt);
    let def = array_field_spec(s, start, "default:"@, idt);
    let alw = array_field_spec(s, start, "allowed:"@, idt);
    let un = unit_spec(s, start, idt);
    let mn = bound_spec(s, start, "min:"@, idt);
    let mx = bound_spec(s, start, "max:"@, idt);
    if fs_err(desc) is Some {
        Err(fs_err(desc).unwrap())
    } else if fs_err(com) is Some {
        Err(fs_err(com).unwrap())
    } else if fs_err(dt) is Some {
        Err(fs_err(dt).unwrap())
    } else if fs_err(asz) is Some {
        Err(fs_err(asz).unwrap())
    } else if fs_err(def) is Some {
        Err(fs_err(def).unwrap())
    } else if fs_err(alw) is Some {
        Err(fs_err(alw).unwrap())
    } else if fs_err(un) is Some {
        Err(fs_err(un).unwrap())
    } else if fs_err(mn) is Some {
        Err(fs_err(mn).unwrap())
    } else if fs_err(mx) is Some {
        Err(fs_err(mx).unwrap())
    } else {
        match check_auth_spec(s, start, idt, false) {
            Some(p) => Err((PKind::UnauthorizedTag, p)),
            None => Ok(
                VssSensorV {
                    vpath,
                    vtype,
                    description: fs_opt(desc),
                    comment: fs_opt(com),
                    min: fs_opt(mn),
                    max: fs_opt(mx),
                    datatype: match fs_opt(dt) {
                        Some(d) => d.is_type,
                        None => VssValueType::Unset,
                    },
                    arraysize: match fs_opt(asz) {
                        Some(v) => Some(v),
                        None => match fs_opt(dt) {
                            Some(d) => if d.is_array {
                                Some(0usize)
                            } else {
                                None
                            },
                            None => None,
                        },
                    },
                    default: fs_or(def, Seq::<Seq<char>>::empty()),
                    allowed: fs_or(alw, Seq::<Seq<char>>::empty()),
                    location: location_spec(l, l.buffer.len() - start),
                    unit: fs_or(un, VssUnit::Unset),
                },
            ),
        }
    }
}

/// Parses a sensor or actuator block.
pub fn vss_sensor(
    locator: &Locator,
    start: usize,
    label: String,
    vtype: VssObjectType,
    indent: usize,
) -> (r: Result<VssSensor, PErr>)
    requires
        start <= locator.buffer@.len(),
        1 <= indent,
    ensures
        match r {
            Ok(a) => sensor_spec(locator@, start as int, indent as int, label@, vtype) == Ok::<VssSensorV, (PKind, int)>(a@),
            Err(e) => sensor_spec(locator@, start as int, indent as int, label@, vtype) == Err::<VssSensorV, (PKind, int)>((e.kind, e.pos as int)),
        },
{
    let s = locator.buffer.as_str();
    let n = s.unicode_len();
    let desc = get_block_indent(s, start, "description:", indent);
    let com = get_block_indent(s, start, "comment:", indent);
    let dt = vss_datatype(s, start, indent);
    let asz = vss_arraysize(s, start, indent);
    let def = vss_array(s, start, "default:", indent);
    let alw = vss_array(s, start, "allowed:", indent);
    let un = vss_unit(s, start, indent);
    let mn = vss_bound(s, start, "min:", indent);
    let mx = vss_bound(s, start, "max:", indent);
    if let FieldRes::Bad(e) = &desc {
        return Err(*e);
    }
    if let FieldRes::Bad(e) = &com {
        return Err(*e);
    }
    if let FieldRes::Bad(e) = &dt {
        return Err(*e);
    }
    if let FieldRes::Bad(e) = &asz {
        return Err(*e);
    }
    if let FieldRes::Bad(e) = &def {
        return Err(*e);
    }
    if let FieldRes::Bad(e) = &alw {
        return Err(*e);
    }
    if let FieldRes::Bad(e) = &un {
        return Err(*e);
    }
    if let FieldRes::Bad(e) = &mn {
        return Err(*e);
    }
    if let FieldRes::Bad(e) = &mx {
        return Err(*e);
    }
    if let Some(p) = check_authorized_labels(s, start, indent, false) {
        return Err(PErr { kind: PKind::UnauthorizedTag, pos: p });
    }
    let mut obj = VssSensor::new(locator, s.substring_char(start, n), label, vtype);
    match desc {
        FieldRes::Found(v) => obj.description = Some(v),
        _ => (),
    }
    match com {
        FieldRes::Found(v) => obj.comment = Some(v),
        _ => (),
    }
    match dt {
        FieldRes::Found(d) => {
            obj.datatype = d.is_type;
            if d.is_array {
                obj.arraysize = Some(0);
            }
        },
        _ => (),
    }
    match asz {
        FieldRes::Found(v) => obj.arraysize = Some(v),
        _ => (),
    }
    match def {
        FieldRes::Found(v) => obj.default = v,
        _ => (),
    }
    match alw {
        FieldRes::Found(v) => obj.allowed = v,
        _ => (),
    }
    match un {
        FieldRes::Found(u) => obj.unit = u,
        _ => (),
    }
    match mn {
        FieldRes::Found(v) => obj.min = Some(v),
        _ => (),
    }
    match mx {
        FieldRes::Found(v) => obj.max = Some(v),
        _ => (),
    }
    Ok(obj)
}

/// A branch block: the closed field set {description, comment, aggregate,
/// instances}, extracted by independent scans from the block start, then tag
/// authorization.
pub open spec fn branch_spec(
    l: LocatorV,
    start: int,
    idt: int,
    vpath: Seq<char>,
    vtype: VssObjectType,
) -> Result<VssBranchV, (PKind, int)> {
    let s = l.buffer;
    let desc = block_field_spec(s, start, "description:"@, idt);
    let com = block_field_spec(s, start, "comment:"@, idt);
    let agg = aggregate_spec(s, start, idt);
    let ins = instances_field_spec(s, start, idt);
    if fs_err(desc) is Some {
        Err(fs_err(desc).unwrap())
    } else if fs_err(com) is Some {
        Err(fs_err(com).unwrap())
    } else if fs_err(agg) is Some {
        Err(fs_err(agg).unwrap())
    } else if fs_err(ins) is Some {
        Err(fs_err(ins).unwrap())
    } else {
        match check_auth_spec(s, start, idt, true) {
            Some(p) => Err((PKind::UnauthorizedTag, p)),
            None => Ok(
                VssBranchV {
                    vpath,
                    vtype,
                    description: fs_opt(desc),
                    comment: fs_opt(com),
                    location: location_spec(l, l.buffer.len() - start),
                    instances: fs_or(ins, Seq::<VssInstanceV>::empty()),
                    aggregate: fs_or(agg, false),
                },
            ),
        }
    }
}

/// Parses a branch block.
pub fn vss_branch(
    locator: &Locator,
    start: usize,
    label: String,
    vtype: VssObjectType,
    indent: usize,
) -> (r: Result<VssBranch, PErr>)
    requires
        start <= locator.buffer@.len(),
        1 <= indent,
    ensures
        match r {
            Ok(a) => branch_spec(locator@, start as int, indent as int, label@, vtype) == Ok::<VssBranchV, (PKind, int)>(a@),
            Err(e) => branch_spec(locator@, start as int, indent as int, label@, vtype) == Err::<VssBranchV, (PKind, int)>((e.kind, e.pos as int)),
        },
{
    let s = locator.buffer.as_str();
    let n = s.unicode_len();
    let desc = get_block_indent(s, start, "description:", indent);
    let com = get_block_indent(s, start, "comment:", indent);
    let agg = vss_aggregate(s, start, indent);
    let ins = vss_instances(s, start, indent);
    if let FieldRes::Bad(e) = &desc {
        return Err(*e);
    }
    if let FieldRes::Bad(e) = &com {
        return Err(*e);
    }
    if let FieldRes::Bad(e) = &agg {
        return Err(*e);
    }
    if let FieldRes::Bad(e) = &ins {
        return Err(*e);
    }
    if let Some(p) = check_authorized_labels(s, start, indent, true) {
        return Err(PErr { kind: PKind::UnauthorizedTag, pos: p });
    }
    let mut obj = VssBranch::new(locator, s.substring_char(start, n), label, vtype);
    match desc {
        FieldRes::Found(v) => obj.description = Some(v),
        _ => (),
    }
    match com {
        FieldRes::Found(v) => obj.comment = Some(v),
        _ => (),
    }
    match agg {
        FieldRes::Found(v) => obj.aggregate = v,
        _ => (),
    }
    match ins {
        FieldRes::Found(v) => obj.instances = v,
        _ => (),
    }
    Ok(obj)
}

// ---------------------------------------------------------------------------
// Whole objects
// ---------------------------------------------------------------------------

/// Ghost model of a parsed object of any kind.
pub ghost enum VssObjectV {
    Branch(VssBranchV),
    Sensor(VssSensorV),
    Attribute(VssAttributeV),
}

impl View for VssObject {
    type V = VssObjectV;

    open spec fn view(&self) -> VssObjectV {
        match self {
            VssObject::Branch(b) => VssObjectV::Branch(b@),
            VssObject::Sensor(x) => VssObjectV::Sensor(x@),
            VssObject::Attribute(x) => VssObjectV::Attribute(x@),
        }
    }
}

/// One object: the header line fixes the label and the body indentation; the
/// `type:` tag picks the kind; the kind's field extractor fills the record;
/// the whole body block is then consumed, with one trailing line terminator.
/// The path is the label, prefixed when the owning file carries a namespace
/// prefix.
pub open spec fn object_spec(l: LocatorV, pos: int) -> Result<(int, VssObjectV), (PKind, int)> {
    match vss_label_spec(l.buffer, pos) {
        None => Err((PKind::Syntax, pos)),
        Some((start, label, indent)) => {
            let vpath = make_vpath_spec(prefix_at_spec(l, start), label);
            let np = ignore_block_spec(l.buffer, start, indent);
            match objtype_spec(l.buffer, start, indent) {
                FSpec::Found(t) => match t {
                    VssObjectType::Attribute => match attribute_spec(l, start, indent, vpath, t) {
                        Ok(a) => Ok((np, VssObjectV::Attribute(a))),
                        Err(e) => Err(e),
                    },
                    VssObjectType::Branch => match branch_spec(l, start, indent, vpath, t) {
                        Ok(a) => Ok((np, VssObjectV::Branch(a))),
                        Err(e) => Err(e),
                    },
                    _ => match sensor_spec(l, start, indent, vpath, t) {
                        Ok(a) => Ok((np, VssObjectV::Sensor(a))),
                        Err(e) => Err(e),
                    },
                },
                _ => Err((PKind::ObjectTypeNotSet, pos)),
            }
        },
    }
}

/// A header, when recognised, lies strictly inside the text.
pub proof fn lemma_label_bounds(s: Seq<char>, i: int)
    requires
        0 <= i <= s.len(),
    ensures
        match vss_label_spec(s, i) {
            Some((start, _, indent)) => i < start < s.len() && 1 <= indent,
            None => true,
        },
{
    lemma_scan_spec_bounds(s, i, class_pred(CharClass::Argument));
    let a = scan_class_spec(s, i, CharClass::Argument);
    if a < s.len() && s[a] == ':' {
        match eol_spec(s, a + 1) {
            Some(b) => {
                lemma_scan_spec_bounds(s, b, class_pred(CharClass::Space));
            },
            None => {},
        }
    }
}

/// A parsed object always moves the cursor forward and stays in the text.
pub proof fn lemma_object_progress(l: LocatorV, pos: int)
    requires
        0 <= pos <= l.buffer.len(),
    ensures
        match object_spec(l, pos) {
            Ok((np, _)) => pos < np <= l.buffer.len(),
            Err(_) => true,
        },
{
    lemma_label_bounds(l.buffer, pos);
    match vss_label_spec(l.buffer, pos) {
        Some((start, _, indent)) => {
            lemma_ignore_block_bounds(l.buffer, start, indent);
        },
        None => {},
    }
}

/// Parses one object at `pos` of the merged buffer and returns it with the
/// position after its block.
pub fn vss_object(locator: &Locator, pos: usize) -> (r: Result<(usize, VssObject), PErr>)
    requires
        pos <= locator.buffer@.len(),
    ensures
        match r {
            Ok((np, o)) => object_spec(locator@, pos as int) == Ok::<(int, VssObjectV), (
                PKind,
                int,
            )>((np as int, o@)) && pos < np <= locator.buffer@.len(),
            Err(e) => object_spec(locator@, pos as int) == Err::<(int, VssObjectV), (PKind, int)>(
                (e.kind, e.pos as int),
            ),
        },
{
    let s = locator.buffer.as_str();
    let n = s.unicode_len();
    match vss_label(s, pos) {
        None => Err(PErr { kind: PKind::Syntax, pos }),
        Some((start, label, indent)) => {
            proof {
                lemma_label_bounds(s@, pos as int);
            }
            // the namespace prefix of the line the body starts on
            let tail = n - start;
            let idx = location(locator, tail);
            let prefix: Option<String> = if idx < locator.data.lines.len() {
                proof {
                    assert(locator@.lines[idx as int] == locator.data.lines@[idx as int]@);
                }
                match &locator.data.lines[idx].filename.prefix {
                    Some(p) => Some(p.clone()),
                    None => None,
                }
            } else {
                None
            };
            let vpath: String = match prefix {
                Some(p) => {
                    let mut v = p;
                    v.append(".");
                    v.append(label.as_str());
                    v
                },
                None => label,
            };
            let np = ignore_indent_block(s, start, indent);
            match vss_objtype(s, start, indent) {
                FieldRes::Found(t) => match t {
                    VssObjectType::Attribute => match vss_attribute(
                        locator,
                        start,
                        vpath,
                        t,
                        indent,
                    ) {
                        Ok(a) => Ok((np, VssObject::Attribute(a))),
                        Err(e) => Err(e),
                    },
                    VssObjectType::Branch => match vss_branch(locator, start, vpath, t, indent) {
                        Ok(a) => Ok((np, VssObject::Branch(a))),
                        Err(e) => Err(e),
                    },
                    _ => match vss_sensor(locator, start, vpath, t, indent) {
                        Ok(a) => Ok((np, VssObject::Sensor(a))),
                        Err(e) => Err(e),
                    },
                },
                _ => Err(PErr { kind: PKind::ObjectTypeNotSet, pos }),
            }
        },
    }
}

// ---------------------------------------------------------------------------
// The whole specification
// ---------------------------------------------------------------------------

/// The parse of the whole merged buffer from `pos`: a sequence of objects,
/// sorted into the three collections in source encounter order; the first
/// failure aborts the whole parse.
pub open spec fn parse_rules_spec(l: LocatorV, pos: int) -> Result<VssSpecV, (PKind, int)>
    decreases l.buffer.len() - pos,
    when 0 <= pos <= l.buffer.len()
{
    if pos >= l.buffer.len() {
        Ok(
            VssSpecV {
                attributes: Seq::<VssAttributeV>::empty(),
                sensors: Seq::<VssSensorV>::empty(),
                branches: Seq::<VssBranchV>::empty(),
            },
        )
    } else {
        match object_spec(l, pos) {
            Err(e) => Err(e),
            Ok((np, obj)) => {
                proof {
                    lemma_object_progress(l, pos);
                }
                match parse_rules_spec(l, np) {
                    Err(e) => Err(e),
                    Ok(rest) => Ok(
                        VssSpecV {
                            attributes: match obj {
                                VssObjectV::Attribute(a) => seq![a] + rest.attributes,
                                _ => rest.attributes,
                            },
                            sensors: match obj {
                                VssObjectV::Sensor(a) => seq![a] + rest.sensors,
                                _ => rest.sensors,
                            },
                            branches: match obj {
                                VssObjectV::Branch(a) => seq![a] + rest.branches,
                                _ => rest.branches,
                            },
                        },
                    ),
                }
            },
        }
    }
}

/// The error identifier of each failure kind.
pub open spec fn kind_uid_spec(k: PKind) -> Seq<char> {
    match k {
        PKind::Syntax => "vss-syntax-error"@,
        PKind::ObjectTypeNotSet => "vss-object-type-unset"@,
        PKind::DataTypeInvalid => "vss-datatype-invalid"@,
        PKind::UnitInvalid => "vss-objunit-invalid"@,
        PKind::UnauthorizedTag => "vss-unauthorized-tag"@,
        PKind::ArraySizeNotNumeric => "vss-arraysize-not-numeric"@,
        PKind::BoundsNotNumeric => "vss-bounds-not-numeric"@,
    }
}

/// The error identifier of a failure kind.
pub fn kind_uid(k: PKind) -> (r: &'static str)
    ensures
        r@ == kind_uid_spec(k),
{
    match k {
        PKind::Syntax => "vss-syntax-error",
        PKind::ObjectTypeNotSet => "vss-object-type-unset",
        PKind::DataTypeInvalid => "vss-datatype-invalid",
        PKind::UnitInvalid => "vss-objunit-invalid",
        PKind::UnauthorizedTag => "vss-unauthorized-tag",
        PKind::ArraySizeNotNumeric => "vss-arraysize-not-numeric",
        PKind::BoundsNotNumeric => "vss-bounds-not-numeric",
    }
}

/// A one-line excerpt at a buffer position: leading spaces dropped, up to the
/// end of the line.
pub open spec fn excerpt_spec(s: Seq<char>, pos: int) -> Seq<char> {
    let a = scan_class_spec(s, pos, CharClass::Space);
    let e = scan_class_spec(s, a, CharClass::Line);
    s.subrange(a, e)
}

/// Returns the line at a buffer position, with leading spaces removed.
pub fn get_one_line(s: &str, pos: usize) -> (r: String)
    requires
        pos <= s@.len(),
    ensures
        r@ == excerpt_spec(s@, pos as int),
{
    let a = scan(s, pos, CharClass::Space);
    let e = scan(s, a, CharClass::Line);
    s.substring_char(a, e).to_owned()
}

/// The qualified message of a parse failure: the file, line number and a
/// one-line excerpt of the offending position, resolved through the location
/// index; a plain marker only when the index holds no lines at all.
/// A position behind the buffer end reads as the buffer end.
pub open spec fn error_info_spec(l: LocatorV, p: int) -> Seq<char> {
    let pos = if 0 <= p <= l.buffer.len() {
        p
    } else if p > l.buffer.len() {
        l.buffer.len() as int
    } else {
        0
    };
    let idx = location_spec(l, l.buffer.len() - pos);
    let ex = excerpt_spec(l.buffer, pos);
    if 0 <= idx < l.lines.len() {
        l.lines[idx].filename.dirname + l.lines[idx].filename.basename + ":"@ + dec_seq(
            l.lines[idx].line as int,
        ) + " 'invalid: ("@ + ex + ")'"@
    } else {
        "end of input 'invalid: ("@ + ex + ")'"@
    }
}

/// Builds the qualified message of a parse failure.
fn error_info(locator: &Locator, p: usize) -> (r: String)
    ensures
        r@ == error_info_spec(locator@, p as int),
{
    let s = locator.buffer.as_str();
    let n = s.unicode_len();
    let pos = if p > n {
        n
    } else {
        p
    };
    let tail = n - pos;
    let idx = location(locator, tail);
    let a = scan(s, pos, CharClass::Space);
    let e = scan(s, a, CharClass::Line);
    let ex = s.substring_char(a, e);
    if idx < locator.data.lines.len() {
        proof {
            assert(locator@.lines[idx as int] == locator.data.lines@[idx as int]@);
        }
        let line = &locator.data.lines[idx];
        let mut m = line.filename.dirname.clone();
        m.append(line.filename.basename.as_str());
        m.append(":");
        let num = u32_to_dec(line.line);
        m.append(num.as_str());
        m.append(" 'invalid: (");
        m.append(ex);
        m.append(")'");
        m
    } else {
        let mut m = String::from_str("end of input 'invalid: (");
        m.append(ex);
        m.append(")'");
        m
    }
}

/// Parses the whole merged buffer into a specification: objects in source
/// encounter order, sorted into the three collections.  The first failure
/// aborts the parse and is reported with its file, line and excerpt.
#[verifier::rlimit(80)]
pub fn vss_parse_rules(locator: &Locator) -> (r: Result<VssSpec, AfbError>)
    ensures
        match r {
            Ok(spec) => parse_rules_spec(locator@, 0) == Ok::<VssSpecV, (PKind, int)>(spec@),
            Err(e) => {
                &&& parse_rules_spec(locator@, 0) matches Err(err)
                &&& e.uid_spec() == kind_uid_spec(err.0)
                &&& e.info_spec() == error_info_spec(locator@, err.1)
            },
        },
{
    let s = locator.buffer.as_str();
    let n = s.unicode_len();
    let mut vss = VssSpec { attributes: Vec::new(), sensors: Vec::new(), branches: Vec::new() };
    let mut pos: usize = 0;
    proof {
        assert(vss@.attributes =~= Seq::<VssAttributeV>::empty());
        assert(vss@.sensors =~= Seq::<VssSensorV>::empty());
        assert(vss@.branches =~= Seq::<VssBranchV>::empty());
    }
    loop
        invariant
            pos <= n,
            n == locator.buffer@.len(),
            s@ == locator.buffer@,
            match parse_rules_spec(locator@, pos as int) {
                Ok(rest) => parse_rules_spec(locator@, 0) == Ok::<VssSpecV, (PKind, int)>(
                    VssSpecV {
                        attributes: vss@.attributes + rest.attributes,
                        sensors: vss@.sensors + rest.sensors,
                        branches: vss@.branches + rest.branches,
                    },
                ),
                Err(e) => parse_rules_spec(locator@, 0) == Err::<VssSpecV, (PKind, int)>(e),
            },
        decreases n - pos,
    {
        if pos >= n {
            proof {
                match parse_rules_spec(locator@, pos as int) {
                    Ok(rest) => {
                        assert(vss@.attributes + rest.attributes =~= vss@.attributes);
                        assert(vss@.sensors + rest.sensors =~= vss@.sensors);
                        assert(vss@.branches + rest.branches =~= vss@.branches);
                    },
                    Err(_) => {},
                }
            }
            return Ok(vss);
        }
        match vss_object(locator, pos) {
            Err(e) => {
                let uid = kind_uid(e.kind);
                let info = error_info(locator, e.pos);
                return Err(AfbError::new(uid, info));
            },
            Ok((np, obj)) => {
                let ghost a0 = vss@;
                let ghost objv = obj@;
                match obj {
                    VssObject::Attribute(o) => vss.attributes.push(o),
                    VssObject::Sensor(o) => vss.sensors.push(o),
                    VssObject::Branch(o) => vss.branches.push(o),
                }
                proof {
                    match parse_rules_spec(locator@, np as int) {
                        Ok(rest) => {
                            match objv {
                                VssObjectV::Attribute(a) => {
                                    assert(vss@.attributes =~= a0.attributes + seq![a]);
                                    assert(a0.attributes + (seq![a] + rest.attributes)
                                        =~= vss@.attributes + rest.attributes);
                                },
                                VssObjectV::Sensor(a) => {
                                    assert(vss@.sensors =~= a0.sensors + seq![a]);
                                    assert(a0.sensors + (seq![a] + rest.sensors) =~= vss@.sensors
                                        + rest.sensors);
                                },
                                VssObjectV::Branch(a) => {
                                    assert(vss@.branches =~= a0.branches + seq![a]);
                                    assert(a0.branches + (seq![a] + rest.branches) =~= vss@.branches
                                        + rest.branches);
                                },
                            }
                        },
                        Err(_) => {},
                    }
                }
                pos = np;
            },
        }
    }
}

// ---------------------------------------------------------------------------
// Laws
// ---------------------------------------------------------------------------

/// The path of an object of any kind.
pub open spec fn obj_vpath(o: VssObjectV) -> Seq<char> {
    match o {
        VssObjectV::Branch(b) => b.vpath,
        VssObjectV::Sensor(x) => x.vpath,
        VssObjectV::Attribute(x) => x.vpath,
    }
}

/// Parsing is deterministic: the parse is a mathematical function of the
/// location index's view, so two parses of structurally equal inputs yield
/// structurally equal specifications.  Every successful run of
/// [`vss_parse_rules`] returns exactly `parse_rules_spec` of its input, so any
/// two runs on the same input agree.
pub proof fn lemma_parse_deterministic(l1: LocatorV, l2: LocatorV, r1: VssSpecV, r2: VssSpecV)
    requires
        l1 == l2,
        parse_rules_spec(l1, 0) == Ok::<VssSpecV, (PKind, int)>(r1),
        parse_rules_spec(l2, 0) == Ok::<VssSpecV, (PKind, int)>(r2),
    ensures
        r1 == r2,
{
}

/// Include prefixing: an object whose owning source line carries a namespace
/// prefix gets a path that begins with that prefix followed by a dot, and
/// continues with its label; an object from an unprefixed line keeps the bare
/// label as its path.
pub proof fn lemma_include_prefixing(l: LocatorV, pos: int)
    requires
        0 <= pos <= l.buffer.len(),
    ensures
        match (object_spec(l, pos), vss_label_spec(l.buffer, pos)) {
            (Ok((_, obj)), Some((start, label, _))) => {
                &&& obj_vpath(obj) == make_vpath_spec(prefix_at_spec(l, start), label)
                &&& (prefix_at_spec(l, start) matches Some(p) ==> obj_vpath(obj).subrange(
                    0,
                    p.len() + 1 as int,
                ) == p + "."@)
                &&& (prefix_at_spec(l, start) is None ==> obj_vpath(obj) == label)
            },
            (Ok(_), None) => false,
            _ => true,
        },
{
    match vss_label_spec(l.buffer, pos) {
        Some((start, label, indent)) => {
            match object_spec(l, pos) {
                Ok((_, obj)) => {
                    match prefix_at_spec(l, start) {
                        Some(p) => {
                            reveal_strlit(".");
                            assert(obj_vpath(obj) == p + "."@ + label);
                            assert((p + "."@ + label).subrange(0, p.len() + 1 as int) =~= p + "."@);
                        },
                        None => {},
                    }
                },
                Err(_) => {},
            }
        },
        None => {},
    }
}


/// The location handle of an object of any kind.
pub open spec fn obj_location(o: VssObjectV) -> int {
    match o {
        VssObjectV::Branch(b) => b.location,
        VssObjectV::Sensor(x) => x.location,
        VssObjectV::Attribute(x) => x.location,
    }
}

/// The search for the first offset above `head` stays inside the table when
/// some entry exceeds `head`.
proof fn lemma_first_above_in_range(table: Seq<usize>, head: int, i: int)
    requires
        0 <= i < table.len(),
        table[table.len() - 1] > head,
    ensures
        first_above(table, head, i) < table.len(),
    decreases table.len() - i,
{
    if !(table[i] > head) {
        lemma_first_above_in_range(table, head, i + 1);
    }
}

/// Every object parsed out of a well-formed location index carries a
/// location handle that resolves to a line of the table.
pub proof fn lemma_object_location_valid(l: LocatorV, pos: int)
    requires
        locator_wf(l),
        0 <= pos <= l.buffer.len(),
    ensures
        match object_spec(l, pos) {
            Ok((_, obj)) => 0 <= obj_location(obj) < l.lines.len(),
            Err(_) => true,
        },
{
    lemma_label_bounds(l.buffer, pos);
    match vss_label_spec(l.buffer, pos) {
        Some((start, label, indent)) => {
            match object_spec(l, pos) {
                Ok((_, obj)) => {
                    let tail = l.buffer.len() - start;
                    assert(obj_location(obj) == location_spec(l, tail));
                    let head = if tail < l.count {
                        l.count - tail
                    } else {
                        0
                    };
                    assert(head < l.count);
                    assert(l.table[l.table.len() - 1] == line_off(l.lines, l.lines.len() - 1));
                    lemma_first_above_in_range(l.table, head, 0);
                    lemma_first_above_low(l.table, head, 0);
                },
                Err(_) => {},
            }
        },
        None => {},
    }
}

/// The search for the first offset above `head` never goes below its start.
proof fn lemma_first_above_low(table: Seq<usize>, head: int, i: int)
    requires
        0 <= i <= table.len(),
    ensures
        first_above(table, head, i) >= i,
    decreases table.len() - i,
{
    if i < table.len() && !(table[i] > head) {
        lemma_first_above_low(table, head, i + 1);
    }
}


/// A field-tag line: `p` sits right after exactly `idt` spaces opening its
/// line, and the content there reads as a word of alphanumerics followed by
/// optional spaces and a colon.
pub open spec fn tag_at(s: Seq<char>, p: int, idt: int) -> bool {
    let te = scan_class_spec(s, p, CharClass::Alnum);
    let sp = scan_class_spec(s, te, CharClass::Space);
    &&& check_indent_spec(s, p - idt, idt) == Some(p)
    &&& te > p
    &&& sp < s.len()
    &&& s[sp] == ':'
}

/// The word of a field-tag line.
pub open spec fn tag_label_at(s: Seq<char>, p: int) -> Seq<char> {
    s.subrange(p, scan_class_spec(s, p, CharClass::Alnum))
}

/// Tag authorization reports only real offenders: when the scan yields a
/// position, a field tag stands there, at exactly the block's indentation,
/// and its word lies outside the given field set.  (The converse — a clean
/// block passes — is the `None` branch of `check_auth_spec` itself, which the
/// per-kind parsers' contracts use definitionally.)
pub proof fn lemma_check_auth_sound(s: Seq<char>, i: int, idt: int, branch: bool)
    requires
        0 <= i <= s.len(),
        1 <= idt,
    ensures
        match check_auth_spec(s, i, idt, branch) {
            Some(p) => tag_at(s, p, idt) && !authorized_label_spec(tag_label_at(s, p), branch)
                && i + idt <= p,
            None => true,
        },
    decreases s.len() - i,
{
    match check_indent_spec(s, i, idt) {
        None => {},
        Some(st) => {
            lemma_scan_spec_bounds(s, i, class_pred(CharClass::Space));
            let te = scan_class_spec(s, st, CharClass::Alnum);
            lemma_scan_spec_bounds(s, st, class_pred(CharClass::Alnum));
            let sp = scan_class_spec(s, te, CharClass::Space);
            lemma_scan_spec_bounds(s, te, class_pred(CharClass::Space));
            let is_tag = te > st && sp < s.len() && s[sp] == ':';
            let e = scan_class_spec(s, st, CharClass::Line);
            lemma_scan_spec_bounds(s, st, class_pred(CharClass::Line));
            let nx = match eol_spec(s, e) {
                Some(nx) => nx,
                None => e + 1,
            };
            if is_tag && !authorized_label_spec(s.subrange(st, te), branch) {
                assert(st - idt == i);
            } else {
                lemma_check_auth_sound(s, nx, idt, branch);
            }
        },
    }
}

/// Whether the dispatched kind of an object block is the branch kind, whose
/// field set differs from the leaf kinds'.
pub open spec fn dispatched_branch(s: Seq<char>, start: int, indent: int) -> bool {
    objtype_spec(s, start, indent) == FSpec::<VssObjectType>::Found(VssObjectType::Branch)
}

/// Every unauthorized-tag failure of an object points at a real offender: a
/// line at the object's field indentation whose content is a field tag, with
/// a word outside the dispatched kind's field set.  The top-level error
/// message then resolves exactly this position through the location index,
/// so the reported line is the offending tag's source line.
pub proof fn lemma_unauthorized_tag_reported(l: LocatorV, pos: int)
    requires
        0 <= pos <= l.buffer.len(),
    ensures
        match (object_spec(l, pos), vss_label_spec(l.buffer, pos)) {
            (Err((PKind::UnauthorizedTag, p)), Some((start, _, indent))) => {
                &&& tag_at(l.buffer, p, indent)
                &&& !authorized_label_spec(
                    tag_label_at(l.buffer, p),
                    dispatched_branch(l.buffer, start, indent),
                )
                &&& start + indent <= p
            },
            (Err((PKind::UnauthorizedTag, _)), None) => false,
            _ => true,
        },
{
    lemma_label_bounds(l.buffer, pos);
    match vss_label_spec(l.buffer, pos) {
        Some((start, label, indent)) => {
            match objtype_spec(l.buffer, start, indent) {
                FSpec::Found(t) => {
                    lemma_check_auth_sound(l.buffer, start, indent, t == VssObjectType::Branch);
                },
                _ => {},
            }
        },
        None => {},
    }
}

} // verus!
