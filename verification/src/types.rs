//! Data model of the VSS specification tree: errors, source bookkeeping,
//! object and value types, the parsed objects and the location index.

use crate::scan::lower_seq;
use crate::units::VssUnit;
use vstd::prelude::*;
use vstd::string::StrSliceExecFns;
use vstd::string::StringExecFns;

verus! {

// ---------------------------------------------------------------------------
// Errors
// ---------------------------------------------------------------------------

/// A domain error: a short static identifier and a human-readable message.
#[derive(Debug, Clone)]
pub struct AfbError {
    uid: &'static str,
    info: String,
}

impl AfbError {
    /// The identifier of the error.
    pub closed spec fn uid_spec(&self) -> Seq<char> {
        self.uid@
    }

    /// The message of the error.
    pub closed spec fn info_spec(&self) -> Seq<char> {
        self.info@
    }

    pub fn new(uid: &'static str, info: String) -> (r: Self)
        ensures
            r.uid_spec() == uid@,
            r.info_spec() == info@,
    {
        AfbError { uid, info }
    }

    pub fn get_info(&self) -> (r: String)
        ensures
            r@ == self.info_spec(),
    {
        self.info.clone()
    }

    pub fn get_uid(&self) -> (r: &'static str)
        ensures
            r@ == self.uid_spec(),
    {
        self.uid
    }

    pub fn to_str(&self) -> (r: &'static str)
        ensures
            r@ == "uid:"@ + self.uid_spec() + " info:"@ + self.info_spec(),
    {
        let mut text = String::from_str("uid:");
        text.append(self.uid);
        text.append(" info:");
        text.append(self.info.as_str());
        to_static_str(text)
    }
}

/// Relies on `String::into_boxed_str` and `Box::leak` to turn an owned string
/// into one with static lifetime; the text is unchanged.
#[verifier::external_body]
pub fn to_static_str(value: String) -> (r: &'static str)
    ensures
        r@ == value@,
{
    Box::leak(value.into_boxed_str())
}

// ---------------------------------------------------------------------------
// Source files and lines
// ---------------------------------------------------------------------------

/// Ghost model of a source file name.
pub ghost struct FilenameV {
    pub basename: Seq<char>,
    pub dirname: Seq<char>,
    pub prefix: Option<Seq<char>>,
}

/// A source file: directory, base name and the namespace prefix attached by
/// the include directive that brought the file in, if any.
pub struct Filename {
    pub basename: String,
    pub dirname: String,
    pub prefix: Option<String>,
}

impl View for Filename {
    type V = FilenameV;

    open spec fn view(&self) -> FilenameV {
        FilenameV {
            basename: self.basename@,
            dirname: self.dirname@,
            prefix: match self.prefix {
                Some(p) => Some(p@),
                None => None,
            },
        }
    }
}

/// Copies a file name field by field.
pub fn clone_filename(f: &Filename) -> (r: Filename)
    ensures
        r@ == f@,
{
    Filename {
        basename: f.basename.clone(),
        dirname: f.dirname.clone(),
        prefix: match &f.prefix {
            Some(p) => Some(p.clone()),
            None => None,
        },
    }
}

/// Ghost model of one retained data line.
pub ghost struct VssLineV {
    pub line: u32,
    pub filename: FilenameV,
    pub text: Seq<char>,
}

/// One retained data line: its physical line number within its own file, the
/// file it came from, and its raw text.
pub struct VssLine {
    pub line: u32,
    pub filename: Filename,
    pub text: String,
}

impl View for VssLine {
    type V = VssLineV;

    open spec fn view(&self) -> VssLineV {
        VssLineV { line: self.line, filename: self.filename@, text: self.text@ }
    }
}

/// The growing table of retained data lines across the whole include tree.
pub struct VssData {
    pub lines: Vec<VssLine>,
}

impl View for VssData {
    type V = Seq<VssLineV>;

    open spec fn view(&self) -> Seq<VssLineV> {
        self.lines@.map_values(|l: VssLine| l@)
    }
}

/// An include directive: the file to bring in and an optional namespace
/// prefix for the objects it defines.
#[derive(Debug, PartialEq)]
pub struct VssInclude {
    pub filename: String,
    pub prefix: Option<String>,
}

/// Classification of one physical input line.
#[derive(Debug)]
pub enum VssType {
    Comment(String),
    Include(VssInclude),
    Data(String),
    Empty(),
    Eof(),
}

/// Ghost model of the name computation of [`VssHandle::new`].
pub open spec fn make_filename_spec(
    filename: Seq<char>,
    dirname: Option<Seq<char>>,
    prefix: Option<Seq<char>>,
) -> FilenameV {
    let dn = if filename.len() > 0 && filename[0] == '/' {
        None
    } else {
        dirname
    };
    let k = rfind_slash(filename, filename.len() as int);
    let basename = match k {
        Some(k) => filename.subrange(k + 1, filename.len() as int),
        None => filename,
    };
    let joined = match k {
        Some(k) => filename.subrange(0, k),
        None => Seq::<char>::empty(),
    };
    let dirout = match dn {
        Some(d) => d + "/"@ + joined + "/"@,
        None => match k {
            Some(_) => joined + "/"@,
            None => "./"@,
        },
    };
    FilenameV { basename, dirname: dirout, prefix }
}

/// Position of the last slash strictly before position `i`, if any.
pub open spec fn rfind_slash(s: Seq<char>, i: int) -> Option<int>
    decreases i,
{
    if i <= 0 || i > s.len() {
        None
    } else if s[i - 1] == '/' {
        Some(i - 1)
    } else {
        rfind_slash(s, i - 1)
    }
}

proof fn lemma_rfind_slash_at(s: Seq<char>, i: int, k: int)
    requires
        0 <= k < i <= s.len(),
        s[k] == '/',
        forall|x: int| k < x < i ==> s[x] != '/',
    ensures
        rfind_slash(s, i) == Some(k),
    decreases i,
{
    if i - 1 > k {
        lemma_rfind_slash_at(s, i - 1, k);
    }
}

proof fn lemma_rfind_slash_none(s: Seq<char>, i: int)
    requires
        0 <= i <= s.len(),
        forall|x: int| 0 <= x < i ==> s[x] != '/',
    ensures
        rfind_slash(s, i) is None,
    decreases i,
{
    if i > 0 {
        lemma_rfind_slash_none(s, i - 1);
    }
}

/// The handle a load starts from: the resolved file name and the line table
/// the load fills.  A relative path is resolved against `dirname`; an
/// absolute path ignores it.
pub struct VssHandle {
    pub count: u32,
    pub filename: Filename,
    pub data: VssData,
}

impl VssHandle {
    pub fn new(filename: String, dirname: Option<String>, prefix: Option<String>) -> (r: Self)
        ensures
            r.filename@ == make_filename_spec(
                filename@,
                match dirname {
                    Some(d) => Some(d@),
                    None => None,
                },
                match prefix {
                    Some(p) => Some(p@),
                    None => None,
                },
            ),
            r.count == 0,
            r.data@ == Seq::<VssLineV>::empty(),
    {
        let f = make_filename(filename, dirname, prefix);
        VssHandle { count: 0, filename: f, data: VssData { lines: Vec::new() } }
    }
}

/// Splits a path into directory and base name and resolves it against an
/// optional current directory, as [`make_filename_spec`] states.
pub fn make_filename(filename: String, dirname: Option<String>, prefix: Option<String>) -> (r:
    Filename)
    ensures
        r@ == make_filename_spec(
            filename@,
            match dirname {
                Some(d) => Some(d@),
                None => None,
            },
            match prefix {
                Some(p) => Some(p@),
                None => None,
            },
        ),
{
    let fs = filename.as_str();
    let n = fs.unicode_len();
    let absolute = n > 0 && fs.get_char(0) == '/';
    let dn = if absolute {
        None
    } else {
        dirname
    };
    // remember the last slash seen in a forward scan
    let mut j: usize = 0;
    let mut slash: Option<usize> = None;
    while j < n
        invariant
            0 <= j <= n,
            n == filename@.len(),
            fs@ == filename@,
            match slash {
                Some(k) => 0 <= k < j && filename@[k as int] == '/' && (forall|x: int|
                    k < x < j ==> filename@[x] != '/'),
                None => forall|x: int| 0 <= x < j ==> filename@[x] != '/',
            },
        decreases n - j,
    {
        if fs.get_char(j) == '/' {
            slash = Some(j);
        }
        j += 1;
    }
    proof {
        match slash {
            Some(k) => lemma_rfind_slash_at(filename@, n as int, k as int),
            None => lemma_rfind_slash_none(filename@, n as int),
        }
    }
    let basename = match slash {
        Some(k) => fs.substring_char(k + 1, n).to_owned(),
        None => filename.clone(),
    };
    let dirout = match dn {
        Some(d) => {
            let mut out = d;
            out.append("/");
            match slash {
                Some(k) => out.append(fs.substring_char(0, k)),
                None => (),
            }
            out.append("/");
            out
        },
        None => match slash {
            Some(k) => {
                let mut out = fs.substring_char(0, k).to_owned();
                out.append("/");
                out
            },
            None => String::from_str("./"),
        },
    };
    Filename { basename, dirname: dirout, prefix }
}

// ---------------------------------------------------------------------------
// Object and value types
// ---------------------------------------------------------------------------

/// The kind of a parsed object.
#[derive(PartialEq, Eq, Structural, Debug, Clone, Copy)]
pub enum VssObjectType {
    Branch,
    Sensor,
    Actuator,
    Attribute,
    Unset,
}

/// Canonical rendering of an object type; `Unset` renders as an attribute.
pub open spec fn object_type_to_str_spec(t: VssObjectType) -> Seq<char> {
    match t {
        VssObjectType::Branch => "branch"@,
        VssObjectType::Sensor => "sensor"@,
        VssObjectType::Actuator => "actuator"@,
        VssObjectType::Attribute => "attribute"@,
        VssObjectType::Unset => "attribute"@,
    }
}

/// Case-insensitive recognition of an object type token; never yields `Unset`.
pub open spec fn object_type_from_str_spec(s: Seq<char>) -> Option<VssObjectType> {
    let t = lower_seq(s);
    if t == lower_seq("branch"@) {
        Some(VssObjectType::Branch)
    } else if t == lower_seq("sensor"@) {
        Some(VssObjectType::Sensor)
    } else if t == lower_seq("actuator"@) {
        Some(VssObjectType::Actuator)
    } else if t == lower_seq("attribute"@) {
        Some(VssObjectType::Attribute)
    } else {
        None
    }
}

impl VssObjectType {
    /// Parses an object type token, ignoring ASCII case.
    pub fn from_str(value: &str) -> (r: Result<Self, AfbError>)
        ensures
            match r {
                Ok(t) => object_type_from_str_spec(value@) == Some(t),
                Err(e) => object_type_from_str_spec(value@) is None && e.uid_spec()
                    == "vss-objtype-invalid"@ && e.info_spec() == "label:"@ + value@
                    + " is not a vss object type"@,
            },
    {
        if crate::scan::str_eq_lower(value, "branch") {
            Ok(VssObjectType::Branch)
        } else if crate::scan::str_eq_lower(value, "sensor") {
            Ok(VssObjectType::Sensor)
        } else if crate::scan::str_eq_lower(value, "actuator") {
            Ok(VssObjectType::Actuator)
        } else if crate::scan::str_eq_lower(value, "attribute") {
            Ok(VssObjectType::Attribute)
        } else {
            let mut info = String::from_str("label:");
            info.append(value);
            info.append(" is not a vss object type");
            Err(AfbError::new("vss-objtype-invalid", info))
        }
    }

    /// Canonical rendering of the object type.
    pub fn to_str(&self) -> (r: &'static str)
        ensures
            r@ == object_type_to_str_spec(*self),
    {
        match self {
            VssObjectType::Branch => "branch",
            VssObjectType::Sensor => "sensor",
            VssObjectType::Actuator => "actuator",
            VssObjectType::Attribute => "attribute",
            VssObjectType::Unset => "attribute",
        }
    }
}

/// The primitive type of a signal's value.
#[derive(PartialEq, Eq, Structural, Debug, Clone, Copy)]
pub enum VssValueType {
    Uint8,
    Int8,
    Uint16,
    Int16,
    Uint32,
    Int32,
    Uint64,
    Int64,
    Boolean,
    Float,
    Double,
    String,
    Unset,
}

/// Canonical rendering of a value type.
pub open spec fn value_type_to_str_spec(t: VssValueType) -> Seq<char> {
    match t {
        VssValueType::Uint8 => "uint8"@,
        VssValueType::Int8 => "int8"@,
        VssValueType::Uint16 => "uint16"@,
        VssValueType::Int16 => "int16"@,
        VssValueType::Uint32 => "uint32"@,
        VssValueType::Int32 => "int32"@,
        VssValueType::Uint64 => "uint64"@,
        VssValueType::Int64 => "int64"@,
        VssValueType::Boolean => "boolean"@,
        VssValueType::Float => "float"@,
        VssValueType::Double => "double"@,
        VssValueType::String => "string"@,
        VssValueType::Unset => "unset"@,
    }
}

/// Case-insensitive recognition of a value type token; never yields `Unset`.
pub open spec fn value_type_from_str_spec(s: Seq<char>) -> Option<VssValueType> {
    let t = lower_seq(s);
    if t == lower_seq("uint8"@) {
        Some(VssValueType::Uint8)
    } else if t == lower_seq("int8"@) {
        Some(VssValueType::Int8)
    } else if t == lower_seq("uint16"@) {
        Some(VssValueType::Uint16)
    } else if t == lower_seq("int16"@) {
        Some(VssValueType::Int16)
    } else if t == lower_seq("uint32"@) {
        Some(VssValueType::Uint32)
    } else if t == lower_seq("int32"@) {
        Some(VssValueType::Int32)
    } else if t == lower_seq("uint64"@) {
        Some(VssValueType::Uint64)
    } else if t == lower_seq("int64"@) {
        Some(VssValueType::Int64)
    } else if t == lower_seq("boolean"@) {
        Some(VssValueType::Boolean)
    } else if t == lower_seq("float"@) {
        Some(VssValueType::Float)
    } else if t == lower_seq("double"@) {
        Some(VssValueType::Double)
    } else if t == lower_seq("string"@) {
        Some(VssValueType::String)
    } else {
        None
    }
}

impl VssValueType {
    /// Canonical rendering of the value type.
    pub fn to_str(&self) -> (r: &'static str)
        ensures
            r@ == value_type_to_str_spec(*self),
    {
        match self {
            VssValueType::Uint8 => "uint8",
            VssValueType::Int8 => "int8",
            VssValueType::Uint16 => "uint16",
            VssValueType::Int16 => "int16",
            VssValueType::Uint32 => "uint32",
            VssValueType::Int32 => "int32",
            VssValueType::Uint64 => "uint64",
            VssValueType::Int64 => "int64",
            VssValueType::Boolean => "boolean",
            VssValueType::Float => "float",
            VssValueType::Double => "double",
            VssValueType::String => "string",
            VssValueType::Unset => "unset",
        }
    }

    /// Parses a value type token, ignoring ASCII case.
    pub fn from_str(value: &str) -> (r: Result<Self, AfbError>)
        ensures
            match r {
                Ok(t) => value_type_from_str_spec(value@) == Some(t),
                Err(e) => value_type_from_str_spec(value@) is None && e.uid_spec()
                    == "vss-datatype-invalid"@ && e.info_spec() == "label:"@ + value@
                    + " is not a vss data type"@,
            },
    {
        if crate::scan::str_eq_lower(value, "uint8") {
            Ok(VssValueType::Uint8)
        } else if crate::scan::str_eq_lower(value, "int8") {
            Ok(VssValueType::Int8)
        } else if crate::scan::str_eq_lower(value, "uint16") {
            Ok(VssValueType::Uint16)
        } else if crate::scan::str_eq_lower(value, "int16") {
            Ok(VssValueType::Int16)
        } else if crate::scan::str_eq_lower(value, "uint32") {
            Ok(VssValueType::Uint32)
        } else if crate::scan::str_eq_lower(value, "int32") {
            Ok(VssValueType::Int32)
        } else if crate::scan::str_eq_lower(value, "uint64") {
            Ok(VssValueType::Uint64)
        } else if crate::scan::str_eq_lower(value, "int64") {
            Ok(VssValueType::Int64)
        } else if crate::scan::str_eq_lower(value, "boolean") {
            Ok(VssValueType::Boolean)
        } else if crate::scan::str_eq_lower(value, "float") {
            Ok(VssValueType::Float)
        } else if crate::scan::str_eq_lower(value, "double") {
            Ok(VssValueType::Double)
        } else if crate::scan::str_eq_lower(value, "string") {
            Ok(VssValueType::String)
        } else {
            let mut info = String::from_str("label:");
            info.append(value);
            info.append(" is not a vss data type");
            Err(AfbError::new("vss-datatype-invalid", info))
        }
    }
}


// ---------------------------------------------------------------------------
// Parsed objects
// ---------------------------------------------------------------------------

/// A resolved value type together with an array marker.
pub struct VssDataType {
    pub is_type: VssValueType,
    pub is_array: bool,
}

/// One extracted field of an object block.
pub enum VssElement {
    DataType(VssDataType),
    ObjType(VssObjectType),
    ObjUnit(VssUnit),
    ObjDescription(String),
    ObjComment(String),
    ObjAggregate(bool),
    ObjInstances(Vec<VssInstance>),
    DataAllowed(Vec<String>),
    DataDefault(Vec<String>),
    DataMinVal(i64),
    DataMaxVal(i64),
    DataArraySz(usize),
}

/// Ghost model of an instance template.
pub ghost struct VssInstanceV {
    pub prefix: Option<Seq<char>>,
    pub array: Seq<Seq<char>>,
}

/// One instance template of a branch: an optional prefix token and an ordered
/// list of tokens.
#[derive(Debug, PartialEq)]
pub struct VssInstance {
    pub prefix: Option<String>,
    pub array: Vec<String>,
}

/// View of an ordered list of strings.
pub open spec fn strings_view(v: Seq<String>) -> Seq<Seq<char>> {
    v.map_values(|s: String| s@)
}

/// View of an optional string.
pub open spec fn opt_string_view(v: Option<String>) -> Option<Seq<char>> {
    match v {
        Some(s) => Some(s@),
        None => None,
    }
}

impl View for VssInstance {
    type V = VssInstanceV;

    open spec fn view(&self) -> VssInstanceV {
        VssInstanceV { prefix: opt_string_view(self.prefix), array: strings_view(self.array@) }
    }
}

/// View of an ordered list of instance templates.
pub open spec fn instances_view(v: Seq<VssInstance>) -> Seq<VssInstanceV> {
    v.map_values(|i: VssInstance| i@)
}

/// Ghost model of a branch.
pub ghost struct VssBranchV {
    pub vpath: Seq<char>,
    pub vtype: VssObjectType,
    pub description: Option<Seq<char>>,
    pub comment: Option<Seq<char>>,
    pub location: int,
    pub instances: Seq<VssInstanceV>,
    pub aggregate: bool,
}

/// A non-leaf grouping node.
#[derive(Debug, PartialEq)]
pub struct VssBranch {
    pub vpath: String,
    pub vtype: VssObjectType,
    pub description: Option<String>,
    pub comment: Option<String>,
    pub location: usize,
    pub instances: Vec<VssInstance>,
    pub aggregate: bool,
}

impl View for VssBranch {
    type V = VssBranchV;

    open spec fn view(&self) -> VssBranchV {
        VssBranchV {
            vpath: self.vpath@,
            vtype: self.vtype,
            description: opt_string_view(self.description),
            comment: opt_string_view(self.comment),
            location: self.location as int,
            instances: instances_view(self.instances@),
            aggregate: self.aggregate,
        }
    }
}

/// Ghost model of a sensor or actuator.
pub ghost struct VssSensorV {
    pub vpath: Seq<char>,
    pub vtype: VssObjectType,
    pub description: Option<Seq<char>>,
    pub comment: Option<Seq<char>>,
    pub min: Option<i64>,
    pub max: Option<i64>,
    pub datatype: VssValueType,
    pub arraysize: Option<usize>,
    pub default: Seq<Seq<char>>,
    pub allowed: Seq<Seq<char>>,
    pub location: int,
    pub unit: VssUnit,
}

/// A leaf node with a typed value, physical unit and optional bounds; used
/// for sensors and actuators alike.
#[derive(Debug, PartialEq)]
pub struct VssSensor {
    pub vpath: String,
    pub vtype: VssObjectType,
    pub description: Option<String>,
    pub comment: Option<String>,
    pub min: Option<i64>,
    pub max: Option<i64>,
    pub datatype: VssValueType,
    pub arraysize: Option<usize>,
    pub default: Vec<String>,
    pub allowed: Vec<String>,
    pub location: usize,
    pub unit: VssUnit,
}

impl View for VssSensor {
    type V = VssSensorV;

    open spec fn view(&self) -> VssSensorV {
        VssSensorV {
            vpath: self.vpath@,
            vtype: self.vtype,
            description: opt_string_view(self.description),
            comment: opt_string_view(self.comment),
            min: self.min,
            max: self.max,
            datatype: self.datatype,
            arraysize: self.arraysize,
            default: strings_view(self.default@),
            allowed: strings_view(self.allowed@),
            location: self.location as int,
            unit: self.unit,
        }
    }
}

/// Ghost model of an attribute.
pub ghost struct VssAttributeV {
    pub vpath: Seq<char>,
    pub vtype: VssObjectType,
    pub description: Option<Seq<char>>,
    pub comment: Option<Seq<char>>,
    pub location: int,
    pub datatype: VssValueType,
    pub arraysize: Option<usize>,
    pub default: Seq<Seq<char>>,
    pub allowed: Seq<Seq<char>>,
    pub unit: VssUnit,
}

/// A leaf node for static metadata; like a sensor but without bounds.
#[derive(Debug, PartialEq)]
pub struct VssAttribute {
    pub vpath: String,
    pub vtype: VssObjectType,
    pub description: Option<String>,
    pub comment: Option<String>,
    pub location: usize,
    pub datatype: VssValueType,
    pub arraysize: Option<usize>,
    pub default: Vec<String>,
    pub allowed: Vec<String>,
    pub unit: VssUnit,
}

impl View for VssAttribute {
    type V = VssAttributeV;

    open spec fn view(&self) -> VssAttributeV {
        VssAttributeV {
            vpath: self.vpath@,
            vtype: self.vtype,
            description: opt_string_view(self.description),
            comment: opt_string_view(self.comment),
            location: self.location as int,
            datatype: self.datatype,
            arraysize: self.arraysize,
            default: strings_view(self.default@),
            allowed: strings_view(self.allowed@),
            unit: self.unit,
        }
    }
}

/// A parsed object of any kind.
#[derive(Debug, PartialEq)]
pub enum VssObject {
    Branch(VssBranch),
    Sensor(VssSensor),
    Attribute(VssAttribute),
}

/// Ghost model of the whole parsed specification.
pub ghost struct VssSpecV {
    pub attributes: Seq<VssAttributeV>,
    pub sensors: Seq<VssSensorV>,
    pub branches: Seq<VssBranchV>,
}

/// The parsed specification: three ordered collections, in source encounter
/// order.
#[derive(Debug)]
pub struct VssSpec {
    pub attributes: Vec<VssAttribute>,
    pub sensors: Vec<VssSensor>,
    pub branches: Vec<VssBranch>,
}

impl View for VssSpec {
    type V = VssSpecV;

    open spec fn view(&self) -> VssSpecV {
        VssSpecV {
            attributes: self.attributes@.map_values(|a: VssAttribute| a@),
            sensors: self.sensors@.map_values(|s: VssSensor| s@),
            branches: self.branches@.map_values(|b: VssBranch| b@),
        }
    }
}

// ---------------------------------------------------------------------------
// The location index
// ---------------------------------------------------------------------------

/// Ghost model of the location index.
pub ghost struct LocatorV {
    pub table: Seq<usize>,
    pub buffer: Seq<char>,
    pub count: int,
    pub lines: Seq<VssLineV>,
}

/// The location index: the merged buffer of all retained lines, the
/// cumulative character count at each line boundary, and the line table the
/// offsets refer to.
pub struct Locator {
    pub table: Vec<usize>,
    pub buffer: String,
    pub count: usize,
    pub data: VssData,
}

impl View for Locator {
    type V = LocatorV;

    open spec fn view(&self) -> LocatorV {
        LocatorV {
            table: self.table@,
            buffer: self.buffer@,
            count: self.count as int,
            lines: self.data@,
        }
    }
}

/// Characters taken by lines `0..=i`, each line costing its length plus one
/// for the terminator.
pub open spec fn line_off(lines: Seq<VssLineV>, i: int) -> int
    decreases i + 1,
{
    if i < 0 {
        0
    } else {
        line_off(lines, i - 1) + lines[i].text.len() + 1
    }
}

/// All retained lines joined, each followed by one newline.
pub open spec fn join_lines(lines: Seq<VssLineV>) -> Seq<char>
    decreases lines.len(),
{
    if lines.len() == 0 {
        Seq::<char>::empty()
    } else {
        join_lines(lines.drop_last()) + lines.last().text + "\n"@
    }
}

/// A well-formed location index: table and lines correspond, the offsets are
/// the cumulative line lengths, and the buffer is the joined text.
pub open spec fn locator_wf(l: LocatorV) -> bool {
    &&& l.table.len() == l.lines.len()
    &&& (forall|i: int| 0 <= i < l.lines.len() ==> l.table[i] == line_off(l.lines, i))
    &&& l.count == line_off(l.lines, l.lines.len() - 1)
    &&& l.buffer == join_lines(l.lines)
    &&& l.buffer.len() == l.count
}

/// Index of the first table entry that exceeds `head`, or the table length
/// when none does.
pub open spec fn first_above(table: Seq<usize>, head: int, i: int) -> int
    decreases table.len() - i,
{
    if i < 0 || i >= table.len() {
        table.len() as int
    } else if table[i] > head {
        i
    } else {
        first_above(table, head, i + 1)
    }
}

/// The line a residual position falls on: with `head` characters consumed in
/// front of the residual text, the first line whose cumulative offset exceeds
/// `head`; when no line does, the last index.
pub open spec fn location_spec(l: LocatorV, tail: int) -> int {
    let head = if tail < l.count {
        l.count - tail
    } else {
        0
    };
    let r = first_above(l.table, head, 0);
    if r == l.table.len() && l.table.len() > 0 {
        l.table.len() - 1
    } else {
        r
    }
}

/// Maps a residual length in the merged buffer back to the index of the line
/// it falls on; when the consumed length lies past every offset, the last
/// line.
pub fn location(locator: &Locator, tail: usize) -> (r: usize)
    ensures
        r == location_spec(locator@, tail as int),
        r <= locator.table@.len(),
        locator.table@.len() > 0 ==> r < locator.table@.len(),
{
    let head = if tail < locator.count {
        locator.count - tail
    } else {
        0
    };
    let n = locator.table.len();
    let mut idx: usize = 0;
    while idx < n
        invariant
            0 <= idx <= n,
            n == locator.table@.len(),
            head as int == (if tail < locator@.count {
                locator@.count - tail
            } else {
                0
            }),
            first_above(locator.table@, head as int, 0) == first_above(
                locator.table@,
                head as int,
                idx as int,
            ),
        decreases n - idx,
    {
        if locator.table[idx] > head {
            assert(first_above(locator.table@, head as int, idx as int) == idx);
            return idx;
        }
        idx += 1;
    }
    assert(first_above(locator.table@, head as int, n as int) == n);
    if n > 0 {
        n - 1
    } else {
        n
    }
}

impl Locator {
    /// Builds the location index from the line table a load produced: joins
    /// the retained lines into one buffer and records the cumulative length
    /// at each boundary.  Fails only when the merged text would not fit in
    /// memory.
    pub fn new(vss: VssHandle) -> (r: Result<Self, AfbError>)
        ensures
            match r {
                Ok(l) => locator_wf(l@) && l@.lines == vss.data@,
                Err(e) => line_off(vss.data@, vss.data@.len() - 1) > usize::MAX && e.uid_spec()
                    == "vss-locator-overflow"@,
            },
    {
        let n = vss.data.lines.len();
        let mut table: Vec<usize> = Vec::new();
        let mut buffer = String::new();
        let mut count: usize = 0;
        let mut idx: usize = 0;
        while idx < n
            invariant
                0 <= idx <= n,
                n == vss.data@.len(),
                n == vss.data.lines@.len(),
                vss.data@ == vss.data.lines@.map_values(|l: VssLine| l@),
                table@.len() == idx,
                forall|i: int| 0 <= i < idx ==> table@[i] == line_off(vss.data@, i),
                count as int == line_off(vss.data@, idx as int - 1),
                buffer@ == join_lines(vss.data@.take(idx as int)),
                buffer@.len() == count,
            decreases n - idx,
        {
            let line = vss.data.lines[idx].text.as_str();
            let len = line.unicode_len();
            proof {
                assert(vss.data@[idx as int] == vss.data.lines@[idx as int]@);
                assert(line@ == vss.data@[idx as int].text);
            }
            if len >= usize::MAX - count {
                proof {
                    assert(line_off(vss.data@, idx as int) > usize::MAX);
                    lemma_line_off_grows(vss.data@, idx as int, vss.data@.len() - 1);
                }
                return Err(
                    AfbError::new("vss-locator-overflow", String::from_str("input too large")),
                );
            }
            count = count + len + 1;
            table.push(count);
            buffer.append(line);
            buffer.append("\n");
            proof {
                assert(vss.data@[idx as int] == vss.data.lines@[idx as int]@);
                assert(vss.data@.take(idx as int + 1).drop_last() =~= vss.data@.take(idx as int));
                assert(vss.data@.take(idx as int + 1).last() == vss.data@[idx as int]);
                reveal_strlit("\n");
                assert(buffer@ =~= join_lines(vss.data@.take(idx as int + 1)));
            }
            idx += 1;
        }
        proof {
            assert(vss.data@.take(n as int) =~= vss.data@);
        }
        Ok(Locator { table, buffer, count, data: vss.data })
    }
}

/// Later offsets are at least as large as earlier ones.
proof fn lemma_line_off_grows(lines: Seq<VssLineV>, i: int, j: int)
    requires
        i <= j,
    ensures
        line_off(lines, i) <= line_off(lines, j),
    decreases j - i,
{
    if i < j {
        lemma_line_off_grows(lines, i, j - 1);
    }
}

impl VssBranch {
    /// A fresh branch: path and type as given, everything else unset, located
    /// at the line the residual text starts on.
    pub fn new(locator: &Locator, input: &str, label: String, vtype: VssObjectType) -> (r:
        VssBranch)
        ensures
            r@ == (VssBranchV {
                vpath: label@,
                vtype: vtype,
                description: None,
                comment: None,
                location: location_spec(locator@, input@.len() as int),
                instances: Seq::<VssInstanceV>::empty(),
                aggregate: false,
            }),
    {
        let r = VssBranch {
            vpath: label,
            vtype,
            description: None,
            comment: None,
            aggregate: false,
            instances: Vec::new(),
            location: location(locator, input.unicode_len()),
        };
        proof {
            assert(instances_view(r.instances@) =~= Seq::<VssInstanceV>::empty());
        }
        r
    }
}

impl VssSensor {
    /// A fresh sensor or actuator: path and type as given, everything else
    /// unset, located at the line the residual text starts on.
    pub fn new(locator: &Locator, input: &str, label: String, vtype: VssObjectType) -> (r:
        VssSensor)
        ensures
            r@ == (VssSensorV {
                vpath: label@,
                vtype: vtype,
                description: None,
                comment: None,
                min: None,
                max: None,
                datatype: VssValueType::Unset,
                arraysize: None,
                default: Seq::<Seq<char>>::empty(),
                allowed: Seq::<Seq<char>>::empty(),
                location: location_spec(locator@, input@.len() as int),
                unit: VssUnit::Unset,
            }),
    {
        let r = VssSensor {
            vpath: label,
            vtype,
            description: None,
            comment: None,
            default: Vec::new(),
            allowed: Vec::new(),
            datatype: VssValueType::Unset,
            unit: VssUnit::Unset,
            min: None,
            max: None,
            arraysize: None,
            location: location(locator, input.unicode_len()),
        };
        proof {
            assert(strings_view(r.default@) =~= Seq::<Seq<char>>::empty());
        }
        r
    }
}

impl VssAttribute {
    /// A fresh attribute: path and type as given, everything else unset,
    /// located at the line the residual text starts on.
    pub fn new(locator: &Locator, input: &str, label: String, vtype: VssObjectType) -> (r:
        VssAttribute)
        ensures
            r@ == (VssAttributeV {
                vpath: label@,
                vtype: vtype,
                description: None,
                comment: None,
                location: location_spec(locator@, input@.len() as int),
                datatype: VssValueType::Unset,
                arraysize: None,
                default: Seq::<Seq<char>>::empty(),
                allowed: Seq::<Seq<char>>::empty(),
                unit: VssUnit::Unset,
            }),
    {
        let r = VssAttribute {
            vpath: label,
            vtype,
            description: None,
            comment: None,
            datatype: VssValueType::Unset,
            default: Vec::new(),
            allowed: Vec::new(),
            arraysize: None,
            unit: VssUnit::Unset,
            location: location(locator, input.unicode_len()),
        };
        proof {
            assert(strings_view(r.default@) =~= Seq::<Seq<char>>::empty());
        }
        r
    }
}

} // verus!
