//! The source loader and include resolver.
//!
//! Loading is driven from outside as a step machine: the loader asks for file
//! contents by full path and is handed the raw text; everything else — line
//! classification, include resolution with namespace prefixing, cycle
//! detection and line numbering — happens here and is verified against the
//! recursive specification [`step_spec`].  Only data lines are retained;
//! comment and empty lines are dropped, while still counting for the physical
//! line numbers.

use crate::scan::class_pred;
use crate::scan::has_tag;
use crate::scan::has_tag_spec;
use crate::scan::lemma_scan_spec_bounds;
use crate::scan::scan;
use crate::scan::scan_class_spec;
use crate::scan::str_eq;
use crate::scan::CharClass;
use crate::types::clone_filename;
use crate::types::make_filename;
use crate::types::make_filename_spec;
use crate::types::opt_string_view;
use crate::types::AfbError;
use crate::types::Filename;
use crate::types::FilenameV;
use crate::types::VssData;
use crate::types::VssInclude;
use crate::types::VssLine;
use crate::types::VssLineV;
use crate::types::VssType;
use vstd::pervasive::unreached;
use vstd::prelude::*;
use vstd::string::StrSliceExecFns;
use vstd::string::StringExecFns;

verus! {

// ---------------------------------------------------------------------------
// Line classification
// ---------------------------------------------------------------------------

/// Ghost classification of one physical line.
pub ghost enum LineClassV {
    /// A line with no characters.
    Empty,
    /// A comment line: optional spaces, then a hash that does not open a
    /// well-formed include directive.
    Comment,
    /// An include directive: the file path and an optional namespace prefix.
    Include(Seq<char>, Option<Seq<char>>),
    /// Any other line; only these are retained.
    Data,
    /// A line that opens an include directive but does not follow its
    /// grammar: an empty path, or trailing content after the prefix.
    BadInclude,
}

/// Classifies one physical line: empty, comment, include directive or data.
pub open spec fn classify_spec(t: Seq<char>) -> LineClassV {
    if t.len() == 0 {
        LineClassV::Empty
    } else {
        let a = scan_class_spec(t, 0, CharClass::Space);
        if has_tag_spec(t, a, "#include"@) && scan_class_spec(t, a + 8, CharClass::Space) > a + 8 {
            let c = scan_class_spec(t, a + 8, CharClass::Space);
            let d = scan_class_spec(t, c, CharClass::Pathname);
            if d == c {
                LineClassV::BadInclude
            } else {
                let e = scan_class_spec(t, d, CharClass::Space);
                let f = scan_class_spec(t, e, CharClass::Pathname);
                let g = scan_class_spec(t, f, CharClass::Space);
                if g != t.len() {
                    LineClassV::BadInclude
                } else if f > e {
                    LineClassV::Include(t.subrange(c, d), Some(t.subrange(e, f)))
                } else {
                    LineClassV::Include(t.subrange(c, d), None)
                }
            }
        } else if a < t.len() && t[a] == '#' {
            LineClassV::Comment
        } else {
            LineClassV::Data
        }
    }
}

/// Relates an executable classification to its ghost counterpart.  A
/// malformed include reports a syntax error carrying the line.
pub open spec fn classify_ok(r: Result<VssType, AfbError>, m: LineClassV, t: Seq<char>) -> bool {
    match r {
        Ok(VssType::Empty()) => m is Empty,
        Ok(VssType::Comment(c)) => m is Comment && c@ == t,
        Ok(VssType::Data(d)) => m is Data && d@ == t,
        Ok(VssType::Include(inc)) => m == LineClassV::Include(
            inc.filename@,
            opt_string_view(inc.prefix),
        ),
        Ok(VssType::Eof()) => false,
        Err(e) => m is BadInclude && e.uid_spec() == "vss-include-syntax"@,
    }
}

/// Classifies one physical line of input.
pub fn classify_line(t: &str) -> (r: Result<VssType, AfbError>)
    ensures
        classify_ok(r, classify_spec(t@), t@),
{
    let n = t.unicode_len();
    if n == 0 {
        return Ok(VssType::Empty());
    }
    let a = scan(t, 0, CharClass::Space);
    if has_tag(t, a, "#include") {
        proof {
            reveal_strlit("#include");
        }
        let c = scan(t, a + 8, CharClass::Space);
        if c > a + 8 {
            let d = scan(t, c, CharClass::Pathname);
            if d == c {
                return Err(
                    AfbError::new("vss-include-syntax", String::from_str("missing include path")),
                );
            }
            let e = scan(t, d, CharClass::Space);
            let f = scan(t, e, CharClass::Pathname);
            let g = scan(t, f, CharClass::Space);
            if g != n {
                return Err(
                    AfbError::new(
                        "vss-include-syntax",
                        String::from_str("unexpected content after include"),
                    ),
                );
            }
            let prefix: Option<String> = if f > e {
                Some(t.substring_char(e, f).to_owned())
            } else {
                None
            };
            return Ok(
                VssType::Include(VssInclude { filename: t.substring_char(c, d).to_owned(), prefix }),
            );
        }
    }
    if a < n && t.get_char(a) == '#' {
        Ok(VssType::Comment(t.to_owned()))
    } else {
        Ok(VssType::Data(t.to_owned()))
    }
}

// ---------------------------------------------------------------------------
// Splitting text into physical lines
// ---------------------------------------------------------------------------

/// The physical lines of a text from position `i`: segments between newline
/// characters, the final segment with or without a terminator, none after a
/// trailing terminator.
pub open spec fn split_from(t: Seq<char>, i: int) -> Seq<Seq<char>>
    decreases t.len() - i,
    when 0 <= i <= t.len()
{
    if i >= t.len() {
        Seq::<Seq<char>>::empty()
    } else {
        let e = scan_class_spec(t, i, CharClass::NotNl);
        proof {
            lemma_scan_spec_bounds(t, i, class_pred(CharClass::NotNl));
        }
        if e >= t.len() {
            seq![t.subrange(i, t.len() as int)]
        } else {
            seq![t.subrange(i, e)] + split_from(t, e + 1)
        }
    }
}

/// Splits a text into its physical lines.
pub fn split_lines(t: &str) -> (r: Vec<String>)
    ensures
        crate::types::strings_view(r@) == split_from(t@, 0),
{
    let n = t.unicode_len();
    let mut acc: Vec<String> = Vec::new();
    let mut cur: usize = 0;
    proof {
        assert(crate::types::strings_view(acc@) =~= Seq::<Seq<char>>::empty());
    }
    loop
        invariant
            cur <= n,
            n == t@.len(),
            split_from(t@, 0) == crate::types::strings_view(acc@) + split_from(t@, cur as int),
        decreases n - cur,
    {
        if cur >= n {
            proof {
                assert(crate::types::strings_view(acc@) + split_from(t@, cur as int)
                    =~= crate::types::strings_view(acc@));
            }
            return acc;
        }
        let e = scan(t, cur, CharClass::NotNl);
        let ghost acc0 = crate::types::strings_view(acc@);
        if e >= n {
            let piece = t.substring_char(cur, n).to_owned();
            proof {
                assert(crate::types::strings_view(acc@.push(piece)) =~= acc0 + seq![piece@]);
            }
            acc.push(piece);
            proof {
                assert(acc0 + seq![t@.subrange(cur as int, n as int)] + Seq::<Seq<char>>::empty()
                    =~= crate::types::strings_view(acc@));
                assert(split_from(t@, n as int) =~= Seq::<Seq<char>>::empty());
                assert(acc0 + (seq![t@.subrange(cur as int, n as int)] + Seq::<Seq<char>>::empty())
                    =~= crate::types::strings_view(acc@) + Seq::<Seq<char>>::empty());
            }
            cur = n;
        } else {
            let piece = t.substring_char(cur, e).to_owned();
            proof {
                assert(crate::types::strings_view(acc@.push(piece)) =~= acc0 + seq![piece@]);
            }
            acc.push(piece);
            proof {
                assert(acc0 + (seq![t@.subrange(cur as int, e as int)] + split_from(t@, e + 1))
                    =~= crate::types::strings_view(acc@) + split_from(t@, e + 1));
            }
            cur = e + 1;
        }
    }
}

// ---------------------------------------------------------------------------
// The loader state machine
// ---------------------------------------------------------------------------

/// Ghost model of one in-progress file.
pub ghost struct LoadFrameV {
    pub filename: FilenameV,
    pub lines: Seq<Seq<char>>,
    pub idx: int,
}

/// One in-progress file: its resolved name, its physical lines, and how many
/// of them have been consumed.
pub struct LoadFrame {
    pub filename: Filename,
    pub lines: Vec<String>,
    pub idx: usize,
}

impl View for LoadFrame {
    type V = LoadFrameV;

    open spec fn view(&self) -> LoadFrameV {
        LoadFrameV {
            filename: self.filename@,
            lines: crate::types::strings_view(self.lines@),
            idx: self.idx as int,
        }
    }
}

/// Ghost model of the loader.
pub ghost struct VssLoaderV {
    pub frames: Seq<LoadFrameV>,
    pub lines: Seq<VssLineV>,
    pub pending: Option<FilenameV>,
    pub active: Seq<(Seq<char>, Option<Seq<char>>)>,
}

/// The loader: a stack of in-progress files, the growing table of retained
/// data lines, the file whose contents are awaited, and the set of
/// in-progress (path, prefix) pairs used for cycle detection.
pub struct VssLoader {
    pub frames: Vec<LoadFrame>,
    pub data: VssData,
    pub pending: Option<Filename>,
    pub active: Vec<(String, Option<String>)>,
}

/// View of the cycle-detection entries.
pub open spec fn active_view(v: Seq<(String, Option<String>)>) -> Seq<
    (Seq<char>, Option<Seq<char>>),
> {
    v.map_values(|p: (String, Option<String>)| (p.0@, opt_string_view(p.1)))
}

impl View for VssLoader {
    type V = VssLoaderV;

    open spec fn view(&self) -> VssLoaderV {
        VssLoaderV {
            frames: self.frames@.map_values(|f: LoadFrame| f@),
            lines: self.data@,
            pending: match self.pending {
                Some(f) => Some(f@),
                None => None,
            },
            active: active_view(self.active@),
        }
    }
}

/// The full path of a resolved file name.
pub open spec fn full_of(f: FilenameV) -> Seq<char> {
    f.dirname + f.basename
}

/// What a step of the loader yields.
pub ghost enum StepV {
    /// The loader needs the contents of the file at this full path.
    NeedFile(Seq<char>),
    /// Every file has been consumed; the line table is complete.
    Done,
    /// Loading failed; the identifier names the failure.
    Fail(Seq<char>),
}

/// What a step of the loader yields, executably.
#[derive(Debug)]
pub enum LoadStep {
    NeedFile(String),
    Done,
}

/// One observable step of the loader: lines of the top file are consumed —
/// data lines retained with their physical line number, comments and empty
/// lines dropped — until a file must be read, a failure is found, or
/// everything is consumed.  An include resolves against the including file's
/// directory and inherits its prefix unless the directive overrides it; an
/// include of a file already being loaded with the same prefix fails fast.
pub open spec fn step_spec(l: VssLoaderV) -> (VssLoaderV, StepV)
    decreases l.frames.len(), frame_rest(l),
    when loader_inv(l)
{
    if l.pending is Some {
        (l, StepV::NeedFile(full_of(l.pending.unwrap())))
    } else if l.frames.len() == 0 {
        (l, StepV::Done)
    } else {
        let top = l.frames.last();
        if top.idx >= top.lines.len() {
            let l2 = VssLoaderV {
                frames: l.frames.drop_last(),
                lines: l.lines,
                pending: None,
                active: l.active.drop_last(),
            };
            step_spec(l2)
        } else {
            let line = top.lines[top.idx];
            let l2 = VssLoaderV {
                frames: l.frames.update(
                    l.frames.len() - 1,
                    LoadFrameV { filename: top.filename, lines: top.lines, idx: top.idx + 1 },
                ),
                lines: l.lines,
                pending: None,
                active: l.active,
            };
            match classify_spec(line) {
                LineClassV::Empty => step_spec(l2),
                LineClassV::Comment => step_spec(l2),
                LineClassV::Data => {
                    if top.idx + 1 > u32::MAX {
                        (l, StepV::Fail("vss-line-overflow"@))
                    } else {
                        step_spec(
                            VssLoaderV {
                                frames: l2.frames,
                                lines: l.lines.push(
                                    VssLineV {
                                        line: (top.idx + 1) as u32,
                                        filename: top.filename,
                                        text: line,
                                    },
                                ),
                                pending: None,
                                active: l.active,
                            },
                        )
                    }
                },
                LineClassV::Include(path, pfx) => {
                    let eff = match pfx {
                        Some(p) => Some(p),
                        None => top.filename.prefix,
                    };
                    let nf = make_filename_spec(path, Some(top.filename.dirname), eff);
                    if l.active.contains((full_of(nf), nf.prefix)) {
                        (l, StepV::Fail("vss-include-cycle"@))
                    } else {
                        (
                            VssLoaderV {
                                frames: l2.frames,
                                lines: l.lines,
                                pending: Some(nf),
                                active: l.active,
                            },
                            StepV::NeedFile(full_of(nf)),
                        )
                    }
                },
                LineClassV::BadInclude => (l, StepV::Fail("vss-include-syntax"@)),
            }
        }
    }
}

/// Lines left in the top frame; drives termination of [`step_spec`].
pub open spec fn frame_rest(l: VssLoaderV) -> int {
    if l.frames.len() > 0 {
        l.frames.last().lines.len() - l.frames.last().idx
    } else {
        0
    }
}

/// Every frame's cursor stays within its lines, and each in-progress file
/// has exactly one cycle-detection entry.
pub open spec fn loader_inv(l: VssLoaderV) -> bool {
    &&& (forall|j: int|
        0 <= j < l.frames.len() ==> #[trigger] l.frames[j].idx <= l.frames[j].lines.len())
    &&& l.active.len() == l.frames.len()
}

/// Handing a file's contents to the loader pushes one frame with its lines
/// and marks the (path, prefix) pair as in progress.
pub open spec fn supply_spec(l: VssLoaderV, t: Seq<char>) -> VssLoaderV {
    let f = l.pending.unwrap();
    VssLoaderV {
        frames: l.frames.push(LoadFrameV { filename: f, lines: split_from(t, 0), idx: 0 }),
        lines: l.lines,
        pending: None,
        active: l.active.push((full_of(f), f.prefix)),
    }
}

impl VssLoader {
    /// A loader about to read the root file, resolved like any include.
    pub fn new(filename: String, dirname: Option<String>, prefix: Option<String>) -> (r: VssLoader)
        ensures
            r@ == (VssLoaderV {
                frames: Seq::<LoadFrameV>::empty(),
                lines: Seq::<VssLineV>::empty(),
                pending: Some(
                    make_filename_spec(
                        filename@,
                        match dirname {
                            Some(d) => Some(d@),
                            None => None,
                        },
                        match prefix {
                            Some(p) => Some(p@),
                            None => None,
                        },
                    ),
                ),
                active: Seq::<(Seq<char>, Option<Seq<char>>)>::empty(),
            }),
            loader_inv(r@),
    {
        let r = VssLoader {
            frames: Vec::new(),
            data: VssData { lines: Vec::new() },
            pending: Some(make_filename(filename, dirname, prefix)),
            active: Vec::new(),
        };
        proof {
            assert(r@.frames =~= Seq::<LoadFrameV>::empty());
            assert(r@.lines =~= Seq::<VssLineV>::empty());
            assert(r@.active =~= Seq::<(Seq<char>, Option<Seq<char>>)>::empty());
        }
        r
    }

    /// Hands the loader the contents of the file it asked for.
    pub fn supply_file(&mut self, text: &str)
        requires
            old(self)@.pending is Some,
            loader_inv(old(self)@),
        ensures
            final(self)@ == supply_spec(old(self)@, text@),
            loader_inv(final(self)@),
    {
        let ghost before = self@;
        let f = self.pending.take().unwrap();
        let mut full = f.dirname.clone();
        full.append(f.basename.as_str());
        let pfx = match &f.prefix {
            Some(p) => Some(p.clone()),
            None => None,
        };
        let lines = split_lines(text);
        self.active.push((full, pfx));
        self.frames.push(LoadFrame { filename: f, lines, idx: 0 });
        proof {
            assert(self@.frames =~= supply_spec(before, text@).frames);
            assert(self@.active =~= supply_spec(before, text@).active);
        }
    }

    /// Consumed lines of the loader, as the line table the location index is
    /// built from.
    pub fn into_data(self) -> (r: VssData)
        ensures
            r@ == self@.lines,
    {
        self.data
    }

    /// Runs the loader until it needs a file, fails, or finishes.
    pub fn step(&mut self) -> (r: Result<LoadStep, AfbError>)
        requires
            loader_inv(old(self)@),
        ensures
            loader_inv(final(self)@),
            final(self)@ == step_spec(old(self)@).0,
            (match r {
                Ok(LoadStep::NeedFile(p)) => step_spec(old(self)@).1 == StepV::NeedFile(p@),
                Ok(LoadStep::Done) => step_spec(old(self)@).1 == StepV::Done,
                Err(e) => step_spec(old(self)@).1 == StepV::Fail(e.uid_spec()),
            }),
    {
        loop
            invariant
                loader_inv(self@),
                step_spec(old(self)@) == step_spec(self@),
            decreases self@.frames.len(), frame_rest(self@),
        {
            if self.pending.is_some() {
                let f = match &self.pending {
                    Some(f) => f,
                    None => unreached(),
                };
                let mut full = f.dirname.clone();
                full.append(f.basename.as_str());
                return Ok(LoadStep::NeedFile(full));
            }
            if self.frames.len() == 0 {
                return Ok(LoadStep::Done);
            }
            let ghost lv = self@;
            let mut top = match self.frames.pop() {
                Some(t) => t,
                None => unreached(),
            };
            proof {
                assert(lv.frames.last() == top@);
                assert(self@.frames =~= lv.frames.drop_last());
            }
            if top.idx >= top.lines.len() {
                let _ = self.active.pop();
                proof {
                    assert(self@.active =~= lv.active.drop_last());
                    assert(self@.lines == lv.lines);
                }
                continue ;
            }
            let line_text = top.lines[top.idx].clone();
            let fname = clone_filename(&top.filename);
            let ghost linev = top@.lines[top@.idx];
            assert(line_text@ == linev);
            let cls = classify_line(line_text.as_str());
            let ghost l2 = VssLoaderV {
                frames: lv.frames.update(
                    lv.frames.len() - 1,
                    LoadFrameV {
                        filename: top@.filename,
                        lines: top@.lines,
                        idx: top@.idx + 1,
                    },
                ),
                lines: lv.lines,
                pending: None,
                active: lv.active,
            };
            match cls {
                Ok(VssType::Empty()) | Ok(VssType::Comment(_)) => {
                    top.idx = top.idx + 1;
                    self.frames.push(top);
                    proof {
                        assert(self@.frames =~= l2.frames);
                    }
                },
                Ok(VssType::Data(_)) => {
                    if top.idx == usize::MAX || top.idx + 1 > u32::MAX as usize {
                        self.frames.push(top);
                        proof {
                            assert(self@.frames =~= lv.frames);
                            assert(self@ == lv);
                        }
                        return Err(
                            AfbError::new(
                                "vss-line-overflow",
                                String::from_str("too many lines in one file"),
                            ),
                        );
                    }
                    let num = (top.idx + 1) as u32;
                    self.data.lines.push(
                        VssLine { line: num, filename: fname, text: line_text },
                    );
                    top.idx = top.idx + 1;
                    self.frames.push(top);
                    proof {
                        assert(self@.frames =~= l2.frames);
                        assert(self@.lines =~= lv.lines.push(
                            VssLineV { line: num, filename: linev_file(lv), text: linev },
                        ));
                    }
                },
                Ok(VssType::Include(inc)) => {
                    let eff: Option<String> = match inc.prefix {
                        Some(p) => Some(p),
                        None => match &top.filename.prefix {
                            Some(p) => Some(p.clone()),
                            None => None,
                        },
                    };
                    let nf = make_filename(
                        inc.filename,
                        Some(top.filename.dirname.clone()),
                        eff,
                    );
                    let mut nfull = nf.dirname.clone();
                    nfull.append(nf.basename.as_str());
                    if active_contains(&self.active, nfull.as_str(), &nf.prefix) {
                        self.frames.push(top);
                        proof {
                            assert(self@.frames =~= lv.frames);
                            assert(self@ == lv);
                        }
                        return Err(
                            AfbError::new(
                                "vss-include-cycle",
                                String::from_str("include cycle detected"),
                            ),
                        );
                    }
                    top.idx = top.idx + 1;
                    self.frames.push(top);
                    proof {
                        assert(self@.frames =~= l2.frames);
                    }
                    self.pending = Some(nf);
                    return Ok(LoadStep::NeedFile(nfull));
                },
                Ok(VssType::Eof()) => {
                    proof {
                        assert(false);
                    }
                },
                Err(e) => {
                    self.frames.push(top);
                    proof {
                        assert(self@.frames =~= lv.frames);
                        assert(self@ == lv);
                    }
                    return Err(e);
                },
            }
        }
    }
}

/// The file of the top frame of a loader model.
pub open spec fn linev_file(l: VssLoaderV) -> FilenameV {
    l.frames.last().filename
}

/// Whether a (path, prefix) pair is among the in-progress entries.
fn active_contains(v: &Vec<(String, Option<String>)>, full: &str, pfx: &Option<String>) -> (r:
    bool)
    ensures
        r == active_view(v@).contains((full@, opt_string_view(*pfx))),
{
    let n = v.len();
    let mut j: usize = 0;
    while j < n
        invariant
            0 <= j <= n,
            n == v@.len(),
            forall|x: int| 0 <= x < j ==> active_view(v@)[x] != ((full@, opt_string_view(*pfx))),
        decreases n - j,
    {
        let same_path = str_eq(v[j].0.as_str(), full);
        let same_pfx = match (&v[j].1, pfx) {
            (Some(a), Some(b)) => str_eq(a.as_str(), b.as_str()),
            (None, None) => true,
            _ => false,
        };
        if same_path && same_pfx {
            assert(active_view(v@)[j as int] == ((full@, opt_string_view(*pfx))));
            return true;
        }
        assert(active_view(v@)[j as int] != ((full@, opt_string_view(*pfx))));
        j += 1;
    }
    proof {
        if active_view(v@).contains((full@, opt_string_view(*pfx))) {
            let x = choose|x: int|
                0 <= x < active_view(v@).len() && active_view(v@)[x] == ((
                    full@,
                    opt_string_view(*pfx),
                ));
            assert(false);
        }
    }
    false
}

} // verus!
