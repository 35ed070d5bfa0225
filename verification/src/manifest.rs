//! The manifest data model: the typed description of one service and the
//! micro-parser that extracts placeholder-variable names from the raw
//! manifest text.

use vstd::prelude::*;

verus! {

/// How reading a manifest can fail: the text is not valid structured data,
/// a mandatory field (`name`, `scripts.health_check`, `scripts.start`) is
/// absent or empty, or the placeholder-variable scan found an `{` with no
/// matching `}`.
#[derive(Debug, Clone)]
pub enum ManifestError {
    Format(String),
    RequiredFieldMissing,
    UnbalancedBraces { line: usize, column: usize },
}

/// The typed contents of one service manifest.
#[derive(Debug, Clone)]
pub struct ManifestContent {
    pub name: String,
    pub enable: Option<bool>,
    pub scripts: ManifestContentScripts,
    pub vars: Vec<String>,
}

/// The five lifecycle scripts of a manifest; `health_check` and `start` are
/// mandatory, the rest optional.
#[derive(Debug, Clone)]
pub struct ManifestContentScripts {
    pub health_check: String,
    pub pre_start: Option<String>,
    pub start: String,
    pub stop: Option<String>,
    pub post_stop: Option<String>,
}

/// State of the placeholder-variable scanner after some prefix of the text:
/// whether the last character was an escaping backslash, whether a `{` is
/// open, the current line and column, the position of the pending `{`, the
/// name accumulated so far, and the names already captured.
#[verifier::ext_equal]
pub ghost struct ScanState {
    pub esc: bool,
    pub open: bool,
    pub line: int,
    pub col: int,
    pub open_line: int,
    pub open_col: int,
    pub acc: Seq<char>,
    pub out: Seq<Seq<char>>,
}

pub open spec fn scan_init() -> ScanState {
    ScanState {
        esc: false,
        open: false,
        line: 1,
        col: 0,
        open_line: 0,
        open_col: 0,
        acc: Seq::empty(),
        out: Seq::empty(),
    }
}

/// One scanner transition: a newline advances the line counter and cancels a
/// pending escape; an escaped character is literal text, appended to the open
/// name if one is open; `\` escapes the next character; `{` opens a name and
/// records its position; `}` closes an open name, appending it to the output
/// and resetting the accumulator; anything else is accumulated while a name
/// is open and ignored otherwise.
pub open spec fn scan_step(st: ScanState, c: char) -> ScanState {
    if c == '\n' {
        ScanState { esc: false, line: st.line + 1, col: 0, ..st }
    } else {
        let at = ScanState { col: st.col + 1, ..st };
        if at.esc {
            ScanState { esc: false, acc: if at.open { at.acc.push(c) } else { at.acc }, ..at }
        } else if c == '\\' {
            ScanState { esc: true, ..at }
        } else if c == '{' {
            ScanState { open: true, open_line: at.line, open_col: at.col, ..at }
        } else if c == '}' {
            if at.open {
                ScanState { open: false, out: at.out.push(at.acc), acc: Seq::empty(), ..at }
            } else {
                at
            }
        } else {
            if at.open {
                ScanState { acc: at.acc.push(c), ..at }
            } else {
                at
            }
        }
    }
}

/// The scanner state after the first `n` characters of `s`, started in `st`.
pub open spec fn scan_from(st: ScanState, s: Seq<char>, n: int) -> ScanState
    decreases n,
{
    if n <= 0 {
        st
    } else {
        scan_step(scan_from(st, s, n - 1), s[n - 1])
    }
}

/// The scanner state after the first `n` characters of `s`.
pub open spec fn scan(s: Seq<char>, n: int) -> ScanState {
    scan_from(scan_init(), s, n)
}

/// What extraction returns on `s`: the captured names in order of
/// appearance, or the line and column of an unmatched `{`.
pub open spec fn extract_vars_spec(s: Seq<char>) -> Result<Seq<Seq<char>>, (int, int)> {
    let st = scan(s, s.len() as int);
    if st.open {
        Err((st.open_line, st.open_col))
    } else {
        Ok(st.out)
    }
}

/// A character with no role in the scanner: not a brace, not a backslash,
/// not a newline.
pub open spec fn plain_char(c: char) -> bool {
    c != '{' && c != '}' && c != '\\' && c != '\n'
}

/// Text made only of plain characters, as a well-formed variable name is.
pub open spec fn plain(s: Seq<char>) -> bool {
    forall|i: int| 0 <= i < s.len() ==> plain_char(s[i])
}

/// The text `{s}`: one placeholder span around the name `s`.
pub open spec fn braced(s: Seq<char>) -> Seq<char> {
    seq!['{'] + s + seq!['}']
}

/// Scanning a single character is one transition.
proof fn lemma_scan_one(st: ScanState, c: char)
    ensures
        scan_from(st, seq![c], 1) == scan_step(st, c),
{
    assert(scan_from(st, seq![c], 0) == st);
    assert(seq![c][0] == c);
}

/// Scanning a prefix of `t` that equals a prefix of `s` gives the same state.
proof fn lemma_scan_from_prefix(st: ScanState, s: Seq<char>, t: Seq<char>, n: int)
    requires
        s.is_prefix_of(t),
        0 <= n <= s.len(),
    ensures
        scan_from(st, t, n) == scan_from(st, s, n),
    decreases n,
{
    if n > 0 {
        lemma_scan_from_prefix(st, s, t, n - 1);
        assert(t[n - 1] == s[n - 1]);
    }
}

/// Scanning `s + t` whole is scanning `s`, then `t` from the state reached.
proof fn lemma_scan_from_concat(st: ScanState, s: Seq<char>, t: Seq<char>, k: int)
    requires
        0 <= k <= t.len(),
    ensures
        scan_from(st, s + t, s.len() + k) == scan_from(scan_from(st, s, s.len() as int), t, k),
    decreases k,
{
    if k <= 0 {
        assert(s.is_prefix_of(s + t));
        lemma_scan_from_prefix(st, s, s + t, s.len() as int);
    } else {
        lemma_scan_from_concat(st, s, t, k - 1);
        assert((s + t)[s.len() + k - 1] == t[k - 1]);
    }
}

/// Plain text does not change what the scanner has captured: while a name is
/// open it is accumulated, otherwise it is ignored; only the column moves.
proof fn lemma_scan_plain(st: ScanState, s: Seq<char>, k: int)
    requires
        plain(s),
        !st.esc,
        0 <= k <= s.len(),
    ensures
        scan_from(st, s, k) == (ScanState {
            col: st.col + k,
            acc: if st.open {
                st.acc + s.take(k)
            } else {
                st.acc
            },
            ..st
        }),
    decreases k,
{
    if k > 0 {
        lemma_scan_plain(st, s, k - 1);
        assert(plain_char(s[k - 1]));
        if st.open {
            assert(st.acc + s.take(k) =~= (st.acc + s.take(k - 1)).push(s[k - 1]));
        }
        assert(scan_from(st, s, k) =~= (ScanState {
            col: st.col + k,
            acc: if st.open {
                st.acc + s.take(k)
            } else {
                st.acc
            },
            ..st
        }));
    } else {
        assert(st.acc + s.take(0) =~= st.acc);
        assert(scan_from(st, s, 0) =~= (ScanState {
            col: st.col + 0,
            acc: st.acc,
            ..st
        }));
    }
}

/// Scanning a whole `{name}` span from a closed state captures exactly
/// `name` and leaves the scanner closed again.
proof fn lemma_scan_capture(st: ScanState, name: Seq<char>)
    requires
        plain(name),
        !st.esc,
        !st.open,
        st.acc == Seq::<char>::empty(),
    ensures
        scan_from(st, braced(name), braced(name).len() as int) == (ScanState {
            col: st.col + name.len() + 2,
            open_line: st.line,
            open_col: st.col + 1,
            out: st.out.push(name),
            ..st
        }),
{
    let opener = seq!['{'];
    let body = opener + name;
    let whole = braced(name);
    assert(whole =~= body + seq!['}']);
    let st1 = scan_from(st, opener, 1);
    lemma_scan_one(st, '{');
    assert(st1 == scan_step(st, '{'));
    lemma_scan_from_concat(st, opener, name, name.len() as int);
    assert(body =~= opener + name);
    let st2 = scan_from(st, body, body.len() as int);
    lemma_scan_plain(st1, name, name.len() as int);
    assert(name.take(name.len() as int) =~= name);
    assert(st1.acc + name =~= name);
    lemma_scan_from_concat(st, body, seq!['}'], 1);
    lemma_scan_one(st2, '}');
    let st3 = scan_from(st, whole, whole.len() as int);
    assert(st3 == scan_step(st2, '}'));
    assert(st3 =~= (ScanState {
        col: st.col + name.len() + 2,
        open_line: st.line,
        open_col: st.col + 1,
        out: st.out.push(name),
        ..st
    }));
}

/// Placeholders are captured in order of appearance: the text
/// `{a}{b}{c}` yields exactly the names `a`, `b`, `c`, in that order.
pub proof fn lemma_extract_three_in_order(a: Seq<char>, b: Seq<char>, c: Seq<char>)
    requires
        plain(a),
        plain(b),
        plain(c),
    ensures
        extract_vars_spec(braced(a) + braced(b) + braced(c)) == Ok::<_, (int, int)>(seq![a, b, c]),
{
    let st0 = scan_init();
    let sa = braced(a);
    let sb = braced(b);
    let sc = braced(c);
    let whole = sa + sb + sc;
    lemma_scan_capture(st0, a);
    let st1 = scan_from(st0, sa, sa.len() as int);
    lemma_scan_capture(st1, b);
    let st2 = scan_from(st1, sb, sb.len() as int);
    lemma_scan_capture(st2, c);
    let st3 = scan_from(st2, sc, sc.len() as int);
    lemma_scan_from_concat(st0, sa, sb, sb.len() as int);
    assert(scan_from(st0, sa + sb, (sa + sb).len() as int) == st2);
    lemma_scan_from_concat(st0, sa + sb, sc, sc.len() as int);
    assert(whole =~= (sa + sb) + sc);
    assert(scan(whole, whole.len() as int) == st3);
    assert(st3.out =~= seq![a, b, c]);
}

/// An escaped `{` is literal text: `\{a}` captures nothing.
pub proof fn lemma_escaped_brace_is_literal(a: Seq<char>)
    requires
        plain(a),
    ensures
        extract_vars_spec(seq!['\\'] + braced(a)) == Ok::<_, (int, int)>(Seq::<Seq<char>>::empty()),
{
    let st0 = scan_init();
    let head = seq!['\\', '{'];
    let st1 = scan_step(st0, '\\');
    let st2 = scan_step(st1, '{');
    assert(scan_from(st0, head, 0) == st0);
    assert(head[0] == '\\' && head[1] == '{');
    assert(scan_from(st0, head, 1) == st1);
    assert(scan_from(st0, head, 2) == st2);
    lemma_scan_from_concat(st0, head, a, a.len() as int);
    lemma_scan_plain(st2, a, a.len() as int);
    let st3 = scan_from(st0, head + a, (head + a).len() as int);
    lemma_scan_from_concat(st0, head + a, seq!['}'], 1);
    lemma_scan_one(st3, '}');
    let whole = seq!['\\'] + braced(a);
    assert(whole =~= (head + a) + seq!['}']);
    let st4 = scan(whole, whole.len() as int);
    assert(st4 == scan_step(st3, '}'));
    assert(!st4.open);
    assert(st4.out =~= Seq::<Seq<char>>::empty());
}

/// A `{` never closed is reported at its own position: `{a` fails at line 1,
/// column 1.
pub proof fn lemma_unbalanced_brace_position(a: Seq<char>)
    requires
        plain(a),
    ensures
        extract_vars_spec(seq!['{'] + a) == Err::<Seq<Seq<char>>, _>((1int, 1int)),
{
    let st0 = scan_init();
    let opener = seq!['{'];
    let st1 = scan_from(st0, opener, 1);
    lemma_scan_one(st0, '{');
    assert(st1 == scan_step(st0, '{'));
    lemma_scan_from_concat(st0, opener, a, a.len() as int);
    lemma_scan_plain(st1, a, a.len() as int);
    let whole = opener + a;
    let st2 = scan(whole, whole.len() as int);
    assert(st2.open);
    assert(st2.open_line == 1 && st2.open_col == 1);
}

/// Relies on String::push: appends the given character to the end of the string.
pub assume_specification[ String::push ](s: &mut String, ch: char)
    ensures
        final(s)@ == old(s)@.push(ch),
;

/// Line and column counters never outgrow the number of characters read, so
/// the executable scanner's `usize` counters cannot overflow.
pub proof fn lemma_scan_counter_bounds(s: Seq<char>, n: int)
    requires
        0 <= n <= s.len(),
    ensures
        1 <= scan(s, n).line <= 1 + n,
        0 <= scan(s, n).col <= n,
    decreases n,
{
    if n > 0 {
        lemma_scan_counter_bounds(s, n - 1);
    }
}

impl ManifestContent {
    /// Scan `content` for `{name}` placeholders: the captured names in order
    /// of appearance, or the position of an `{` left open at the end of the
    /// text.
    pub fn extract_vars(content: &str) -> (r: Result<Vec<String>, ManifestError>)
        requires
            content@.len() < usize::MAX,
        ensures
            (match extract_vars_spec(content@) {
                Ok(vs) => r matches Ok(v) && v.deep_view() == vs,
                Err(p) => r matches Err(e) && (e matches ManifestError::UnbalancedBraces {
                    line,
                    column,
                } && line as int == p.0 && column as int == p.1),
            }),
    {
        let n = content.unicode_len();
        let mut esc = false;
        let mut open = false;
        let mut line: usize = 1;
        let mut col: usize = 0;
        let mut open_line: usize = 0;
        let mut open_col: usize = 0;
        let mut acc = String::new();
        let mut out: Vec<String> = Vec::new();
        let mut i: usize = 0;
        while i < n
            invariant
                n == content@.len(),
                content@.len() < usize::MAX,
                i <= n,
                ({
                    let st = scan(content@, i as int);
                    esc == st.esc && open == st.open && line as int == st.line && col as int
                        == st.col && open_line as int == st.open_line && open_col as int
                        == st.open_col && acc@ == st.acc && out.deep_view() == st.out
                }),
            decreases n - i,
        {
            let ghost st = scan(content@, i as int);
            let c = content.get_char(i);
            proof {
                lemma_scan_counter_bounds(content@, i as int);
                assert(scan(content@, i as int + 1) == scan_step(st, content@[i as int]));
            }
            if c == '\n' {
                line = line + 1;
                col = 0;
                esc = false;
            } else {
                col = col + 1;
                if esc {
                    esc = false;
                    if open {
                        acc.push(c);
                    }
                } else if c == '\\' {
                    esc = true;
                } else if c == '{' {
                    open = true;
                    open_line = line;
                    open_col = col;
                } else if c == '}' {
                    if open {
                        open = false;
                        out.push(acc);
                        acc = String::new();
                    }
                } else {
                    if open {
                        acc.push(c);
                    }
                }
            }
            i = i + 1;
            proof {
                let stn = scan(content@, i as int);
                assert(out.deep_view() =~= stn.out);
            }
        }
        if open {
            Err(ManifestError::UnbalancedBraces { line: open_line, column: open_col })
        } else {
            Ok(out)
        }
    }
}

impl Default for ManifestContentScripts {
    /// An empty script set, as a freshly scaffolded template carries.
    fn default() -> (r: Self)
        ensures
            r@ == (ScriptsV {
                health_check: Seq::empty(),
                pre_start: Option::None,
                start: Seq::empty(),
                stop: Option::None,
                post_stop: Option::None,
            }),
    {
        ManifestContentScripts {
            health_check: String::new(),
            pre_start: Option::None,
            start: String::new(),
            stop: Option::None,
            post_stop: Option::None,
        }
    }
}

impl Default for ManifestContent {
    /// The blank manifest a freshly scaffolded template starts from: every
    /// text empty, nothing enabled, no variables.
    fn default() -> (r: Self)
        ensures
            r@ == (ManifestV {
                name: Seq::empty(),
                enable: Option::None,
                scripts: ScriptsV {
                    health_check: Seq::empty(),
                    pre_start: Option::None,
                    start: Seq::empty(),
                    stop: Option::None,
                    post_stop: Option::None,
                },
                vars: Seq::empty(),
            }),
    {
        let m = ManifestContent {
            name: String::new(),
            enable: Option::None,
            scripts: ManifestContentScripts::default(),
            vars: Vec::new(),
        };
        proof {
            assert(m.vars.deep_view() =~= Seq::<Seq<char>>::empty());
        }
        m
    }
}

/// The view of an optional script string.
pub open spec fn opt_view(o: Option<String>) -> Option<Seq<char>> {
    match o {
        Option::Some(s) => Option::Some(s@),
        Option::None => Option::None,
    }
}

/// Mathematical model of the script set.
#[verifier::ext_equal]
pub ghost struct ScriptsV {
    pub health_check: Seq<char>,
    pub pre_start: Option<Seq<char>>,
    pub start: Seq<char>,
    pub stop: Option<Seq<char>>,
    pub post_stop: Option<Seq<char>>,
}

/// Mathematical model of a manifest.
#[verifier::ext_equal]
pub ghost struct ManifestV {
    pub name: Seq<char>,
    pub enable: Option<bool>,
    pub scripts: ScriptsV,
    pub vars: Seq<Seq<char>>,
}

impl View for ManifestContentScripts {
    type V = ScriptsV;

    open spec fn view(&self) -> ScriptsV {
        ScriptsV {
            health_check: self.health_check@,
            pre_start: opt_view(self.pre_start),
            start: self.start@,
            stop: opt_view(self.stop),
            post_stop: opt_view(self.post_stop),
        }
    }
}

impl View for ManifestContent {
    type V = ManifestV;

    open spec fn view(&self) -> ManifestV {
        ManifestV {
            name: self.name@,
            enable: self.enable,
            scripts: self.scripts@,
            vars: self.vars.deep_view(),
        }
    }
}

impl ManifestContent {
    /// A parsed manifest always carries a non-empty name, health-check
    /// script and start script.
    pub open spec fn wf(self) -> bool {
        self@.name.len() > 0 && self@.scripts.health_check.len() > 0 && self@.scripts.start.len()
            > 0
    }
}

/// The seven fields a manifest document may carry, each as the structured
/// text delivered it: present or absent, before any schema rule is applied.
pub struct RawFields {
    pub name: Option<String>,
    pub enable: Option<bool>,
    pub health_check: Option<String>,
    pub pre_start: Option<String>,
    pub start: Option<String>,
    pub stop: Option<String>,
    pub post_stop: Option<String>,
}

/// Mathematical model of the raw field set.
#[verifier::ext_equal]
pub ghost struct RawFieldsV {
    pub name: Option<Seq<char>>,
    pub enable: Option<bool>,
    pub health_check: Option<Seq<char>>,
    pub pre_start: Option<Seq<char>>,
    pub start: Option<Seq<char>>,
    pub stop: Option<Seq<char>>,
    pub post_stop: Option<Seq<char>>,
}

impl View for RawFields {
    type V = RawFieldsV;

    open spec fn view(&self) -> RawFieldsV {
        RawFieldsV {
            name: opt_view(self.name),
            enable: self.enable,
            health_check: opt_view(self.health_check),
            pre_start: opt_view(self.pre_start),
            start: opt_view(self.start),
            stop: opt_view(self.stop),
            post_stop: opt_view(self.post_stop),
        }
    }
}

/// A mandatory field counts as present only when it is there and non-empty.
pub open spec fn field_present(o: Option<Seq<char>>) -> bool {
    o matches Option::Some(s) && s.len() > 0
}

/// The schema rule: `name`, `scripts.health_check` and `scripts.start` must
/// be present.
pub open spec fn raw_fields_ok(r: RawFieldsV) -> bool {
    field_present(r.name) && field_present(r.health_check) && field_present(r.start)
}

/// The manifest built from a complete raw field set; its variable list
/// starts empty.
pub open spec fn manifest_of_raw(r: RawFieldsV) -> ManifestV {
    ManifestV {
        name: r.name->0,
        enable: r.enable,
        scripts: ScriptsV {
            health_check: r.health_check->0,
            pre_start: r.pre_start,
            start: r.start->0,
            stop: r.stop,
            post_stop: r.post_stop,
        },
        vars: Seq::empty(),
    }
}

/// The raw field set a manifest writes back out; the variable list is not
/// persisted.
pub open spec fn raw_of_manifest(v: ManifestV) -> RawFieldsV {
    RawFieldsV {
        name: Option::Some(v.name),
        enable: v.enable,
        health_check: Option::Some(v.scripts.health_check),
        pre_start: v.scripts.pre_start,
        start: Option::Some(v.scripts.start),
        stop: v.scripts.stop,
        post_stop: v.scripts.post_stop,
    }
}

/// Writing a well-formed manifest out as its raw fields and reading them
/// back rebuilds every field; only the variable list is not carried, and
/// comes back empty until it is re-extracted.
pub proof fn lemma_manifest_fields_round_trip(v: ManifestV)
    requires
        v.name.len() > 0,
        v.scripts.health_check.len() > 0,
        v.scripts.start.len() > 0,
    ensures
        raw_fields_ok(raw_of_manifest(v)),
        manifest_of_raw(raw_of_manifest(v)) == (ManifestV { vars: Seq::empty(), ..v }),
{
    assert(manifest_of_raw(raw_of_manifest(v)) =~= (ManifestV { vars: Seq::empty(), ..v }));
}

impl ManifestContent {
    /// Apply the schema rule to a raw field set: build the manifest when the
    /// three mandatory fields are present and non-empty, and fail with
    /// `RequiredFieldMissing` otherwise.
    pub fn from_fields(raw: RawFields) -> (r: Result<ManifestContent, ManifestError>)
        ensures
            r is Ok <==> raw_fields_ok(raw@),
            r matches Ok(m) ==> m@ == manifest_of_raw(raw@) && m.wf(),
            !raw_fields_ok(raw@) ==> (r matches Err(e) && e is RequiredFieldMissing),
    {
        let name = match raw.name {
            Option::Some(s) => s,
            Option::None => {
                return Err(ManifestError::RequiredFieldMissing);
            },
        };
        if name.as_str().is_empty() {
            return Err(ManifestError::RequiredFieldMissing);
        }
        let health_check = match raw.health_check {
            Option::Some(s) => s,
            Option::None => {
                return Err(ManifestError::RequiredFieldMissing);
            },
        };
        if health_check.as_str().is_empty() {
            return Err(ManifestError::RequiredFieldMissing);
        }
        let start = match raw.start {
            Option::Some(s) => s,
            Option::None => {
                return Err(ManifestError::RequiredFieldMissing);
            },
        };
        if start.as_str().is_empty() {
            return Err(ManifestError::RequiredFieldMissing);
        }
        let m = ManifestContent {
            name,
            enable: raw.enable,
            scripts: ManifestContentScripts {
                health_check,
                pre_start: raw.pre_start,
                start,
                stop: raw.stop,
                post_stop: raw.post_stop,
            },
            vars: Vec::new(),
        };
        proof {
            assert(m.vars.deep_view() =~= Seq::<Seq<char>>::empty());
            assert(m@ =~= manifest_of_raw(raw@));
        }
        Ok(m)
    }

    /// Read a manifest out of its text: parse the structured document, apply
    /// the schema rule, and extract the placeholder variables from the raw
    /// text. Exactly one case applies to any text: an invalid document is a
    /// `Format` error; a document whose mandatory fields are absent or empty
    /// is `RequiredFieldMissing`; a complete document whose raw text leaves
    /// a `{` open fails the extraction step alone, with `UnbalancedBraces`
    /// at that brace's position; and otherwise the manifest is owed, built
    /// from the decoded fields with the extracted variables.
    pub fn new(content: &str) -> (r: Result<ManifestContent, ManifestError>)
        requires
            content@.len() < usize::MAX,
        ensures
            toml_manifest_fields(content@) is None ==> (r matches Err(e) && e is Format),
            toml_manifest_fields(content@) matches Some(f) ==> (!raw_fields_ok(f) ==> (r matches Err(
                e,
            ) && e is RequiredFieldMissing)),
            toml_manifest_fields(content@) matches Some(f) ==> (raw_fields_ok(f) ==> (
            extract_vars_spec(content@) matches Ok(vs) ==> (r matches Ok(m) && m.wf() && m@
                == (ManifestV { vars: vs, ..manifest_of_raw(f) })))),
            toml_manifest_fields(content@) matches Some(f) ==> (raw_fields_ok(f) ==> (
            extract_vars_spec(content@) matches Err(p) ==> (r matches Err(e) && (e matches
            ManifestError::UnbalancedBraces { line, column } && line as int == p.0 && column as int
                == p.1)))),
    {
        let raw = match parse_manifest_fields(content) {
            Ok(f) => f,
            Err(msg) => {
                return Err(ManifestError::Format(msg));
            },
        };
        let m0 = match ManifestContent::from_fields(raw) {
            Ok(m) => m,
            Err(e) => {
                return Err(e);
            },
        };
        let vars = match ManifestContent::extract_vars(content) {
            Ok(vs) => vs,
            Err(e) => {
                return Err(e);
            },
        };
        let m = ManifestContent { name: m0.name, enable: m0.enable, scripts: m0.scripts, vars };
        proof {
            let f = toml_manifest_fields(content@)->0;
            assert(m@ =~= (ManifestV { vars: m.vars.deep_view(), ..manifest_of_raw(f) }));
        }
        Ok(m)
    }
}

/// How one character is written inside a quoted value: quotes, backslashes
/// and the common control characters get a backslash escape, everything else
/// stands as itself.
pub open spec fn spec_hex_digit(n: int) -> char {
    if n == 0 {
        '0'
    } else if n == 1 {
        '1'
    } else if n == 2 {
        '2'
    } else if n == 3 {
        '3'
    } else if n == 4 {
        '4'
    } else if n == 5 {
        '5'
    } else if n == 6 {
        '6'
    } else if n == 7 {
        '7'
    } else if n == 8 {
        '8'
    } else if n == 9 {
        '9'
    } else if n == 10 {
        'a'
    } else if n == 11 {
        'b'
    } else if n == 12 {
        'c'
    } else if n == 13 {
        'd'
    } else if n == 14 {
        'e'
    } else {
        'f'
    }
}

/// Whether a character may not stand raw inside a quoted value: the
/// control characters, which the format only admits escaped.
pub open spec fn needs_unicode_escape(c: char) -> bool {
    (c as u32) < 32 || (c as u32) == 127
}

/// The `\u00XX` escape of a control character.
pub open spec fn unicode_escape(c: char) -> Seq<char> {
    seq!['\\', 'u', '0', '0', spec_hex_digit((c as u32) as int / 16), spec_hex_digit(
        (c as u32) as int % 16,
    )]
}

pub open spec fn toml_escape_char(c: char) -> Seq<char> {
    if c == '"' {
        seq!['\\', '"']
    } else if c == '\\' {
        seq!['\\', '\\']
    } else if c == '\n' {
        seq!['\\', 'n']
    } else if c == '\r' {
        seq!['\\', 'r']
    } else if c == '\t' {
        seq!['\\', 't']
    } else if needs_unicode_escape(c) {
        unicode_escape(c)
    } else {
        seq![c]
    }
}

/// A whole string escaped character by character.
pub open spec fn toml_escape(s: Seq<char>) -> Seq<char>
    decreases s.len(),
{
    if s.len() == 0 {
        Seq::empty()
    } else {
        toml_escape_char(s[0]) + toml_escape(s.skip(1))
    }
}

/// A quoted value: the escaped string between double quotes.
pub open spec fn quoted(s: Seq<char>) -> Seq<char> {
    seq!['"'] + toml_escape(s) + seq!['"']
}

/// One `key = "value"` line for an optional script; nothing when absent.
pub open spec fn opt_line(key: Seq<char>, v: Option<Seq<char>>) -> Seq<char> {
    match v {
        Option::Some(s) => key + quoted(s) + seq!['\n'],
        Option::None => Seq::empty(),
    }
}

/// The text a manifest writes out: its fields in a fixed order, the
/// variable list excluded.
pub open spec fn manifest_doc(m: ManifestV) -> Seq<char> {
    "name = "@ + quoted(m.name) + seq!['\n'] + (match m.enable {
        Option::Some(true) => "enable = true\n"@,
        Option::Some(false) => "enable = false\n"@,
        Option::None => Seq::empty(),
    }) + "[scripts]\n"@ + "health_check = "@ + quoted(m.scripts.health_check) + seq!['\n']
        + opt_line("pre_start = "@, m.scripts.pre_start) + "start = "@ + quoted(m.scripts.start)
        + seq!['\n'] + opt_line("stop = "@, m.scripts.stop) + opt_line(
        "post_stop = "@,
        m.scripts.post_stop,
    )
}

/// Escaping one more character appends that character's escape.
proof fn lemma_toml_escape_snoc(s: Seq<char>, c: char)
    ensures
        toml_escape(s.push(c)) == toml_escape(s) + toml_escape_char(c),
    decreases s.len(),
{
    if s.len() == 0 {
        assert(s.push(c) =~= seq![c]);
        assert(seq![c][0] == c);
        assert(seq![c].skip(1) =~= Seq::<char>::empty());
        assert(toml_escape(seq![c]) == toml_escape_char(c) + toml_escape(Seq::empty()));
        assert(toml_escape_char(c) + Seq::empty() =~= toml_escape_char(c));
        assert(Seq::empty() + toml_escape_char(c) =~= toml_escape_char(c));
    } else {
        assert(s.push(c).skip(1) =~= s.skip(1).push(c));
        lemma_toml_escape_snoc(s.skip(1), c);
        assert(s.push(c)[0] == s[0]);
        assert(toml_escape(s.push(c)) == toml_escape_char(s[0]) + (toml_escape(s.skip(1))
            + toml_escape_char(c)));
        assert(toml_escape_char(s[0]) + (toml_escape(s.skip(1)) + toml_escape_char(c)) =~= (
        toml_escape_char(s[0]) + toml_escape(s.skip(1))) + toml_escape_char(c));
    }
}

/// The lowercase hex digit of one nibble.
fn hex_digit(n: u32) -> (r: char)
    requires
        n < 16,
    ensures
        r == spec_hex_digit(n as int),
{
    match n {
        0 => '0',
        1 => '1',
        2 => '2',
        3 => '3',
        4 => '4',
        5 => '5',
        6 => '6',
        7 => '7',
        8 => '8',
        9 => '9',
        10 => 'a',
        11 => 'b',
        12 => 'c',
        13 => 'd',
        14 => 'e',
        _ => 'f',
    }
}

/// Append `"s"`, escaped, to `out`.
fn append_quoted(out: &mut String, s: &str)
    ensures
        final(out)@ == old(out)@ + quoted(s@),
{
    out.push('"');
    let n = s.unicode_len();
    let mut i: usize = 0;
    while i < n
        invariant
            n == s@.len(),
            i <= n,
            out@ == old(out)@ + seq!['"'] + toml_escape(s@.take(i as int)),
        decreases n - i,
    {
        let ghost prefix = s@.take(i as int);
        let c = s.get_char(i);
        proof {
            lemma_toml_escape_snoc(prefix, s@[i as int]);
            assert(s@.take(i as int + 1) =~= prefix.push(s@[i as int]));
        }
        if c == '"' {
            out.push('\\');
            out.push('"');
        } else if c == '\\' {
            out.push('\\');
            out.push('\\');
        } else if c == '\n' {
            out.push('\\');
            out.push('n');
        } else if c == '\r' {
            out.push('\\');
            out.push('r');
        } else if c == '\t' {
            out.push('\\');
            out.push('t');
        } else {
            let code = c as u32;
            if code < 32 || code == 127 {
                out.push('\\');
                out.push('u');
                out.push('0');
                out.push('0');
                out.push(hex_digit(code / 16));
                out.push(hex_digit(code % 16));
                proof {
                    assert(out@ =~= old(out)@ + seq!['"'] + toml_escape(prefix) + unicode_escape(
                        c,
                    ));
                }
            } else {
                out.push(c);
            }
        }
        i = i + 1;
        proof {
            assert(out@ =~= old(out)@ + seq!['"'] + toml_escape(s@.take(i as int)));
        }
    }
    proof {
        assert(s@.take(n as int) =~= s@);
    }
    out.push('"');
    proof {
        assert(out@ =~= old(out)@ + quoted(s@));
    }
}

impl ManifestContent {
    /// Write the manifest back out as structured text, its fields in a fixed
    /// order; the variable list is not persisted.
    #[verifier::rlimit(60)]
    pub fn to_toml_string(&self) -> (r: String)
        ensures
            r@ == manifest_doc(self@),
    {
        let ghost d1 = "name = "@ + quoted(self@.name) + seq!['\n'];
        let ghost d2 = d1 + (match self@.enable {
            Option::Some(true) => "enable = true\n"@,
            Option::Some(false) => "enable = false\n"@,
            Option::None => Seq::empty(),
        });
        let ghost d3 = d2 + "[scripts]\n"@ + "health_check = "@ + quoted(
            self@.scripts.health_check,
        ) + seq!['\n'];
        let ghost d4 = d3 + opt_line("pre_start = "@, self@.scripts.pre_start);
        let ghost d5 = d4 + "start = "@ + quoted(self@.scripts.start) + seq!['\n'];
        let ghost d6 = d5 + opt_line("stop = "@, self@.scripts.stop);
        let ghost d7 = d6 + opt_line("post_stop = "@, self@.scripts.post_stop);
        let mut out = String::new();
        out.append("name = ");
        append_quoted(&mut out, self.name.as_str());
        out.push('\n');
        proof {
            assert(out@ =~= d1);
        }
        match self.enable {
            Option::Some(true) => out.append("enable = true\n"),
            Option::Some(false) => out.append("enable = false\n"),
            Option::None => (),
        }
        proof {
            assert(out@ =~= d2);
        }
        out.append("[scripts]\n");
        out.append("health_check = ");
        append_quoted(&mut out, self.scripts.health_check.as_str());
        out.push('\n');
        proof {
            assert(out@ =~= d3);
        }
        match &self.scripts.pre_start {
            Option::Some(s) => {
                out.append("pre_start = ");
                append_quoted(&mut out, s.as_str());
                out.push('\n');
            },
            Option::None => (),
        }
        proof {
            assert(out@ =~= d4);
        }
        out.append("start = ");
        append_quoted(&mut out, self.scripts.start.as_str());
        out.push('\n');
        proof {
            assert(out@ =~= d5);
        }
        match &self.scripts.stop {
            Option::Some(s) => {
                out.append("stop = ");
                append_quoted(&mut out, s.as_str());
                out.push('\n');
            },
            Option::None => (),
        }
        proof {
            assert(out@ =~= d6);
        }
        match &self.scripts.post_stop {
            Option::Some(s) => {
                out.append("post_stop = ");
                append_quoted(&mut out, s.as_str());
                out.push('\n');
            },
            Option::None => (),
        }
        proof {
            assert(out@ =~= d7);
            assert(manifest_doc(self@) =~= d7);
        }
        out
    }
}

/// Whether two optional script strings hold the same text.
fn opt_str_eq(a: &Option<String>, b: &Option<String>) -> (r: bool)
    ensures
        r == (opt_view(*a) == opt_view(*b)),
{
    match (a, b) {
        (Option::Some(x), Option::Some(y)) => x.eq(y),
        (Option::None, Option::None) => true,
        _ => false,
    }
}

/// Whether two string lists hold the same texts in the same order.
fn vec_str_eq(a: &Vec<String>, b: &Vec<String>) -> (r: bool)
    ensures
        r == (a.deep_view() == b.deep_view()),
{
    if a.len() != b.len() {
        proof {
            assert(a.deep_view().len() != b.deep_view().len());
        }
        return false;
    }
    let n = a.len();
    let mut i: usize = 0;
    while i < n
        invariant
            n == a@.len() && n == b@.len(),
            i <= n,
            forall|j: int| 0 <= j < i ==> a.deep_view()[j] == b.deep_view()[j],
        decreases n - i,
    {
        if !a[i].eq(&b[i]) {
            proof {
                assert(a.deep_view()[i as int] != b.deep_view()[i as int]);
            }
            return false;
        }
        i = i + 1;
    }
    proof {
        assert(a.deep_view() =~= b.deep_view());
    }
    true
}

impl PartialEq for ManifestContentScripts {
    /// Two script sets are equal when each of the five scripts carries the
    /// same text.
    fn eq(&self, other: &Self) -> (r: bool) {
        self.health_check.eq(&other.health_check) && opt_str_eq(&self.pre_start, &other.pre_start)
            && self.start.eq(&other.start) && opt_str_eq(&self.stop, &other.stop) && opt_str_eq(
            &self.post_stop,
            &other.post_stop,
        )
    }
}

impl vstd::std_specs::cmp::PartialEqSpecImpl for ManifestContentScripts {
    open spec fn obeys_eq_spec() -> bool {
        true
    }

    open spec fn eq_spec(&self, other: &Self) -> bool {
        self@ =~= other@
    }
}

impl PartialEq for ManifestContent {
    /// Two manifests are equal when every field, the extracted variable list
    /// included, carries the same values.
    fn eq(&self, other: &Self) -> (r: bool) {
        let enable_eq = match (self.enable, other.enable) {
            (Option::Some(x), Option::Some(y)) => x == y,
            (Option::None, Option::None) => true,
            _ => false,
        };
        self.name.eq(&other.name) && enable_eq && self.scripts.eq(&other.scripts) && vec_str_eq(
            &self.vars,
            &other.vars,
        )
    }
}

impl vstd::std_specs::cmp::PartialEqSpecImpl for ManifestContent {
    open spec fn obeys_eq_spec() -> bool {
        true
    }

    open spec fn eq_spec(&self, other: &Self) -> bool {
        self@ =~= other@
    }
}

// ---------------------------------------------------------------------------
// Trusted boundary: the structured-text parser of the manifest format.
// ---------------------------------------------------------------------------
/// What the structured-text parser reads out of `s`: the seven schema
/// fields, each present when the document carries it with the right type;
/// nothing when `s` is not a valid document. The decode depends on the text
/// alone, so its result bears a name that the parsing contracts speak of.
pub uninterp spec fn toml_manifest_fields(s: Seq<char>) -> Option<RawFieldsV>;

/// Relies on toml::from_str and toml::Value's get, as_str and as_bool:
/// parses the document into its value tree and picks the seven schema
/// fields out of it; a parse failure carries the error's display message.
#[verifier::external_body]
fn parse_manifest_fields(s: &str) -> (r: Result<RawFields, String>)
    ensures
        (r matches Ok(f) ==> toml_manifest_fields(s@) == Option::Some(f@)),
        (r is Err ==> toml_manifest_fields(s@) is None),
{
    let v: toml::Value = toml::from_str(s).map_err(|e| e.to_string())?;
    let t = v.get("scripts");
    let get = |k: &str| t.and_then(|z| z.get(k)).and_then(|y| y.as_str()).map(str::to_string);
    Ok(RawFields {
        name: v.get("name").and_then(|y| y.as_str()).map(str::to_string),
        enable: v.get("enable").and_then(|y| y.as_bool()),
        health_check: get("health_check"),
        pre_start: get("pre_start"),
        start: get("start"),
        stop: get("stop"),
        post_stop: get("post_stop"),
    })
}

} // verus!
