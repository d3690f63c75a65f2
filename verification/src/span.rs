//! Source locations: a line/column position, a file-relative span, and the
//! `Spanned` capability that the parsing engine requires of its token types.

use vstd::prelude::*;
use vstd::string::StringExecFns;

verus! {

/// A position in a source text. Lines and columns produced by the lexer are
/// 1-based; the type itself accepts any pair.
#[derive(Clone, Copy, PartialEq, Eq, Structural, Debug)]
pub struct LineColumn {
    pub line: u32,
    pub column: u32,
}

/// Strict order on positions: by line first, then by column.
pub open spec fn lc_lt(a: LineColumn, b: LineColumn) -> bool {
    a.line < b.line || (a.line == b.line && a.column < b.column)
}

impl LineColumn {
    pub fn new(line: u32, column: u32) -> (r: LineColumn)
        ensures
            r == (LineColumn { line, column }),
    {
        LineColumn { line, column }
    }

    pub fn line(&self) -> (r: u32)
        ensures
            r == self.line,
    {
        self.line
    }

    pub fn column(&self) -> (r: u32)
        ensures
            r == self.column,
    {
        self.column
    }
}

impl PartialOrd for LineColumn {
    fn partial_cmp(&self, other: &Self) -> (r: Option<core::cmp::Ordering>) {
        if self.line > other.line {
            Some(core::cmp::Ordering::Greater)
        } else if self.line < other.line {
            Some(core::cmp::Ordering::Less)
        } else if self.column > other.column {
            Some(core::cmp::Ordering::Greater)
        } else if self.column < other.column {
            Some(core::cmp::Ordering::Less)
        } else {
            Some(core::cmp::Ordering::Equal)
        }
    }
}

impl vstd::std_specs::cmp::PartialOrdSpecImpl for LineColumn {
    open spec fn obeys_partial_cmp_spec() -> bool {
        true
    }

    open spec fn partial_cmp_spec(&self, other: &Self) -> Option<core::cmp::Ordering> {
        if lc_lt(*self, *other) {
            Some(core::cmp::Ordering::Less)
        } else if lc_lt(*other, *self) {
            Some(core::cmp::Ordering::Greater)
        } else {
            Some(core::cmp::Ordering::Equal)
        }
    }
}

/// The decimal digit characters, least significant last, of a non-negative
/// integer; what rendering a line or column number yields.
pub open spec fn spec_digit_char(d: int) -> char {
    if d == 0 {
        '0'
    } else if d == 1 {
        '1'
    } else if d == 2 {
        '2'
    } else if d == 3 {
        '3'
    } else if d == 4 {
        '4'
    } else if d == 5 {
        '5'
    } else if d == 6 {
        '6'
    } else if d == 7 {
        '7'
    } else if d == 8 {
        '8'
    } else {
        '9'
    }
}

pub open spec fn spec_dec(n: int) -> Seq<char>
    decreases n when n >= 0
{
    if n < 10 {
        seq![spec_digit_char(n)]
    } else {
        spec_dec(n / 10).push(spec_digit_char(n % 10))
    }
}

fn digit_str(d: u32) -> (r: &'static str)
    requires
        d < 10,
    ensures
        r@ == seq![spec_digit_char(d as int)],
{
    if d == 0 {
        proof { reveal_strlit("0"); assert("0"@ =~= seq![spec_digit_char(0int)]); }
        "0"
    } else if d == 1 {
        proof { reveal_strlit("1"); assert("1"@ =~= seq![spec_digit_char(1int)]); }
        "1"
    } else if d == 2 {
        proof { reveal_strlit("2"); assert("2"@ =~= seq![spec_digit_char(2int)]); }
        "2"
    } else if d == 3 {
        proof { reveal_strlit("3"); assert("3"@ =~= seq![spec_digit_char(3int)]); }
        "3"
    } else if d == 4 {
        proof { reveal_strlit("4"); assert("4"@ =~= seq![spec_digit_char(4int)]); }
        "4"
    } else if d == 5 {
        proof { reveal_strlit("5"); assert("5"@ =~= seq![spec_digit_char(5int)]); }
        "5"
    } else if d == 6 {
        proof { reveal_strlit("6"); assert("6"@ =~= seq![spec_digit_char(6int)]); }
        "6"
    } else if d == 7 {
        proof { reveal_strlit("7"); assert("7"@ =~= seq![spec_digit_char(7int)]); }
        "7"
    } else if d == 8 {
        proof { reveal_strlit("8"); assert("8"@ =~= seq![spec_digit_char(8int)]); }
        "8"
    } else {
        proof { reveal_strlit("9"); assert("9"@ =~= seq![spec_digit_char(9int)]); }
        "9"
    }
}

/// Renders `n` in decimal, the way line and column numbers appear in
/// diagnostics.
pub fn u32_to_string(n: u32) -> (r: String)
    ensures
        r@ == spec_dec(n as int),
    decreases n,
{
    if n < 10 {
        digit_str(n).to_owned()
    } else {
        let mut r = u32_to_string(n / 10);
        let d = digit_str(n % 10);
        r.append(d);
        proof {
            assert(spec_dec((n / 10) as int) + seq![spec_digit_char((n % 10) as int)]
                =~= spec_dec((n / 10) as int).push(spec_digit_char((n % 10) as int)));
        }
        r
    }
}

/// A region of one source file, from `start` to `end`.
#[derive(Debug)]
pub struct Span {
    file: String,
    start: LineColumn,
    end: LineColumn,
}

impl Clone for Span {
    fn clone(&self) -> (r: Span)
        ensures
            r == *self,
    {
        Span { file: self.file.clone(), start: self.start, end: self.end }
    }
}

impl Span {
    pub closed spec fn spec_file(&self) -> Seq<char> {
        self.file@
    }

    pub closed spec fn spec_start(&self) -> LineColumn {
        self.start
    }

    pub closed spec fn spec_end(&self) -> LineColumn {
        self.end
    }

    pub fn default() -> (r: Span)
        ensures
            r.spec_file() == Seq::<char>::empty(),
            r.spec_start() == (LineColumn { line: 0, column: 0 }),
            r.spec_end() == (LineColumn { line: 0, column: 0 }),
    {
        Span {
            file: String::new(),
            start: LineColumn { column: 0, line: 0 },
            end: LineColumn { column: 0, line: 0 },
        }
    }

    pub fn new(file: String, start: LineColumn, end: LineColumn) -> (r: Span)
        ensures
            r.spec_file() == file@,
            r.spec_start() == start,
            r.spec_end() == end,
    {
        Span { file, start, end }
    }

    /// What a rendered location looks like: `file:line:column`.
    pub open spec fn spec_render(file: Seq<char>, lc: LineColumn) -> Seq<char> {
        file + seq![':'] + spec_dec(lc.line as int) + seq![':'] + spec_dec(lc.column as int)
    }

    pub fn to_string_start(&self) -> (r: String)
        ensures
            r@ == Span::spec_render(self.spec_file(), self.spec_start()),
    {
        self.render(self.start)
    }

    pub fn to_string_end(&self) -> (r: String)
        ensures
            r@ == Span::spec_render(self.spec_file(), self.spec_end()),
    {
        self.render(self.end)
    }

    fn render(&self, lc: LineColumn) -> (r: String)
        ensures
            r@ == Span::spec_render(self.spec_file(), lc),
    {
        proof { reveal_strlit(":"); }
        let mut r = self.file.clone();
        r.append(":");
        let line = u32_to_string(lc.line);
        r.append(line.as_str());
        r.append(":");
        let column = u32_to_string(lc.column);
        r.append(column.as_str());
        proof {
            assert(":"@ =~= seq![':']);
        }
        r
    }

    /// The minimal span covering two spans of the same file: the lesser start
    /// and the greater end. Joining spans of different files is a programming
    /// error; `try_join` reports it recoverably.
    pub fn join(s1: &Span, s2: &Span) -> (r: Span)
        requires
            s1.spec_file() == s2.spec_file(),
        ensures
            r.spec_file() == s1.spec_file(),
            r.spec_start() == if lc_lt(s1.spec_start(), s2.spec_start()) {
                s1.spec_start()
            } else {
                s2.spec_start()
            },
            r.spec_end() == if lc_lt(s2.spec_end(), s1.spec_end()) {
                s1.spec_end()
            } else {
                s2.spec_end()
            },
    {
        let start = if s1.start < s2.start {
            s1.start
        } else {
            s2.start
        };
        let end = if s1.end > s2.end {
            s1.end
        } else {
            s2.end
        };
        Span { file: s1.file.clone(), start, end }
    }

    /// `join`, made total: `None` exactly when the files differ.
    pub fn try_join(s1: &Span, s2: &Span) -> (r: Option<Span>)
        ensures
            s1.spec_file() == s2.spec_file() <==> r is Some,
            r matches Some(j) ==> {
                &&& j.spec_file() == s1.spec_file()
                &&& j.spec_start() == if lc_lt(s1.spec_start(), s2.spec_start()) {
                    s1.spec_start()
                } else {
                    s2.spec_start()
                }
                &&& j.spec_end() == if lc_lt(s2.spec_end(), s1.spec_end()) {
                    s1.spec_end()
                } else {
                    s2.spec_end()
                }
            },
    {
        if s1.file == s2.file {
            Some(Span::join(s1, s2))
        } else {
            None
        }
    }

    pub fn start(&self) -> (r: &LineColumn)
        ensures
            *r == self.spec_start(),
    {
        &self.start
    }

    pub fn end(&self) -> (r: &LineColumn)
        ensures
            *r == self.spec_end(),
    {
        &self.end
    }

    pub fn file(&self) -> (r: &str)
        ensures
            r@ == self.spec_file(),
    {
        self.file.as_str()
    }
}

/// What the parsing engine requires of a token type: an immutable span
/// accessor, pinned down by `spec_span`.
pub trait Spanned {
    spec fn spec_span(&self) -> Span;

    fn span(&self) -> (r: &Span)
        ensures
            *r == self.spec_span(),
    ;
}

} // verus!
