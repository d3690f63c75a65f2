//! The tokenizer: an ordered list of lexing directives scanned over raw text,
//! first match wins, `ignore` matches consumed silently.

use vstd::prelude::*;
use crate::span::{LineColumn, Span};
use crate::token::Token;

verus! {

/// How one directive recognizes a lexeme: a regular expression anchored at
/// the scan position, or a custom character-consuming matcher.
pub enum DirectiveKind<M> {
    RegexMatch(String),
    CustomMatch(M),
}

/// One ordered, named lexing rule: its matcher and whether matched text is
/// consumed silently.
pub struct LexingDirective<M> {
    pub name: String,
    pub ignore: bool,
    pub kind: DirectiveKind<M>,
}

/// A stateful matcher for lexemes regular expressions cannot express.
/// `spec_match` pins the matcher down; the exec matcher must agree with it
/// and may not claim text past the end.
pub trait CustomMatch where Self: Sized {
    spec fn spec_match(&self, text: Seq<char>, start: int) -> Option<usize>;

    fn match_prefix(&self, text: &Vec<char>, start: usize) -> (r: Option<usize>)
        requires
            start <= text@.len(),
        ensures
            r == self.spec_match(text@, start as int),
            r matches Some(n) ==> start + n <= text@.len(),
    ;
}

/// A custom matcher that accepts one fixed string of characters.
pub struct LiteralMatch {
    pub literal: Vec<char>,
}

impl CustomMatch for LiteralMatch {
    open spec fn spec_match(&self, text: Seq<char>, start: int) -> Option<usize> {
        if 0 <= start && start + self.literal@.len() <= text.len()
            && text.subrange(start, start + self.literal@.len()) == self.literal@ {
            Some(self.literal@.len() as usize)
        } else {
            None
        }
    }

    fn match_prefix(&self, text: &Vec<char>, start: usize) -> (r: Option<usize>) {
        let n = self.literal.len();
        let text_len = text.len();
        if n > text_len - start {
            return None;
        }
        let mut i: usize = 0;
        while i < n
            invariant
                0 <= i <= n,
                n == self.literal@.len(),
                text_len == text@.len(),
                start + n <= text_len,
                text@.subrange(start as int, start as int + i as int)
                    =~= self.literal@.subrange(0, i as int),
            decreases n - i,
        {
            if text[start + i] != self.literal[i] {
                proof {
                    assert(text@.subrange(start as int, start as int + self.literal@.len())[i as int]
                        != self.literal@[i as int]);
                }
                return None;
            }
            proof {
                assert(text@.subrange(start as int, start as int + i + 1)
                    =~= text@.subrange(start as int, start as int + i as int).push(text@[start as int + i]));
                assert(self.literal@.subrange(0, i + 1)
                    =~= self.literal@.subrange(0, i as int).push(self.literal@[i as int]));
            }
            i = i + 1;
        }
        proof {
            assert(self.literal@.subrange(0, n as int) =~= self.literal@);
            assert(text@.subrange(start as int, start as int + n as int) == self.literal@);
        }
        Some(n)
    }
}

/// What matching `pattern`, anchored at the start of `text`, consumes: the
/// match length in characters, or `None`. Only the regex engine defines this;
/// the name stands for its answer, which depends on the two arguments alone.
pub uninterp spec fn regex_prefix(pattern: Seq<char>, text: Seq<char>) -> Option<usize>;

/// Relies on regex::Regex::new and regex::Regex::find: the pattern is
/// wrapped so that it is anchored at the start of the remaining text, hence
/// any reported match is a prefix of it, no longer than the text itself. Its
/// length is converted from bytes to characters. A pattern that does not
/// compile reports no match. The answer is a function of the pattern and the
/// remaining text alone.
#[verifier::external_body]
fn regex_prefix_len(pattern: &str, text: &Vec<char>, start: usize) -> (r: Option<usize>)
    requires
        start <= text@.len(),
    ensures
        r == regex_prefix(pattern@, text@.subrange(start as int, text@.len() as int)),
        r matches Some(n) ==> start + n <= text@.len(),
{
    let s: String = text[start..].iter().collect();
    let re = match regex::Regex::new(&format!("\\A(?:{})", pattern)) {
        Ok(re) => re,
        Err(_) => return None,
    };
    let m = re.find(&s)?;
    Some(s[..m.end()].chars().count())
}

/// Relies on String::push: appends exactly the one character.
#[verifier::external_body]
fn push_char(s: &mut String, c: char)
    ensures
        final(s)@ == old(s)@.push(c),
{
    s.push(c);
}

/// What one directive's matcher consumes at a scan position.
pub open spec fn spec_kind_match<M: CustomMatch>(
    kind: DirectiveKind<M>,
    text: Seq<char>,
    pos: int,
) -> Option<usize> {
    match kind {
        DirectiveKind::RegexMatch(p) => regex_prefix(p@, text.subrange(pos, text.len() as int)),
        DirectiveKind::CustomMatch(m) => m.spec_match(text, pos),
    }
}

/// Whether directive `j` accepts a non-empty prefix at `pos`.
pub open spec fn spec_matches_at<M: CustomMatch>(
    dirs: Seq<LexingDirective<M>>,
    j: int,
    text: Seq<char>,
    pos: int,
) -> bool {
    spec_kind_match(dirs[j].kind, text, pos) matches Some(n) && n > 0
}

/// The first directive at or after `i`, in declaration order, whose matcher
/// accepts a non-empty prefix at `pos`, with what it consumes. Declaration
/// order is the tie-break: an earlier directive always wins.
pub open spec fn spec_first_match<M: CustomMatch>(
    dirs: Seq<LexingDirective<M>>,
    i: int,
    text: Seq<char>,
    pos: int,
) -> Option<(int, usize)>
    decreases dirs.len() - i when 0 <= i <= dirs.len()
{
    if i >= dirs.len() {
        None
    } else {
        match spec_kind_match(dirs[i].kind, text, pos) {
            Some(n) => if n > 0 {
                Some((i, n))
            } else {
                spec_first_match(dirs, i + 1, text, pos)
            },
            None => spec_first_match(dirs, i + 1, text, pos),
        }
    }
}

/// Tokenizer ordering: the winning directive is the least matching index.
/// Whenever the scan picks directive `m.0`, no earlier directive accepted a
/// non-empty prefix there; and when the scan finds nothing, no directive did.
pub proof fn lemma_first_match_least<M: CustomMatch>(
    dirs: Seq<LexingDirective<M>>,
    text: Seq<char>,
    pos: int,
)
    ensures
        spec_first_match(dirs, 0, text, pos) matches Some(m) ==> {
            &&& 0 <= m.0 < dirs.len()
            &&& spec_matches_at(dirs, m.0, text, pos)
            &&& spec_kind_match(dirs[m.0].kind, text, pos) == Some(m.1)
            &&& forall|j: int| 0 <= j < m.0 ==> !spec_matches_at(dirs, j, text, pos)
        },
        spec_first_match(dirs, 0, text, pos) is None ==> forall|j: int|
            0 <= j < dirs.len() ==> !spec_matches_at(dirs, j, text, pos),
{
    lemma_first_match_least_from(dirs, 0, text, pos);
}

proof fn lemma_first_match_least_from<M: CustomMatch>(
    dirs: Seq<LexingDirective<M>>,
    i: int,
    text: Seq<char>,
    pos: int,
)
    requires
        0 <= i <= dirs.len(),
    ensures
        spec_first_match(dirs, i, text, pos) matches Some(m) ==> {
            &&& i <= m.0 < dirs.len()
            &&& spec_matches_at(dirs, m.0, text, pos)
            &&& spec_kind_match(dirs[m.0].kind, text, pos) == Some(m.1)
            &&& forall|j: int| i <= j < m.0 ==> !spec_matches_at(dirs, j, text, pos)
        },
        spec_first_match(dirs, i, text, pos) is None ==> forall|j: int|
            i <= j < dirs.len() ==> !spec_matches_at(dirs, j, text, pos),
    decreases dirs.len() - i,
{
    if i < dirs.len() {
        lemma_first_match_least_from(dirs, i + 1, text, pos);
    }
}

/// Where a scan position lands after passing over `s`: a newline steps to the
/// next line's first column, anything else to the next column.
pub open spec fn spec_advance(line: int, column: int, s: Seq<char>) -> (int, int)
    decreases s.len(),
{
    if s.len() == 0 {
        (line, column)
    } else if s[0] == '\n' {
        spec_advance(line + 1, 1, s.subrange(1, s.len() as int))
    } else {
        spec_advance(line, column + 1, s.subrange(1, s.len() as int))
    }
}

/// Passing over `s` grows neither coordinate by more than the length of `s`,
/// and keeps both at least 1.
pub proof fn lemma_advance_bounds(line: int, column: int, s: Seq<char>)
    requires
        1 <= line,
        1 <= column,
    ensures
        ({
            let adv = spec_advance(line, column, s);
            1 <= adv.0 <= line + s.len() && 1 <= adv.1 <= column + s.len()
        }),
    decreases s.len(),
{
    if s.len() > 0 {
        if s[0] == '\n' {
            lemma_advance_bounds(line + 1, 1, s.subrange(1, s.len() as int));
        } else {
            lemma_advance_bounds(line, column + 1, s.subrange(1, s.len() as int));
        }
    }
}

/// Passing over a concatenation is passing over each part in turn.
pub proof fn lemma_advance_concat(line: int, column: int, a: Seq<char>, b: Seq<char>)
    ensures
        spec_advance(line, column, a + b) == ({
            let mid = spec_advance(line, column, a);
            spec_advance(mid.0, mid.1, b)
        }),
    decreases a.len(),
{
    if a.len() == 0 {
        assert(a + b =~= b);
    } else {
        assert((a + b).subrange(1, (a + b).len() as int)
            =~= a.subrange(1, a.len() as int) + b);
        if a[0] == '\n' {
            lemma_advance_concat(line + 1, 1, a.subrange(1, a.len() as int), b);
        } else {
            lemma_advance_concat(line, column + 1, a.subrange(1, a.len() as int), b);
        }
    }
}

/// Advances a position over `text[start..end]`, counting lines and columns.
fn advance_loc(loc: LineColumn, text: &Vec<char>, start: usize, end: usize) -> (r: LineColumn)
    requires
        start <= end <= text@.len(),
        1 <= loc.line,
        1 <= loc.column,
        loc.line + (end - start) <= u32::MAX,
        loc.column + (end - start) <= u32::MAX,
    ensures
        (r.line as int, r.column as int) == spec_advance(
            loc.line as int,
            loc.column as int,
            text@.subrange(start as int, end as int),
        ),
        1 <= r.line,
        1 <= r.column,
{
    let mut line = loc.line;
    let mut column = loc.column;
    let mut i = start;
    while i < end
        invariant
            start <= i <= end <= text@.len(),
            1 <= line,
            1 <= column,
            line <= loc.line + (i - start),
            column <= loc.column + (i - start),
            loc.line + (end - start) <= u32::MAX,
            loc.column + (end - start) <= u32::MAX,
            spec_advance(loc.line as int, loc.column as int, text@.subrange(start as int, end as int))
                == spec_advance(line as int, column as int, text@.subrange(i as int, end as int)),
        decreases end - i,
    {
        proof {
            assert(text@.subrange(i as int, end as int).subrange(1, end - i)
                =~= text@.subrange(i + 1, end as int));
        }
        if text[i] == '\n' {
            line = line + 1;
            column = 1;
        } else {
            column = column + 1;
        }
        i = i + 1;
    }
    proof {
        assert(text@.subrange(end as int, end as int) =~= Seq::<char>::empty());
    }
    LineColumn { line, column }
}

/// What one step of the scan yields at a position: the end of the text, a
/// position no directive matches at, or the first match, with the span it
/// covers. Matches of `ignore` directives are passed over.
pub enum ScanStep {
    Eof,
    Stuck { pos: int, line: int, column: int },
    Found {
        index: int,
        start: int,
        end: int,
        start_line: int,
        start_column: int,
        end_line: int,
        end_column: int,
    },
}

pub open spec fn spec_scan<M: CustomMatch>(
    dirs: Seq<LexingDirective<M>>,
    text: Seq<char>,
    pos: int,
    line: int,
    column: int,
) -> ScanStep
    decreases text.len() - pos when 0 <= pos <= text.len()
{
    if pos == text.len() {
        ScanStep::Eof
    } else {
        match spec_first_match(dirs, 0, text, pos) {
            None => ScanStep::Stuck { pos, line, column },
            Some(m) => {
                if 1 <= m.1 && pos + m.1 <= text.len() {
                    let adv = spec_advance(line, column, text.subrange(pos, pos + m.1));
                    if dirs[m.0].ignore {
                        spec_scan(dirs, text, pos + m.1, adv.0, adv.1)
                    } else {
                        ScanStep::Found {
                            index: m.0,
                            start: pos,
                            end: pos + m.1,
                            start_line: line,
                            start_column: column,
                            end_line: adv.0,
                            end_column: adv.1,
                        }
                    }
                } else {
                    ScanStep::Stuck { pos, line, column }
                }
            },
        }
    }
}

/// A found match sits between the scan position and the end of the text, and
/// is non-empty.
pub proof fn lemma_scan_found_bounds<M: CustomMatch>(
    dirs: Seq<LexingDirective<M>>,
    text: Seq<char>,
    pos: int,
    line: int,
    column: int,
)
    requires
        0 <= pos <= text.len(),
    ensures
        spec_scan(dirs, text, pos, line, column) matches ScanStep::Found { start, end, .. }
            ==> pos <= start < end <= text.len(),
    decreases text.len() - pos,
{
    if pos < text.len() {
        match spec_first_match(dirs, 0, text, pos) {
            None => {},
            Some(m) => {
                if 1 <= m.1 && pos + m.1 <= text.len() {
                    let adv = spec_advance(line, column, text.subrange(pos, pos + m.1));
                    if dirs[m.0].ignore {
                        lemma_scan_found_bounds(dirs, text, pos + m.1, adv.0, adv.1);
                    }
                }
            },
        }
    }
}

/// The description of one token: what a whole scan is stated to produce.
pub struct TokenModel {
    pub kind: int,
    pub name: Seq<char>,
    pub raw: Seq<char>,
    pub start_line: int,
    pub start_column: int,
    pub end_line: int,
    pub end_column: int,
}

/// The description a token gives of itself.
pub open spec fn model_of(t: Token) -> TokenModel {
    TokenModel {
        kind: t.kind as int,
        name: t.name@,
        raw: t.raw@,
        start_line: t.span.spec_start().line as int,
        start_column: t.span.spec_start().column as int,
        end_line: t.span.spec_end().line as int,
        end_column: t.span.spec_end().column as int,
    }
}

/// Whether token `t` of file `file` is what description `m` asks for.
pub open spec fn token_matches(t: Token, file: Seq<char>, m: TokenModel) -> bool {
    model_of(t) == m && t.span.spec_file() == file
}

/// Everything the scan produces from a position to the end of the text: the
/// ordered descriptions of the tokens, or the position of the first failure.
pub open spec fn spec_lex<M: CustomMatch>(
    dirs: Seq<LexingDirective<M>>,
    text: Seq<char>,
    pos: int,
    line: int,
    column: int,
) -> Result<Seq<TokenModel>, (int, int, int)>
    decreases text.len() - pos when 0 <= pos <= text.len()
{
    match spec_scan(dirs, text, pos, line, column) {
        ScanStep::Eof => Ok(Seq::empty()),
        ScanStep::Stuck { pos: p, line: l, column: c } => Err((p, l, c)),
        ScanStep::Found { index, start, end, start_line, start_column, end_line, end_column } => {
            if pos < end <= text.len() {
                let m = TokenModel {
                    kind: index,
                    name: dirs[index].name@,
                    raw: text.subrange(start, end),
                    start_line,
                    start_column,
                    end_line,
                    end_column,
                };
                match spec_lex(dirs, text, end, end_line, end_column) {
                    Ok(rest) => Ok(seq![m] + rest),
                    Err(e) => Err(e),
                }
            } else {
                Err((pos, line, column))
            }
        },
    }
}

/// Builds a `String` out of `text[start..end]`.
fn chars_to_string(text: &Vec<char>, start: usize, end: usize) -> (r: String)
    requires
        start <= end <= text@.len(),
    ensures
        r@ == text@.subrange(start as int, end as int),
{
    let mut r = String::new();
    let mut i = start;
    while i < end
        invariant
            start <= i <= end <= text@.len(),
            r@ == text@.subrange(start as int, i as int),
        decreases end - i,
    {
        push_char(&mut r, text[i]);
        proof {
            assert(text@.subrange(start as int, i + 1)
                =~= text@.subrange(start as int, i as int).push(text@[i as int]));
        }
        i = i + 1;
    }
    r
}

/// The tokenizer's state: the file name, the text, the directive list in
/// declaration order, and the scan position.
pub struct Lexer<M> {
    file: String,
    text: Vec<char>,
    directives: Vec<LexingDirective<M>>,
    pos: usize,
    loc: LineColumn,
}

/// A lexing failure: fatal for the scan, located at the offending position.
#[derive(Debug)]
pub struct LexerError {
    pub message: String,
    pub span: Span,
}

impl<M: CustomMatch> Lexer<M> {
    pub closed spec fn spec_file(&self) -> Seq<char> {
        self.file@
    }

    pub closed spec fn spec_text(&self) -> Seq<char> {
        self.text@
    }

    pub closed spec fn spec_directives(&self) -> Seq<LexingDirective<M>> {
        self.directives@
    }

    pub closed spec fn spec_pos(&self) -> int {
        self.pos as int
    }

    pub closed spec fn spec_loc(&self) -> LineColumn {
        self.loc
    }

    /// The scan position is inside the text, which leaves room in a `u32` for
    /// every line and column, and the location is exactly where passing over
    /// the consumed prefix from line 1, column 1 lands.
    pub open spec fn wf(&self) -> bool {
        &&& 0 <= self.spec_pos() <= self.spec_text().len()
        &&& self.spec_text().len() < u32::MAX
        &&& (self.spec_loc().line as int, self.spec_loc().column as int) == spec_advance(
            1,
            1,
            self.spec_text().subrange(0, self.spec_pos()),
        )
    }

    pub fn new(file: String, text: Vec<char>, directives: Vec<LexingDirective<M>>) -> (r: Lexer<M>)
        requires
            text@.len() < u32::MAX,
        ensures
            r.wf(),
            r.spec_file() == file@,
            r.spec_text() == text@,
            r.spec_directives() == directives@,
            r.spec_pos() == 0,
            r.spec_loc() == (LineColumn { line: 1, column: 1 }),
    {
        proof {
            assert(text@.subrange(0, 0) =~= Seq::<char>::empty());
        }
        Lexer { file, text, directives, pos: 0, loc: LineColumn { line: 1, column: 1 } }
    }

    /// The first directive, in declaration order, that accepts a non-empty
    /// prefix at the scan position.
    fn find_first_match(&self) -> (r: Option<(usize, usize)>)
        requires
            self.wf(),
        ensures
            match r {
                Some(m) => {
                    &&& spec_first_match(self.spec_directives(), 0, self.spec_text(), self.spec_pos())
                        == Some((m.0 as int, m.1))
                    &&& m.0 < self.spec_directives().len()
                    &&& 1 <= m.1
                    &&& self.spec_pos() + m.1 <= self.spec_text().len()
                },
                None => spec_first_match(self.spec_directives(), 0, self.spec_text(), self.spec_pos())
                    is None,
            },
    {
        let ghost dirs = self.spec_directives();
        let ghost text = self.spec_text();
        let ghost pos = self.spec_pos();
        let mut i: usize = 0;
        while i < self.directives.len()
            invariant
                self.wf(),
                0 <= i <= dirs.len(),
                dirs == self.spec_directives(),
                text == self.spec_text(),
                pos == self.spec_pos(),
                spec_first_match(dirs, 0, text, pos) == spec_first_match(dirs, i as int, text, pos),
            decreases self.directives@.len() - i,
        {
            let d = &self.directives[i];
            let n_opt = match &d.kind {
                DirectiveKind::RegexMatch(p) => regex_prefix_len(p.as_str(), &self.text, self.pos),
                DirectiveKind::CustomMatch(m) => m.match_prefix(&self.text, self.pos),
            };
            match n_opt {
                Some(n) => {
                    if n > 0 {
                        return Some((i, n));
                    }
                },
                None => {},
            }
            i = i + 1;
        }
        None
    }

    /// Scans forward to the next token: matches of `ignore` directives are
    /// consumed silently; the first other match is returned as a token;
    /// `Ok(None)` reports the end of the text; a position nothing matches at
    /// is a fatal lexing error naming the unrecognized character.
    pub fn read_next_token(&mut self) -> (r: Result<Option<Token>, LexerError>)
        requires
            old(self).wf(),
        ensures
            final(self).wf(),
            final(self).spec_file() == old(self).spec_file(),
            final(self).spec_text() == old(self).spec_text(),
            final(self).spec_directives() == old(self).spec_directives(),
            ({
                let dirs = old(self).spec_directives();
                let text = old(self).spec_text();
                let file = old(self).spec_file();
                match spec_scan(
                    dirs,
                    text,
                    old(self).spec_pos(),
                    old(self).spec_loc().line as int,
                    old(self).spec_loc().column as int,
                ) {
                    ScanStep::Eof => match r {
                        Ok(o) => o is None && final(self).spec_pos() == text.len(),
                        Err(_) => false,
                    },
                    ScanStep::Stuck { pos, line, column } => match r {
                        Ok(_) => false,
                        Err(e) => {
                            &&& final(self).spec_pos() == pos
                            &&& final(self).spec_loc().line as int == line
                            &&& final(self).spec_loc().column as int == column
                            &&& e.message@ == "Unrecognized character: "@.push(text[pos])
                            &&& e.span.spec_file() == file
                            &&& e.span.spec_start() == final(self).spec_loc()
                            &&& e.span.spec_end() == final(self).spec_loc()
                        },
                    },
                    ScanStep::Found {
                        index,
                        start,
                        end,
                        start_line,
                        start_column,
                        end_line,
                        end_column,
                    } => match r {
                        Ok(o) => match o {
                            Some(t) => {
                                &&& t.kind as int == index
                                &&& t.name@ == dirs[index].name@
                                &&& t.raw@ == text.subrange(start, end)
                                &&& t.span.spec_file() == file
                                &&& t.span.spec_start().line as int == start_line
                                &&& t.span.spec_start().column as int == start_column
                                &&& t.span.spec_end().line as int == end_line
                                &&& t.span.spec_end().column as int == end_column
                                &&& final(self).spec_pos() == end
                                &&& final(self).spec_loc() == t.span.spec_end()
                            },
                            None => false,
                        },
                        Err(_) => false,
                    },
                }
            }),
    {
        let ghost dirs = old(self).spec_directives();
        let ghost text = old(self).spec_text();
        let ghost file = old(self).spec_file();
        let ghost pos0 = old(self).spec_pos();
        let ghost line0 = old(self).spec_loc().line as int;
        let ghost col0 = old(self).spec_loc().column as int;
        loop
            invariant
                self.wf(),
                file == old(self).spec_file(),
                text == old(self).spec_text(),
                dirs == old(self).spec_directives(),
                pos0 == old(self).spec_pos(),
                line0 == old(self).spec_loc().line as int,
                col0 == old(self).spec_loc().column as int,
                0 <= pos0 <= text.len(),
                self.spec_file() == file,
                self.spec_text() == text,
                self.spec_directives() == dirs,
                spec_scan(dirs, text, pos0, line0, col0) == spec_scan(
                    dirs,
                    text,
                    self.spec_pos(),
                    self.spec_loc().line as int,
                    self.spec_loc().column as int,
                ),
            decreases text.len() - self.spec_pos(),
        {
            if self.pos == self.text.len() {
                return Ok(None);
            }
            match self.find_first_match() {
                None => {
                    let c = self.text[self.pos];
                    let mut msg = "Unrecognized character: ".to_owned();
                    push_char(&mut msg, c);
                    let sp = Span::new(self.file.clone(), self.loc, self.loc);
                    return Err(LexerError { message: msg, span: sp });
                },
                Some((i, n)) => {
                    let ghost cur = self.spec_pos();
                    let end = self.pos + n;
                    proof {
                        lemma_advance_bounds(1, 1, text.subrange(0, cur));
                        lemma_advance_concat(1, 1, text.subrange(0, cur), text.subrange(cur, cur + n));
                        assert(text.subrange(0, cur) + text.subrange(cur, cur + n)
                            =~= text.subrange(0, cur + n));
                    }
                    let new_loc = advance_loc(self.loc, &self.text, self.pos, end);
                    let d = &self.directives[i];
                    if d.ignore {
                        self.pos = end;
                        self.loc = new_loc;
                    } else {
                        let raw = chars_to_string(&self.text, self.pos, end);
                        let name = d.name.clone();
                        let sp = Span::new(self.file.clone(), self.loc, new_loc);
                        let t = Token { kind: i as u64, name, raw, span: sp };
                        self.pos = end;
                        self.loc = new_loc;
                        return Ok(Some(t));
                    }
                },
            }
        }
    }

    /// Runs the scan over the whole text: the ordered sequence of every
    /// token, or the first lexing failure, exactly as `spec_lex` describes.
    pub fn read_all_tokens(&mut self) -> (r: Result<Vec<Token>, LexerError>)
        requires
            old(self).wf(),
        ensures
            final(self).wf(),
            final(self).spec_file() == old(self).spec_file(),
            final(self).spec_text() == old(self).spec_text(),
            final(self).spec_directives() == old(self).spec_directives(),
            ({
                let dirs = old(self).spec_directives();
                let text = old(self).spec_text();
                let file = old(self).spec_file();
                match spec_lex(
                    dirs,
                    text,
                    old(self).spec_pos(),
                    old(self).spec_loc().line as int,
                    old(self).spec_loc().column as int,
                ) {
                    Ok(models) => match r {
                        Ok(v) => v@.len() == models.len() && (forall|j: int|
                            0 <= j < models.len() ==> #[trigger] token_matches(v@[j], file, models[j])),
                        Err(_) => false,
                    },
                    Err(e) => match r {
                        Ok(_) => false,
                        Err(le) => {
                            &&& final(self).spec_pos() == e.0
                            &&& final(self).spec_loc().line as int == e.1
                            &&& final(self).spec_loc().column as int == e.2
                            &&& le.message@ == "Unrecognized character: "@.push(text[e.0])
                            &&& le.span.spec_file() == file
                            &&& le.span.spec_start() == final(self).spec_loc()
                            &&& le.span.spec_end() == final(self).spec_loc()
                        },
                    },
                }
            }),
    {
        let ghost dirs = old(self).spec_directives();
        let ghost text = old(self).spec_text();
        let ghost file = old(self).spec_file();
        let ghost pos0 = old(self).spec_pos();
        let ghost line0 = old(self).spec_loc().line as int;
        let ghost col0 = old(self).spec_loc().column as int;
        let mut v: Vec<Token> = Vec::new();
        loop
            invariant
                self.wf(),
                dirs == old(self).spec_directives(),
                text == old(self).spec_text(),
                file == old(self).spec_file(),
                pos0 == old(self).spec_pos(),
                line0 == old(self).spec_loc().line as int,
                col0 == old(self).spec_loc().column as int,
                0 <= pos0 <= text.len(),
                self.spec_file() == file,
                self.spec_text() == text,
                self.spec_directives() == dirs,
                forall|j: int| 0 <= j < v@.len() ==> (#[trigger] v@[j]).span.spec_file() == file,
                match spec_lex(
                    dirs,
                    text,
                    self.spec_pos(),
                    self.spec_loc().line as int,
                    self.spec_loc().column as int,
                ) {
                    Ok(rest) => spec_lex(dirs, text, pos0, line0, col0)
                        == Ok::<Seq<TokenModel>, (int, int, int)>(
                            v@.map_values(|t: Token| model_of(t)) + rest,
                        ),
                    Err(e) => spec_lex(dirs, text, pos0, line0, col0)
                        == Err::<Seq<TokenModel>, (int, int, int)>(e),
                },
            decreases text.len() - self.spec_pos(),
        {
            let ghost cur = self.spec_pos();
            let ghost cur_line = self.spec_loc().line as int;
            let ghost cur_col = self.spec_loc().column as int;
            proof {
                lemma_scan_found_bounds(dirs, text, cur, cur_line, cur_col);
            }
            match self.read_next_token() {
                Ok(Some(t)) => {
                    let ghost old_models = v@.map_values(|t: Token| model_of(t));
                    v.push(t);
                    proof {
                        let f = |t: Token| model_of(t);
                        assert(v@.map_values(f) =~= old_models.push(model_of(t)));
                        let step = spec_scan(dirs, text, cur, cur_line, cur_col);
                        match step {
                            ScanStep::Found { index, start, end, start_line, start_column, end_line, end_column } => {
                                let m = TokenModel {
                                    kind: index,
                                    name: dirs[index].name@,
                                    raw: text.subrange(start, end),
                                    start_line,
                                    start_column,
                                    end_line,
                                    end_column,
                                };
                                assert(model_of(t) == m);
                                match spec_lex(dirs, text, end, end_line, end_column) {
                                    Ok(rest2) => {
                                        assert(spec_lex(dirs, text, cur, cur_line, cur_col)
                                            == Ok::<Seq<TokenModel>, (int, int, int)>(seq![m] + rest2));
                                        assert(old_models + (seq![m] + rest2)
                                            =~= old_models.push(m) + rest2);
                                    },
                                    Err(_) => {},
                                }
                            },
                            _ => {
                                assert(false);
                            },
                        }
                    }
                },
                Ok(None) => {
                    proof {
                        assert(spec_lex(dirs, text, cur, cur_line, cur_col)
                            == Ok::<Seq<TokenModel>, (int, int, int)>(Seq::empty()));
                        assert(v@.map_values(|t: Token| model_of(t)) + Seq::<TokenModel>::empty()
                            =~= v@.map_values(|t: Token| model_of(t)));
                        match spec_lex(dirs, text, pos0, line0, col0) {
                            Ok(models) => {
                                assert(models == v@.map_values(|t: Token| model_of(t)));
                                assert(forall|j: int| 0 <= j < models.len()
                                    ==> #[trigger] token_matches(v@[j], file, models[j]));
                            },
                            Err(_) => {},
                        }
                    }
                    return Ok(v);
                },
                Err(e) => {
                    return Err(e);
                },
            }
        }
    }
}

} // verus!
