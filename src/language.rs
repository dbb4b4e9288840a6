//! The statistics record of one language and the row it prints as.
use vstd::prelude::*;

verus! {

/// The running counts of one language, as unbounded numbers.
pub ghost struct Counts {
    pub code: nat,
    pub comments: nat,
    pub blanks: nat,
    pub lines: nat,
    pub total: nat,
}

/// Names one of the five counters of a record.
pub ghost enum Counter {
    Code,
    Comments,
    Blanks,
    Lines,
    Total,
}

impl Counts {
    pub open spec fn zero() -> Counts {
        Counts { code: 0, comments: 0, blanks: 0, lines: 0, total: 0 }
    }

    pub open spec fn get(self, c: Counter) -> nat {
        match c {
            Counter::Code => self.code,
            Counter::Comments => self.comments,
            Counter::Blanks => self.blanks,
            Counter::Lines => self.lines,
            Counter::Total => self.total,
        }
    }

    /// The counts after `n` is added to counter `c`.
    pub open spec fn add(self, c: Counter, n: nat) -> Counts {
        match c {
            Counter::Code => Counts { code: self.code + n, ..self },
            Counter::Comments => Counts { comments: self.comments + n, ..self },
            Counter::Blanks => Counts { blanks: self.blanks + n, ..self },
            Counter::Lines => Counts { lines: self.lines + n, ..self },
            Counter::Total => Counts { total: self.total + n, ..self },
        }
    }

    /// No code, comment, blank or physical line has been counted.
    pub open spec fn is_empty(self) -> bool {
        self.code == 0 && self.comments == 0 && self.blanks == 0 && self.lines == 0
    }

    /// The counts after each `(counter, n)` of `ops` is added in turn.
    pub open spec fn add_all(self, ops: Seq<(Counter, nat)>) -> Counts
        decreases ops.len(),
    {
        if ops.len() == 0 {
            self
        } else {
            self.add_all(ops.drop_last()).add(ops.last().0, ops.last().1)
        }
    }
}

/// What the addition `op` contributes to counter `c`.
pub open spec fn share(op: (Counter, nat), c: Counter) -> nat {
    if op.0 == c {
        op.1
    } else {
        0
    }
}

/// The sum of the increments in `ops` that go to counter `c`.
pub open spec fn sum_for(ops: Seq<(Counter, nat)>, c: Counter) -> nat
    decreases ops.len(),
{
    if ops.len() == 0 {
        0
    } else {
        sum_for(ops.drop_last(), c) + share(ops.last(), c)
    }
}

proof fn lemma_sum_for_remove(ops: Seq<(Counter, nat)>, i: int, c: Counter)
    requires
        0 <= i < ops.len(),
    ensures
        sum_for(ops, c) == sum_for(ops.remove(i), c) + share(ops[i], c),
    decreases ops.len(),
{
    if i == ops.len() - 1 {
        assert(ops.remove(i) =~= ops.drop_last());
    } else {
        lemma_sum_for_remove(ops.drop_last(), i, c);
        assert(ops.remove(i).drop_last() =~= ops.drop_last().remove(i));
        assert(ops.remove(i).last() == ops.last());
    }
}

proof fn lemma_sum_for_permutation(ops: Seq<(Counter, nat)>, other: Seq<(Counter, nat)>, c: Counter)
    requires
        ops.to_multiset() =~= other.to_multiset(),
    ensures
        sum_for(ops, c) == sum_for(other, c),
    decreases ops.len(),
{
    broadcast use vstd::seq_lib::group_to_multiset_ensures;

    if ops.len() == 0 {
        assert(other.to_multiset().len() == 0);
        assert(other.len() == 0);
    } else {
        let x = ops.last();
        let rest = ops.drop_last();
        assert(ops =~= rest.push(x));
        assert(other.to_multiset().count(x) > 0);
        assert(other.contains(x));
        let j = choose|j: int| 0 <= j < other.len() && other[j] == x;
        assert(rest.to_multiset() =~= other.remove(j).to_multiset());
        lemma_sum_for_permutation(rest, other.remove(j), c);
        lemma_sum_for_remove(other, j, c);
    }
}

/// After a sequence of additions each counter equals its starting value plus
/// the sum of the increments made to it.
pub proof fn lemma_additions_sum(start: Counts, ops: Seq<(Counter, nat)>, c: Counter)
    ensures
        start.add_all(ops).get(c) == start.get(c) + sum_for(ops, c),
    decreases ops.len(),
{
    if ops.len() > 0 {
        lemma_additions_sum(start, ops.drop_last(), c);
    }
}

/// The order of the additions does not matter: any reordering of the same
/// additions leads to the same counts.
pub proof fn lemma_additions_commute(
    start: Counts,
    ops: Seq<(Counter, nat)>,
    other: Seq<(Counter, nat)>,
)
    requires
        ops.to_multiset() =~= other.to_multiset(),
    ensures
        start.add_all(ops) == start.add_all(other),
{
    lemma_additions_sum(start, ops, Counter::Code);
    lemma_additions_sum(start, other, Counter::Code);
    lemma_sum_for_permutation(ops, other, Counter::Code);
    lemma_additions_sum(start, ops, Counter::Comments);
    lemma_additions_sum(start, other, Counter::Comments);
    lemma_sum_for_permutation(ops, other, Counter::Comments);
    lemma_additions_sum(start, ops, Counter::Blanks);
    lemma_additions_sum(start, other, Counter::Blanks);
    lemma_sum_for_permutation(ops, other, Counter::Blanks);
    lemma_additions_sum(start, ops, Counter::Lines);
    lemma_additions_sum(start, other, Counter::Lines);
    lemma_sum_for_permutation(ops, other, Counter::Lines);
    lemma_additions_sum(start, ops, Counter::Total);
    lemma_additions_sum(start, other, Counter::Total);
    lemma_sum_for_permutation(ops, other, Counter::Total);
}

/// Adding `n1` and then `n2` to a counter is the same as adding `n1 + n2` once.
pub proof fn lemma_add_split(m: LanguageModel, c: Counter, n1: nat, n2: nat)
    ensures
        m.added(c, n1).added(c, n2) == m.added(c, n1 + n2),
{
}

/// The abstract state of a `Language` record.
pub ghost struct LanguageModel {
    pub name: Seq<char>,
    pub line_comment: Seq<char>,
    pub multi_line_start: Seq<char>,
    pub multi_line_end: Seq<char>,
    pub files: Seq<Seq<char>>,
    pub counts: Counts,
    pub printed: bool,
}

impl LanguageModel {
    /// A record just made: no files, every counter at zero, not printed.
    pub open spec fn fresh(
        name: Seq<char>,
        line_comment: Seq<char>,
        multi_line_start: Seq<char>,
        multi_line_end: Seq<char>,
    ) -> LanguageModel {
        LanguageModel {
            name,
            line_comment,
            multi_line_start,
            multi_line_end,
            files: Seq::empty(),
            counts: Counts::zero(),
            printed: false,
        }
    }

    pub open spec fn added(self, c: Counter, n: nat) -> LanguageModel {
        LanguageModel { counts: self.counts.add(c, n), ..self }
    }

    pub open spec fn with_file(self, path: Seq<char>) -> LanguageModel {
        LanguageModel { files: self.files.push(path), ..self }
    }

    pub open spec fn with_printed(self, printed: bool) -> LanguageModel {
        LanguageModel { printed, ..self }
    }

    pub open spec fn is_empty(self) -> bool {
        self.counts.is_empty()
    }

    /// The total shown in a row: the display total where it is set, else the number of files.
    pub open spec fn effective_total(self) -> nat {
        if self.counts.total == 0 {
            self.files.len()
        } else {
            self.counts.total
        }
    }

    /// The summary row: a space, the name left-aligned, then the effective total,
    /// lines, blanks, comments and code right-aligned, each in a column of
    /// `COLUMN_WIDTH` characters and preceded by a space.
    pub open spec fn row(self) -> Seq<char> {
        seq![' '] + pad_right(self.name, COLUMN_WIDTH as nat) + seq![' '] + pad_left(
            decimal(self.effective_total()),
            COLUMN_WIDTH as nat,
        ) + seq![' '] + pad_left(decimal(self.counts.lines), COLUMN_WIDTH as nat) + seq![' ']
            + pad_left(decimal(self.counts.blanks), COLUMN_WIDTH as nat) + seq![' '] + pad_left(
            decimal(self.counts.comments),
            COLUMN_WIDTH as nat,
        ) + seq![' '] + pad_left(decimal(self.counts.code), COLUMN_WIDTH as nat)
    }
}

/// The width of each column of a summary row.
pub const COLUMN_WIDTH: usize = 15;

pub open spec fn spaces(n: nat) -> Seq<char> {
    Seq::new(n, |i: int| ' ')
}

/// `s` followed by spaces up to `width` characters; `s` itself where it is as long already.
pub open spec fn pad_right(s: Seq<char>, width: nat) -> Seq<char> {
    if s.len() < width {
        s + spaces((width - s.len()) as nat)
    } else {
        s
    }
}

/// `s` preceded by spaces up to `width` characters; `s` itself where it is as long already.
pub open spec fn pad_left(s: Seq<char>, width: nat) -> Seq<char> {
    if s.len() < width {
        spaces((width - s.len()) as nat) + s
    } else {
        s
    }
}

pub open spec fn digit_chars() -> Seq<char> {
    seq!['0', '1', '2', '3', '4', '5', '6', '7', '8', '9']
}

/// The decimal digits of `n`, most significant first, without leading zeros.
pub open spec fn decimal(n: nat) -> Seq<char>
    decreases n,
{
    if n < 10 {
        seq![digit_chars()[n as int]]
    } else {
        decimal(n / 10).push(digit_chars()[(n % 10) as int])
    }
}

/// Every record is empty when made.
pub proof fn lemma_fresh_is_empty(
    name: Seq<char>,
    line_comment: Seq<char>,
    multi_line_start: Seq<char>,
    multi_line_end: Seq<char>,
)
    ensures
        LanguageModel::fresh(name, line_comment, multi_line_start, multi_line_end).is_empty(),
{
}

/// A non-zero addition to code, comments, blanks or lines makes a record
/// non-empty; an addition to the display total or a new file leaves emptiness
/// as it was.
pub proof fn lemma_emptiness_after_changes(m: LanguageModel, c: Counter, n: nat, path: Seq<char>)
    ensures
        c != Counter::Total && n > 0 ==> !m.added(c, n).is_empty(),
        m.added(Counter::Total, n).is_empty() == m.is_empty(),
        m.with_file(path).is_empty() == m.is_empty(),
{
}

/// `//`, which opens a C-style line comment.
pub open spec fn c_line() -> Seq<char> {
    seq!['/', '/']
}

/// `/*`, which opens a C-style block comment.
pub open spec fn c_block_start() -> Seq<char> {
    seq!['/', '*']
}

/// `*/`, which closes a C-style block comment.
pub open spec fn c_block_end() -> Seq<char> {
    seq!['*', '/']
}

/// `<!--`, which opens a markup comment.
pub open spec fn markup_start() -> Seq<char> {
    seq!['<', '!', '-', '-']
}

/// `-->`, which closes a markup comment.
pub open spec fn markup_end() -> Seq<char> {
    seq!['-', '-', '>']
}

/// The one-character text of a decimal digit.
fn digit_str(d: usize) -> (r: &'static str)
    requires
        d < 10,
    ensures
        r@ == seq![digit_chars()[d as int]],
{
    proof {
        reveal_strlit("0");
        reveal_strlit("1");
        reveal_strlit("2");
        reveal_strlit("3");
        reveal_strlit("4");
        reveal_strlit("5");
        reveal_strlit("6");
        reveal_strlit("7");
        reveal_strlit("8");
        reveal_strlit("9");
    }
    let r = if d == 0 {
        "0"
    } else if d == 1 {
        "1"
    } else if d == 2 {
        "2"
    } else if d == 3 {
        "3"
    } else if d == 4 {
        "4"
    } else if d == 5 {
        "5"
    } else if d == 6 {
        "6"
    } else if d == 7 {
        "7"
    } else if d == 8 {
        "8"
    } else {
        "9"
    };
    assert(r@ =~= seq![digit_chars()[d as int]]);
    r
}

/// The decimal text of `n`.
fn decimal_string(n: usize) -> (r: String)
    ensures
        r@ == decimal(n as nat),
    decreases n,
{
    if n < 10 {
        String::from_str(digit_str(n))
    } else {
        let mut r = decimal_string(n / 10);
        r.append(digit_str(n % 10));
        assert(r@ =~= decimal(n as nat));
        r
    }
}

/// Appends `count` spaces to `out`.
fn append_spaces(out: &mut String, count: usize)
    ensures
        final(out)@ == old(out)@ + spaces(count as nat),
{
    let mut i: usize = 0;
    while i < count
        invariant
            i <= count,
            out@ == old(out)@ + spaces(i as nat),
        decreases count - i,
    {
        proof {
            reveal_strlit(" ");
        }
        out.append(" ");
        i = i + 1;
        assert(out@ =~= old(out)@ + spaces(i as nat));
    }
}

/// Appends `s`, padded on the right to `width` characters, to `out`.
fn append_left_aligned(out: &mut String, s: &str, width: usize)
    ensures
        final(out)@ == old(out)@ + pad_right(s@, width as nat),
{
    let len = s.unicode_len();
    out.append(s);
    if len < width {
        append_spaces(out, width - len);
    }
    assert(out@ =~= old(out)@ + pad_right(s@, width as nat));
}

/// Appends the decimal text of `n`, padded on the left to `width` characters, to `out`.
fn append_right_aligned(out: &mut String, n: usize, width: usize)
    ensures
        final(out)@ == old(out)@ + pad_left(decimal(n as nat), width as nat),
{
    let digits = decimal_string(n);
    let len = digits.as_str().unicode_len();
    if len < width {
        append_spaces(out, width - len);
    }
    out.append(digits.as_str());
    assert(out@ =~= old(out)@ + pad_left(decimal(n as nat), width as nat));
}

/// Comment syntax and running line counts of one programming language.
pub struct Language<'a> {
    pub name: &'a str,
    pub line_comment: &'a str,
    pub multi_line_start: &'a str,
    pub multi_line_end: &'a str,
    pub files: Vec<String>,
    pub code: usize,
    pub comments: usize,
    pub blanks: usize,
    pub lines: usize,
    pub total: usize,
    pub printed: bool,
}

impl<'a> View for Language<'a> {
    type V = LanguageModel;

    open spec fn view(&self) -> LanguageModel {
        LanguageModel {
            name: self.name@,
            line_comment: self.line_comment@,
            multi_line_start: self.multi_line_start@,
            multi_line_end: self.multi_line_end@,
            files: self.files@.map_values(|f: String| f@),
            counts: Counts {
                code: self.code as nat,
                comments: self.comments as nat,
                blanks: self.blanks as nat,
                lines: self.lines as nat,
                total: self.total as nat,
            },
            printed: self.printed,
        }
    }
}

impl<'a> Language<'a> {
    /// A record with the comment syntax given in full.
    pub fn new<'b>(
        name: &'a str,
        line_comment: &'a str,
        multi_line_start: &'a str,
        multi_line_end: &'a str,
    ) -> (r: Language<'a>)
        ensures
            r@ == LanguageModel::fresh(name@, line_comment@, multi_line_start@, multi_line_end@),
    {
        let r = Language {
            name,
            line_comment,
            multi_line_start,
            multi_line_end,
            files: Vec::new(),
            code: 0,
            comments: 0,
            blanks: 0,
            lines: 0,
            total: 0,
            printed: false,
        };
        assert(r@.files =~= Seq::empty());
        r
    }

    /// A record for a language with C-style comments: `//` and `/* ... */`.
    pub fn new_c(name: &'a str) -> (r: Language<'a>)
        ensures
            r@ == LanguageModel::fresh(name@, c_line(), c_block_start(), c_block_end()),
    {
        proof {
            reveal_strlit("//");
            reveal_strlit("/*");
            reveal_strlit("*/");
        }
        let r = Language::new(name, "//", "/*", "*/");
        assert(r@.line_comment =~= c_line());
        assert(r@.multi_line_start =~= c_block_start());
        assert(r@.multi_line_end =~= c_block_end());
        r
    }

    /// A record for a markup language: `<!--` opens both kinds of comment, `-->` closes one.
    pub fn new_html(name: &'a str) -> (r: Language<'a>)
        ensures
            r@ == LanguageModel::fresh(name@, markup_start(), markup_start(), markup_end()),
    {
        proof {
            reveal_strlit("<!--");
            reveal_strlit("-->");
        }
        let r = Language::new(name, "<!--", "<!--", "-->");
        assert(r@.line_comment =~= markup_start());
        assert(r@.multi_line_end =~= markup_end());
        r
    }

    /// A record for a language without comments: all three comment tokens are empty.
    pub fn new_blank(name: &'a str) -> (r: Language<'a>)
        ensures
            r@ == LanguageModel::fresh(name@, Seq::empty(), Seq::empty(), Seq::empty()),
    {
        proof {
            reveal_strlit("");
        }
        let r = Language::new(name, "", "", "");
        assert(r@.line_comment =~= Seq::<char>::empty());
        r
    }

    /// A record for a language with line comments only.
    pub fn new_single(name: &'a str, line_comment: &'a str) -> (r: Language<'a>)
        ensures
            r@ == LanguageModel::fresh(name@, line_comment@, Seq::empty(), Seq::empty()),
    {
        proof {
            reveal_strlit("");
        }
        let r = Language::new(name, line_comment, "", "");
        assert(r@.multi_line_start =~= Seq::<char>::empty());
        r
    }

    /// Whether no code, comment, blank or physical line has been counted;
    /// the files and the display total play no part.
    pub fn is_empty(&self) -> (r: bool)
        ensures
            r == self@.is_empty(),
    {
        self.code == 0 && self.comments == 0 && self.blanks == 0 && self.lines == 0
    }

    /// Adds `num` to the count of lines of code.
    pub fn add_code(&mut self, num: usize)
        requires
            old(self).code + num <= usize::MAX,
        ensures
            final(self)@ == old(self)@.added(Counter::Code, num as nat),
    {
        self.code = self.code + num;
    }

    /// Adds `num` to the count of comment lines.
    pub fn add_comments(&mut self, num: usize)
        requires
            old(self).comments + num <= usize::MAX,
        ensures
            final(self)@ == old(self)@.added(Counter::Comments, num as nat),
    {
        self.comments = self.comments + num;
    }

    /// Adds `num` to the count of blank lines.
    pub fn add_blanks(&mut self, num: usize)
        requires
            old(self).blanks + num <= usize::MAX,
        ensures
            final(self)@ == old(self)@.added(Counter::Blanks, num as nat),
    {
        self.blanks = self.blanks + num;
    }

    /// Adds `num` to the count of physical lines.
    pub fn add_lines(&mut self, num: usize)
        requires
            old(self).lines + num <= usize::MAX,
        ensures
            final(self)@ == old(self)@.added(Counter::Lines, num as nat),
    {
        self.lines = self.lines + num;
    }

    /// Adds `num` to the display total.
    pub fn add_total(&mut self, num: usize)
        requires
            old(self).total + num <= usize::MAX,
        ensures
            final(self)@ == old(self)@.added(Counter::Total, num as nat),
    {
        self.total = self.total + num;
    }

    /// Appends a file path to the files of this language.
    pub fn add_file(&mut self, path: String)
        ensures
            final(self)@ == old(self)@.with_file(path@),
    {
        self.files.push(path);
        assert(self@.files =~= old(self)@.files.push(path@));
    }

    /// The total shown in the summary row: `total` where it is not zero, else the number of files.
    pub fn effective_total(&self) -> (r: usize)
        ensures
            r == self@.effective_total(),
    {
        if self.total == 0 {
            self.files.len()
        } else {
            self.total
        }
    }

    /// The summary row of this language, as the report prints it.
    pub fn to_string(&self) -> (r: String)
        ensures
            r@ == self@.row(),
    {
        proof {
            reveal_strlit(" ");
        }
        let mut out = String::from_str(" ");
        append_left_aligned(&mut out, self.name, COLUMN_WIDTH);
        out.append(" ");
        append_right_aligned(&mut out, self.effective_total(), COLUMN_WIDTH);
        out.append(" ");
        append_right_aligned(&mut out, self.lines, COLUMN_WIDTH);
        out.append(" ");
        append_right_aligned(&mut out, self.blanks, COLUMN_WIDTH);
        out.append(" ");
        append_right_aligned(&mut out, self.comments, COLUMN_WIDTH);
        out.append(" ");
        append_right_aligned(&mut out, self.code, COLUMN_WIDTH);
        assert(out@ =~= self@.row());
        out
    }

    /// Records whether the row of this language has been printed.
    pub fn printed(&mut self, printed: bool)
        ensures
            final(self)@ == old(self)@.with_printed(printed),
    {
        self.printed = printed;
    }
}

} // verus!
