//! Text as sequences of characters: the small operations every screen is
//! built from, each with the sequence it gives.

use crate::outside::{columns, display_width, is_plain, is_whitespace, white_space};
use crate::views::{group_views, views};
use vstd::prelude::*;

verus! {

broadcast use group_views;

// ── Building ─────────────────────────────────────────────────────────────────

/// The characters of a text, in order.
pub fn chars_of(text: &str) -> (chars: Vec<char>)
    ensures
        chars@ == text@,
{
    let mut chars: Vec<char> = Vec::new();
    for c in iter: text.chars()
        invariant
            iter.seq() == text@,
            chars@ == text@.take(iter.index() as int),
    {
        chars.push(c);
        proof {
            assert(text@.take(iter.index() as int + 1) == text@.take(iter.index() as int).push(c));
        }
    }
    proof {
        assert(text@.take(text@.len() as int) == text@);
    }
    chars
}

/// The text of the characters from `from` up to `to`.
pub fn text_between(chars: &Vec<char>, from: usize, to: usize) -> (text: String)
    requires
        from <= to <= chars@.len(),
    ensures
        text@ == chars@.subrange(from as int, to as int),
{
    let mut text = String::new();
    let mut i: usize = from;
    while i < to
        invariant
            from <= i <= to <= chars@.len(),
            text@ == chars@.subrange(from as int, i as int),
        decreases to - i,
    {
        text.push(chars[i]);
        i = i + 1;
        proof {
            assert(chars@.subrange(from as int, i as int) == chars@.subrange(
                from as int,
                i as int - 1,
            ).push(chars@[i as int - 1]));
        }
    }
    text
}

/// A copy of a text.
pub fn copy_of(text: &str) -> (copy: String)
    ensures
        copy@ == text@,
{
    String::from_str(text)
}

/// A copy of an optional text.
pub fn copy_opt(text: &Option<String>) -> (copy: Option<String>)
    ensures
        copy is Some <==> text is Some,
        text matches Some(t) ==> copy->0@ == t@,
{
    match text {
        Some(t) => Some(copy_of(t.as_str())),
        None => None,
    }
}

/// An optional text as characters.
pub open spec fn opt_text(text: Option<String>) -> Option<Seq<char>> {
    match text {
        Some(t) => Some(t@),
        None => None,
    }
}

/// Copies of several texts.
pub fn copy_all(texts: &Vec<String>) -> (copies: Vec<String>)
    ensures
        views(copies@) == views(texts@),
{
    let mut copies: Vec<String> = Vec::new();
    let mut i: usize = 0;
    while i < texts.len()
        invariant
            i <= texts@.len(),
            copies@.len() == i,
            forall|j: int| 0 <= j < i ==> copies@[j]@ == texts@[j]@,
        decreases texts.len() - i,
    {
        copies.push(copy_of(texts[i].as_str()));
        i = i + 1;
    }
    proof {
        assert(views(copies@) =~= views(texts@));
    }
    copies
}

/// Two texts, one after the other.
pub fn cat2(a: &str, b: &str) -> (text: String)
    ensures
        text@ == a@ + b@,
{
    let mut text = String::from_str(a);
    text.append(b);
    text
}

/// Three texts, one after the other.
pub fn cat3(a: &str, b: &str, c: &str) -> (text: String)
    ensures
        text@ == a@ + b@ + c@,
{
    let mut text = cat2(a, b);
    text.append(c);
    text
}

/// Four texts, one after the other.
pub fn cat4(a: &str, b: &str, c: &str, d: &str) -> (text: String)
    ensures
        text@ == a@ + b@ + c@ + d@,
{
    let mut text = cat3(a, b, c);
    text.append(d);
    text
}

/// Five texts, one after the other.
pub fn cat5(a: &str, b: &str, c: &str, d: &str, e: &str) -> (text: String)
    ensures
        text@ == a@ + b@ + c@ + d@ + e@,
{
    let mut text = cat4(a, b, c, d);
    text.append(e);
    text
}

/// `unit` written `count` times.
pub open spec fn repeated(unit: Seq<char>, count: nat) -> Seq<char>
    decreases count,
{
    if count == 0 {
        Seq::empty()
    } else {
        repeated(unit, (count - 1) as nat) + unit
    }
}

/// `unit` written `count` times.
pub fn repeat(unit: &str, count: usize) -> (text: String)
    ensures
        text@ == repeated(unit@, count as nat),
{
    let mut text = String::new();
    let mut i: usize = 0;
    while i < count
        invariant
            i <= count,
            text@ == repeated(unit@, i as nat),
        decreases count - i,
    {
        text.append(unit);
        i = i + 1;
    }
    text
}

/// Several texts, one after the other: the first `count`.
pub open spec fn run_together(texts: Seq<Seq<char>>, count: int) -> Seq<char>
    decreases count,
{
    if count <= 0 {
        Seq::empty()
    } else {
        run_together(texts, count - 1) + texts[count - 1]
    }
}

/// Texts joined with `separator` between each two.
pub open spec fn joined(texts: Seq<Seq<char>>, separator: Seq<char>) -> Seq<char>
    decreases texts.len(),
{
    if texts.len() == 0 {
        Seq::empty()
    } else if texts.len() == 1 {
        texts[0]
    } else {
        joined(texts.drop_last(), separator) + separator + texts.last()
    }
}

/// Texts joined with `separator` between each two.
pub fn join(texts: &Vec<String>, separator: &str) -> (text: String)
    ensures
        text@ == joined(views(texts@), separator@),
{
    let mut text = String::new();
    let mut i: usize = 0;
    while i < texts.len()
        invariant
            i <= texts@.len(),
            text@ == joined(views(texts@.take(i as int)), separator@),
        decreases texts.len() - i,
    {
        if i > 0 {
            text.append(separator);
        }
        text.append(texts[i].as_str());
        proof {
            let before = views(texts@.take(i as int));
            let after = views(texts@.take(i as int + 1));
            assert(after.drop_last() =~= before);
            assert(after.last() == texts@[i as int]@);
            if i == 0 {
                assert(Seq::<char>::empty() + texts@[0]@ =~= texts@[0]@);
            }
        }
        i = i + 1;
    }
    proof {
        assert(texts@.take(texts@.len() as int) =~= texts@);
    }
    text
}

// ── Numbers ──────────────────────────────────────────────────────────────────

/// The character of one decimal digit.
pub open spec fn digit(d: nat) -> char {
    (('0' as u32) + d) as char
}

/// A number in decimal, without leading zeros.
pub open spec fn decimal(n: nat) -> Seq<char>
    decreases n,
{
    if n < 10 {
        seq![digit(n)]
    } else {
        decimal(n / 10).push(digit(n % 10))
    }
}

/// The character of one decimal digit.
fn digit_char(d: u64) -> (c: char)
    requires
        d < 10,
    ensures
        c == digit(d as nat),
{
    if d == 0 {
        '0'
    } else if d == 1 {
        '1'
    } else if d == 2 {
        '2'
    } else if d == 3 {
        '3'
    } else if d == 4 {
        '4'
    } else if d == 5 {
        '5'
    } else if d == 6 {
        '6'
    } else if d == 7 {
        '7'
    } else if d == 8 {
        '8'
    } else {
        '9'
    }
}

/// A number in decimal.
pub fn number(n: u64) -> (text: String)
    ensures
        text@ == decimal(n as nat),
    decreases n,
{
    if n < 10 {
        let mut text = String::new();
        text.push(digit_char(n));
        text
    } else {
        let mut text = number(n / 10);
        text.push(digit_char(n % 10));
        text
    }
}

/// A count in decimal.
pub fn count_text(n: usize) -> (text: String)
    ensures
        text@ == decimal(n as nat),
{
    number(n as u64)
}

/// A number is at least one digit long.
pub proof fn decimal_is_some_digits(n: nat)
    ensures
        decimal(n).len() > 0,
    decreases n,
{
    if n >= 10 {
        decimal_is_some_digits(n / 10);
    }
}

/// `text` with spaces after it, up to `width` characters.
pub open spec fn padded_right(text: Seq<char>, width: nat) -> Seq<char> {
    if text.len() >= width {
        text
    } else {
        text + repeated(" "@, (width - text.len()) as nat)
    }
}

/// `text` with spaces before it, up to `width` characters.
pub open spec fn padded_left(text: Seq<char>, width: nat) -> Seq<char> {
    if text.len() >= width {
        text
    } else {
        repeated(" "@, (width - text.len()) as nat) + text
    }
}

/// `text` with spaces after it, up to `width` characters.
pub fn pad_right(text: &str, width: usize) -> (padded: String)
    ensures
        padded@ == padded_right(text@, width as nat),
{
    let length: usize = length_of(text);
    if length >= width {
        copy_of(text)
    } else {
        let spaces = repeat(" ", width - length);
        cat2(text, spaces.as_str())
    }
}

/// `text` with spaces before it, up to `width` characters.
pub fn pad_left(text: &str, width: usize) -> (padded: String)
    ensures
        padded@ == padded_left(text@, width as nat),
{
    let length: usize = length_of(text);
    if length >= width {
        copy_of(text)
    } else {
        let spaces = repeat(" ", width - length);
        cat2(spaces.as_str(), text)
    }
}

/// How many characters a text has.
pub fn length_of(text: &str) -> (length: usize)
    ensures
        length == text@.len(),
{
    text.unicode_len()
}

// ── Comparing and searching ──────────────────────────────────────────────────

/// Whether two texts are the same.
pub fn same(a: &str, b: &str) -> (equal: bool)
    ensures
        equal == (a@ == b@),
{
    let x = chars_of(a);
    let y = chars_of(b);
    if x.len() != y.len() {
        return false;
    }
    let mut i: usize = 0;
    while i < x.len()
        invariant
            i <= x@.len(),
            x@.len() == y@.len(),
            x@ == a@,
            y@ == b@,
            forall|j: int| 0 <= j < i ==> x@[j] == y@[j],
        decreases x.len() - i,
    {
        if x[i] != y[i] {
            return false;
        }
        i = i + 1;
    }
    proof {
        assert(a@ =~= b@);
    }
    true
}

/// Whether two optional texts are the same.
pub fn same_opt(a: &Option<String>, b: &Option<String>) -> (equal: bool)
    ensures
        equal == (opt_text(*a) == opt_text(*b)),
{
    match (a, b) {
        (Some(x), Some(y)) => same(x.as_str(), y.as_str()),
        (None, None) => true,
        _ => false,
    }
}

/// Whether `needle` stands in `text` at `at`.
pub open spec fn stands_at(text: Seq<char>, needle: Seq<char>, at: int) -> bool {
    0 <= at && at + needle.len() <= text.len() && text.subrange(at, at + needle.len()) == needle
}

/// Whether `needle` stands in `text` at `at`.
fn is_at(text: &Vec<char>, needle: &Vec<char>, at: usize) -> (there: bool)
    ensures
        there == stands_at(text@, needle@, at as int),
{
    if at > text.len() || needle.len() > text.len() - at {
        return false;
    }
    let mut i: usize = 0;
    while i < needle.len()
        invariant
            i <= needle@.len(),
            at + needle.len() <= text.len(),
            forall|j: int| 0 <= j < i ==> text@[at + j] == needle@[j],
        decreases needle.len() - i,
    {
        if text[at + i] != needle[i] {
            proof {
                assert(text@.subrange(at as int, at + needle@.len())[i as int] == text@[at + i]);
            }
            return false;
        }
        i = i + 1;
    }
    proof {
        assert(text@.subrange(at as int, at + needle@.len()) =~= needle@);
    }
    true
}

/// Whether `needle` stands anywhere in `text`.
pub open spec fn occurs(text: Seq<char>, needle: Seq<char>) -> bool {
    exists|at: int| stands_at(text, needle, at)
}

/// The first index at or after `from` at which `needle` stands in `text`.
pub open spec fn first_at(text: Seq<char>, needle: Seq<char>, from: int) -> Option<int>
    decreases text.len() + 1 - from,
{
    if from > text.len() {
        None
    } else if stands_at(text, needle, from) {
        Some(from)
    } else {
        first_at(text, needle, from + 1)
    }
}

/// The character index at which `needle` first stands in `text`.
pub fn find(text: &str, needle: &str) -> (at: Option<usize>)
    ensures
        match at {
            Some(i) => first_at(text@, needle@, 0) == Some(i as int) && stands_at(
                text@,
                needle@,
                i as int,
            ),
            None => first_at(text@, needle@, 0) is None && !occurs(text@, needle@),
        },
{
    let t = chars_of(text);
    let n = chars_of(needle);
    let mut i: usize = 0;
    while i < t.len()
        invariant
            i <= t@.len(),
            t@ == text@,
            n@ == needle@,
            first_at(text@, needle@, 0) == first_at(text@, needle@, i as int),
            forall|j: int| 0 <= j < i ==> !stands_at(text@, needle@, j),
        decreases t.len() - i,
    {
        if is_at(&t, &n, i) {
            return Some(i);
        }
        i = i + 1;
    }
    if is_at(&t, &n, i) {
        return Some(i);
    }
    assert(first_at(text@, needle@, i as int + 1) is None);
    None
}

/// Whether `needle` stands anywhere in `text`.
pub fn contains(text: &str, needle: &str) -> (there: bool)
    ensures
        there == occurs(text@, needle@),
{
    match find(text, needle) {
        Some(_) => true,
        None => false,
    }
}

/// Whether `text` begins with `prefix`.
pub open spec fn begins(text: Seq<char>, prefix: Seq<char>) -> bool {
    stands_at(text, prefix, 0)
}

/// Whether `text` begins with `prefix`.
pub fn starts_with(text: &str, prefix: &str) -> (there: bool)
    ensures
        there == begins(text@, prefix@),
{
    let t = chars_of(text);
    let p = chars_of(prefix);
    is_at(&t, &p, 0)
}

/// What follows `prefix` in `text`, when `text` begins with it.
pub fn strip_prefix(text: &str, prefix: &str) -> (rest: Option<String>)
    ensures
        rest is Some <==> begins(text@, prefix@),
        rest matches Some(r) ==> r@ == text@.skip(prefix@.len() as int) && text@ == prefix@ + r@,
{
    let t = chars_of(text);
    let p = chars_of(prefix);
    if is_at(&t, &p, 0) {
        let rest = text_between(&t, p.len(), t.len());
        proof {
            assert(text@ =~= prefix@ + rest@);
        }
        Some(rest)
    } else {
        None
    }
}

/// Whether the texts hold `needle`.
pub open spec fn among(texts: Seq<Seq<char>>, needle: Seq<char>) -> bool {
    exists|i: int| 0 <= i < texts.len() && texts[i] == needle
}

/// Whether the texts hold `needle`.
pub fn has_text(texts: &Vec<String>, needle: &str) -> (there: bool)
    ensures
        there == among(views(texts@), needle@),
{
    let mut i: usize = 0;
    while i < texts.len()
        invariant
            i <= texts@.len(),
            forall|j: int| 0 <= j < i ==> texts@[j]@ != needle@,
        decreases texts.len() - i,
    {
        if same(texts[i].as_str(), needle) {
            proof {
                assert(views(texts@)[i as int] == needle@);
            }
            return true;
        }
        i = i + 1;
    }
    proof {
        assert forall|j: int| 0 <= j < views(texts@).len() implies views(texts@)[j] != needle@ by {
            assert(views(texts@)[j] == texts@[j]@);
        }
    }
    false
}

/// Lexicographic order of texts by character.
pub open spec fn text_le(a: Seq<char>, b: Seq<char>) -> bool
    decreases a.len(),
{
    if a.len() == 0 {
        true
    } else if b.len() == 0 {
        false
    } else if a[0] == b[0] {
        text_le(a.drop_first(), b.drop_first())
    } else {
        a[0] < b[0]
    }
}

/// Lexicographic order of texts by character.
pub fn at_most(a: &str, b: &str) -> (le: bool)
    ensures
        le == text_le(a@, b@),
{
    let x = chars_of(a);
    let y = chars_of(b);
    let mut i: usize = 0;
    proof {
        assert(a@.skip(0) =~= a@);
        assert(b@.skip(0) =~= b@);
    }
    while i < x.len() && i < y.len()
        invariant
            i <= x@.len(),
            i <= y@.len(),
            x@ == a@,
            y@ == b@,
            text_le(a@, b@) == text_le(a@.skip(i as int), b@.skip(i as int)),
        decreases x.len() - i,
    {
        if x[i] != y[i] {
            return x[i] < y[i];
        }
        proof {
            assert(a@.skip(i as int).drop_first() =~= a@.skip(i as int + 1));
            assert(b@.skip(i as int).drop_first() =~= b@.skip(i as int + 1));
        }
        i = i + 1;
    }
    x.len() <= i
}

/// Every two texts can be ordered.
pub proof fn text_le_total(a: Seq<char>, b: Seq<char>)
    ensures
        text_le(a, b) || text_le(b, a),
    decreases a.len(),
{
    if a.len() > 0 && b.len() > 0 && a[0] == b[0] {
        text_le_total(a.drop_first(), b.drop_first());
    }
}

/// The order of texts carries over.
pub proof fn text_le_transitive(a: Seq<char>, b: Seq<char>, c: Seq<char>)
    requires
        text_le(a, b),
        text_le(b, c),
    ensures
        text_le(a, c),
    decreases a.len(),
{
    if a.len() > 0 && b.len() > 0 && c.len() > 0 && a[0] == b[0] && b[0] == c[0] {
        text_le_transitive(a.drop_first(), b.drop_first(), c.drop_first());
    }
}

// ── Trimming ─────────────────────────────────────────────────────────────────

/// A text without the white space it ends with.
pub open spec fn trimmed_end(text: Seq<char>) -> Seq<char>
    decreases text.len(),
{
    if text.len() > 0 && white_space(text.last()) {
        trimmed_end(text.drop_last())
    } else {
        text
    }
}

/// A text without the white space it begins with.
pub open spec fn trimmed_start(text: Seq<char>) -> Seq<char>
    decreases text.len(),
{
    if text.len() > 0 && white_space(text[0]) {
        trimmed_start(text.drop_first())
    } else {
        text
    }
}

/// A text without the white space at either end.
pub open spec fn trimmed(text: Seq<char>) -> Seq<char> {
    trimmed_end(trimmed_start(text))
}

/// A text without the leading `mark` characters.
pub open spec fn without_leading(text: Seq<char>, mark: char) -> Seq<char>
    decreases text.len(),
{
    if text.len() > 0 && text[0] == mark {
        without_leading(text.drop_first(), mark)
    } else {
        text
    }
}

/// A text without the white space it ends with.
pub fn trim_end(text: &str) -> (trimmed: String)
    ensures
        trimmed@ == trimmed_end(text@),
{
    let chars = chars_of(text);
    let mut end: usize = chars.len();
    proof {
        assert(text@.take(text@.len() as int) =~= text@);
    }
    while end > 0 && is_whitespace(chars[end - 1])
        invariant
            end <= chars@.len(),
            chars@ == text@,
            trimmed_end(text@) == trimmed_end(text@.take(end as int)),
        ensures
            end <= chars@.len(),
            trimmed_end(text@) == trimmed_end(text@.take(end as int)),
            end == 0 || !white_space(chars@[end - 1]),
        decreases end,
    {
        proof {
            assert(text@.take(end as int).drop_last() =~= text@.take(end as int - 1));
        }
        end = end - 1;
    }
    let trimmed = text_between(&chars, 0, end);
    proof {
        assert(trimmed@ =~= text@.take(end as int));
    }
    trimmed
}

/// A text without the white space at either end.
pub fn trim(text: &str) -> (clean: String)
    ensures
        clean@ == trimmed(text@),
{
    let chars = chars_of(text);
    let mut start: usize = 0;
    proof {
        assert(text@.skip(0) =~= text@);
    }
    while start < chars.len() && is_whitespace(chars[start])
        invariant
            start <= chars@.len(),
            chars@ == text@,
            trimmed_start(text@) == trimmed_start(text@.skip(start as int)),
        ensures
            start <= chars@.len(),
            trimmed_start(text@) == trimmed_start(text@.skip(start as int)),
            start == chars@.len() || !white_space(chars@[start as int]),
        decreases chars.len() - start,
    {
        proof {
            assert(text@.skip(start as int).drop_first() =~= text@.skip(start as int + 1));
        }
        start = start + 1;
    }
    let rest = text_between(&chars, start, chars.len());
    proof {
        assert(rest@ =~= text@.skip(start as int));
    }
    trim_end(rest.as_str())
}

/// A text without the leading `mark` characters.
pub fn drop_leading(text: &str, mark: char) -> (rest: String)
    ensures
        rest@ == without_leading(text@, mark),
{
    let chars = chars_of(text);
    let mut start: usize = 0;
    proof {
        assert(text@.skip(0) =~= text@);
    }
    while start < chars.len() && chars[start] == mark
        invariant
            start <= chars@.len(),
            chars@ == text@,
            without_leading(text@, mark) == without_leading(text@.skip(start as int), mark),
        decreases chars.len() - start,
    {
        proof {
            assert(text@.skip(start as int).drop_first() =~= text@.skip(start as int + 1));
        }
        start = start + 1;
    }
    let rest = text_between(&chars, start, chars.len());
    proof {
        assert(rest@ =~= text@.skip(start as int));
    }
    rest
}

// ── Lines ────────────────────────────────────────────────────────────────────

/// The first index at or after `from` that holds `mark`, or the text's length.
pub open spec fn next_mark(text: Seq<char>, mark: char, from: int) -> int
    decreases text.len() - from,
{
    if from >= text.len() {
        text.len() as int
    } else if text[from] == mark {
        from
    } else {
        next_mark(text, mark, from + 1)
    }
}

/// The mark that was looked for stands between where the search began and the
/// end of the text.
pub proof fn next_mark_in_range(text: Seq<char>, mark: char, from: int)
    requires
        0 <= from <= text.len(),
    ensures
        from <= next_mark(text, mark, from) <= text.len(),
    decreases text.len() - from,
{
    if from < text.len() && text[from] != mark {
        next_mark_in_range(text, mark, from + 1);
    }
}

/// The first index at or after `from` that holds `mark`, or the text's length.
fn find_mark(chars: &Vec<char>, mark: char, from: usize) -> (at: usize)
    requires
        from <= chars@.len(),
    ensures
        at == next_mark(chars@, mark, from as int),
        from <= at <= chars@.len(),
        at < chars@.len() ==> chars@[at as int] == mark,
{
    let mut at: usize = from;
    while at < chars.len() && chars[at] != mark
        invariant
            from <= at <= chars@.len(),
            next_mark(chars@, mark, from as int) == next_mark(chars@, mark, at as int),
        decreases chars.len() - at,
    {
        at = at + 1;
    }
    at
}

/// A line without the carriage return that a line feed followed.
pub open spec fn without_return(line: Seq<char>) -> Seq<char> {
    if line.len() > 0 && line.last() == '\r' {
        line.drop_last()
    } else {
        line
    }
}

/// The lines of a text from `from` on: each ends at a line feed, which is not
/// part of it, nor is a carriage return right before that; a text that ends
/// with a line feed has no empty line after it.
pub open spec fn lines_from(text: Seq<char>, from: int) -> Seq<Seq<char>>
    decreases text.len() - from,
{
    if from < 0 || from >= text.len() {
        Seq::empty()
    } else {
        let end = next_mark(text, '\n', from);
        if end < from || end >= text.len() {
            seq![text.subrange(from, text.len() as int)]
        } else {
            seq![without_return(text.subrange(from, end))] + lines_from(text, end + 1)
        }
    }
}

/// The lines of a text.
pub open spec fn text_lines(text: Seq<char>) -> Seq<Seq<char>> {
    lines_from(text, 0)
}

/// The lines of a text.
pub fn lines(text: &str) -> (lines: Vec<String>)
    ensures
        views(lines@) == text_lines(text@),
{
    let chars = chars_of(text);
    let mut lines: Vec<String> = Vec::new();
    let mut from: usize = 0;
    proof {
        assert(views(lines@) + text_lines(text@) =~= text_lines(text@));
    }
    while from < chars.len()
        invariant
            from <= chars@.len(),
            chars@ == text@,
            views(lines@) + lines_from(text@, from as int) == text_lines(text@),
        decreases chars.len() - from,
    {
        let end: usize = find_mark(&chars, '\n', from);
        let ghost before = views(lines@);
        if end >= chars.len() {
            let last = text_between(&chars, from, chars.len());
            lines.push(last);
            proof {
                assert(lines_from(text@, from as int) =~= seq![last@]);
                assert(before + seq![last@] =~= before.push(last@));
                assert(lines_from(text@, chars@.len() as int) =~= Seq::<Seq<char>>::empty());
                assert(views(lines@) + Seq::<Seq<char>>::empty() =~= views(lines@));
            }
            from = chars.len();
        } else {
            let cut: usize = if end > from && chars[end - 1] == '\r' {
                end - 1
            } else {
                end
            };
            let line = text_between(&chars, from, cut);
            proof {
                let whole = text@.subrange(from as int, end as int);
                if cut < end {
                    assert(whole.last() == '\r');
                    assert(line@ =~= whole.drop_last());
                } else if whole.len() > 0 {
                    assert(whole.last() == chars@[end - 1]);
                }
                assert(line@ =~= without_return(whole));
                let rest = lines_from(text@, end as int + 1);
                assert(lines_from(text@, from as int) == seq![line@] + rest);
                assert(before + (seq![line@] + rest) =~= before.push(line@) + rest);
            }
            lines.push(line);
            from = end + 1;
        }
    }
    proof {
        assert(lines_from(text@, from as int) =~= Seq::<Seq<char>>::empty());
        assert(views(lines@) + Seq::<Seq<char>>::empty() =~= views(lines@));
    }
    lines
}

// ── Fitting ──────────────────────────────────────────────────────────────────

/// `text` in at most `room` characters: whole when it fits, else cut with an
/// ellipsis in the last place.
pub open spec fn fitted(text: Seq<char>, room: nat) -> Seq<char> {
    if text.len() <= room {
        text
    } else {
        text.take(if room == 0 {
            0
        } else {
            room - 1
        }) + "…"@
    }
}

/// `text` cut to `room` characters with an ellipsis.
pub fn fit(text: &str, room: usize) -> (cut: String)
    ensures
        cut@ == fitted(text@, room as nat),
{
    let chars = chars_of(text);
    if chars.len() <= room {
        return copy_of(text);
    }
    let kept = text_between(&chars, 0, room.saturating_sub(1));
    proof {
        assert(kept@ =~= text@.take(if room == 0 {
            0
        } else {
            room - 1
        }));
    }
    cat2(kept.as_str(), "…")
}

/// A cut text has no more characters than its room, except that an ellipsis
/// stands even where there is none.
pub proof fn fitted_keeps_its_room(text: Seq<char>, room: nat)
    ensures
        fitted(text, room).len() <= room || (room == 0 && fitted(text, room) == "…"@),
        text.len() <= room ==> fitted(text, room) == text,
{
    reveal_strlit("…");
    if room == 0 && text.len() > 0 {
        assert(text.take(0) + "…"@ =~= "…"@);
    }
}

/// How many of the characters from `kept` on still fit in `room` columns.
pub open spec fn fitting(text: Seq<char>, room: nat, kept: int) -> int
    decreases text.len() - kept,
{
    if 0 <= kept < text.len() && columns(text.take(kept + 1)) <= room {
        fitting(text, room, kept + 1)
    } else {
        kept
    }
}

/// `text` in `width` columns: whole when it fits, else as many of its first
/// characters as leave a column for the ellipsis after them. No columns hold
/// nothing.
pub open spec fn truncated(text: Seq<char>, width: nat) -> Seq<char> {
    if columns(text) <= width {
        text
    } else if width == 0 {
        Seq::empty()
    } else {
        text.take(fitting(text, (width - 1) as nat, 0)) + "…"@
    }
}

/// `text` cut to `width` columns with an ellipsis.
pub fn truncate(text: &str, width: usize) -> (cut: String)
    ensures
        cut@ == truncated(text@, width as nat),
{
    if display_width(text) <= width {
        return copy_of(text);
    }
    if width == 0 {
        return String::new();
    }
    let chars = chars_of(text);
    let mut kept: usize = 0;
    let mut head = String::new();
    while kept < chars.len()
        invariant_except_break
            fitting(text@, (width - 1) as nat, 0) == fitting(text@, (width - 1) as nat, kept as int),
        invariant
            width > 0,
            kept <= chars@.len(),
            chars@ == text@,
            head@ == text@.take(kept as int),
        ensures
            fitting(text@, (width - 1) as nat, 0) == kept,
        decreases chars.len() - kept,
    {
        let longer = text_between(&chars, 0, kept + 1);
        proof {
            assert(longer@ =~= text@.take(kept as int + 1));
        }
        if display_width(longer.as_str()) > width - 1 {
            break;
        }
        head = longer;
        kept = kept + 1;
    }
    cat2(head.as_str(), "…")
}

/// The characters that fit are characters of the text.
pub proof fn fitting_in_range(text: Seq<char>, room: nat, kept: int)
    requires
        0 <= kept <= text.len(),
    ensures
        kept <= fitting(text, room, kept) <= text.len(),
        kept < fitting(text, room, kept) ==> columns(text.take(fitting(text, room, kept))) <= room,
    decreases text.len() - kept,
{
    if kept < text.len() && columns(text.take(kept + 1)) <= room {
        fitting_in_range(text, room, kept + 1);
    }
}

// ── What the pieces come to ──────────────────────────────────────────────────

/// The number that a text of decimal digits stands for.
pub open spec fn number_read(text: Seq<char>) -> int
    decreases text.len(),
{
    if text.len() == 0 {
        0
    } else {
        number_read(text.drop_last()) * 10 + (text.last() as int - '0' as int)
    }
}

/// A number in decimal is made of digits, has no leading zero, and reads as the number.
pub proof fn decimal_reads_back(n: nat)
    ensures
        number_read(decimal(n)) == n,
        decimal(n).len() > 0,
        forall|i: int| 0 <= i < decimal(n).len() ==> '0' <= (#[trigger] decimal(n)[i]) <= '9',
        n > 0 ==> decimal(n)[0] != '0',
    decreases n,
{
    if n < 10 {
        assert(decimal(n).drop_last() =~= Seq::empty());
        assert(decimal(n).last() as int == '0' as int + n);
        assert(number_read(decimal(n).drop_last()) == 0);
    } else {
        decimal_reads_back(n / 10);
        assert(decimal(n).drop_last() =~= decimal(n / 10));
        assert(decimal(n).last() as int == '0' as int + n % 10);
        assert(decimal(n)[0] == decimal(n / 10)[0]);
    }
}

/// One character written over and over is that character everywhere.
pub proof fn repeated_is_the_unit_everywhere(c: char, count: nat)
    ensures
        repeated(seq![c], count) == Seq::new(count, |i: int| c),
    decreases count,
{
    if count > 0 {
        repeated_is_the_unit_everywhere(c, (count - 1) as nat);
    }
    assert(repeated(seq![c], count) =~= Seq::new(count, |i: int| c));
}

/// Texts run together are the texts, one behind the other, with nothing between.
pub proof fn run_together_is_every_text(texts: Seq<Seq<char>>, count: int)
    requires
        0 <= count <= texts.len(),
    ensures
        run_together(texts, count) == texts.take(count).flatten(),
    decreases count,
{
    texts.take(count).lemma_flatten_and_flatten_alt_are_equivalent();
    if count > 0 {
        run_together_is_every_text(texts, count - 1);
        texts.take(count - 1).lemma_flatten_and_flatten_alt_are_equivalent();
        assert(texts.take(count).drop_last() =~= texts.take(count - 1));
    } else {
        assert(texts.take(0) =~= Seq::empty());
    }
}

/// Joining one text is that text, and joining two lists is joining each, with one
/// separator between.
pub proof fn joining_goes_piece_by_piece(
    first: Seq<Seq<char>>,
    second: Seq<Seq<char>>,
    separator: Seq<char>,
    text: Seq<char>,
)
    ensures
        joined(Seq::empty(), separator) == Seq::<char>::empty(),
        joined(seq![text], separator) == text,
        first.len() > 0 && second.len() > 0 ==> joined(first + second, separator) == joined(
            first,
            separator,
        ) + separator + joined(second, separator),
    decreases second.len(),
{
    if first.len() > 0 && second.len() > 0 {
        let all = first + second;
        assert(all.drop_last() =~= first + second.drop_last());
        if second.len() > 1 {
            joining_goes_piece_by_piece(first, second.drop_last(), separator, text);
            assert(joined(first, separator) + separator + joined(second, separator) =~= joined(
                first,
                separator,
            ) + separator + joined(second.drop_last(), separator) + separator + second.last());
        } else {
            assert(first + second.drop_last() =~= first);
        }
    }
}

/// A padded text is the text with spaces on one side, and no shorter than its width.
pub proof fn padding_is_spaces(text: Seq<char>, width: nat)
    ensures
        ({
            let spaces = Seq::new(
                if text.len() < width {
                    (width - text.len()) as nat
                } else {
                    0
                },
                |i: int| ' ',
            );
            &&& padded_right(text, width) == text + spaces
            &&& padded_left(text, width) == spaces + text
        }),
{
    reveal_strlit(" ");
    assert(" "@ =~= seq![' ']);
    if text.len() < width {
        repeated_is_the_unit_everywhere(' ', (width - text.len()) as nat);
    }
    let spaces = Seq::new(
        if text.len() < width {
            (width - text.len()) as nat
        } else {
            0
        },
        |i: int| ' ',
    );
    assert(padded_right(text, width) =~= text + spaces);
    assert(padded_left(text, width) =~= spaces + text);
}

/// A text holds another if and only if it is that one with something before and
/// something after it; it begins with it if and only if there is nothing before.
pub proof fn what_a_text_holds(text: Seq<char>, needle: Seq<char>)
    ensures
        occurs(text, needle) <==> exists|head: Seq<char>, tail: Seq<char>|
            text == #[trigger] (head + needle + tail),
        begins(text, needle) <==> exists|tail: Seq<char>| text == #[trigger] (needle + tail),
{
    if occurs(text, needle) {
        let at = choose|at: int| stands_at(text, needle, at);
        let head = text.take(at);
        let tail = text.skip(at + needle.len());
        assert(text =~= head + needle + tail);
    }
    if exists|head: Seq<char>, tail: Seq<char>| text == #[trigger] (head + needle + tail) {
        let (head, tail) = choose|head: Seq<char>, tail: Seq<char>|
            text == #[trigger] (head + needle + tail);
        let at = head.len() as int;
        assert(text.subrange(at, at + needle.len()) =~= needle);
        assert(stands_at(text, needle, at));
    }
    if begins(text, needle) {
        let tail = text.skip(needle.len() as int);
        assert(text =~= needle + tail);
    }
    if exists|tail: Seq<char>| text == #[trigger] (needle + tail) {
        let tail = choose|tail: Seq<char>| text == #[trigger] (needle + tail);
        assert(text.subrange(0, needle.len() as int) =~= needle);
    }
}

/// The first place of a text in another has none before it.
pub proof fn the_first_place_is_first(text: Seq<char>, needle: Seq<char>, from: int)
    requires
        0 <= from,
    ensures
        match first_at(text, needle, from) {
            Some(at) => from <= at <= at + needle.len() <= text.len() && text.skip(at).take(
                needle.len() as int,
            ) == needle && forall|j: int|
                from <= j < at ==> (#[trigger] text.skip(j)).take(needle.len() as int) != needle,
            None => forall|j: int|
                from <= j <= j + needle.len() <= text.len() ==> (#[trigger] text.skip(j)).take(
                    needle.len() as int,
                ) != needle,
        },
    decreases text.len() + 1 - from,
{
    if from <= text.len() {
        if from + needle.len() <= text.len() {
            assert(text.skip(from).take(needle.len() as int) =~= text.subrange(
                from,
                from + needle.len(),
            ));
        }
        if !stands_at(text, needle, from) {
            the_first_place_is_first(text, needle, from + 1);
        }
    }
}

/// Of two texts the one comes first that the other continues, or that has the smaller
/// character where they first differ.
pub proof fn texts_go_by_their_first_difference(a: Seq<char>, b: Seq<char>, same: int)
    requires
        0 <= same <= a.len(),
        same <= b.len(),
        a.take(same) == b.take(same),
        same < a.len() && same < b.len() ==> a[same] != b[same],
    ensures
        text_le(a, b) <==> (same == a.len() || same < b.len() && a[same] < b[same]),
    decreases a.len(),
{
    if same > 0 {
        assert(a[0] == a.take(same)[0] && b[0] == b.take(same)[0]);
        let x = a.drop_first();
        let y = b.drop_first();
        assert(x.take(same - 1) =~= a.take(same).drop_first());
        assert(y.take(same - 1) =~= b.take(same).drop_first());
        texts_go_by_their_first_difference(x, y, same - 1);
    }
}

/// A text without the white space it ends with: what was left off is white space, what
/// is left begins as the text does and ends with none.
pub proof fn only_blanks_are_trimmed(text: Seq<char>)
    ensures
        ({
            let kept = trimmed_end(text);
            &&& kept.len() <= text.len()
            &&& kept == text.take(kept.len() as int)
            &&& forall|i: int|
                kept.len() <= i < text.len() ==> white_space(#[trigger] text[i])
            &&& kept.len() > 0 ==> !white_space(kept.last())
        }),
    decreases text.len(),
{
    let kept = trimmed_end(text);
    if text.len() > 0 && white_space(text.last()) {
        let fewer = text.drop_last();
        only_blanks_are_trimmed(fewer);
        assert(kept =~= text.take(kept.len() as int));
        assert forall|i: int| kept.len() <= i < text.len() implies white_space(
            #[trigger] text[i],
        ) by {
            if i < text.len() - 1 {
                assert(fewer[i] == text[i]);
            }
        }
    } else {
        assert(text.take(text.len() as int) =~= text);
    }
}

/// A text without the white space it begins with.
pub proof fn only_blanks_are_trimmed_in_front(text: Seq<char>)
    ensures
        ({
            let kept = trimmed_start(text);
            let off = text.len() - kept.len();
            &&& off >= 0
            &&& kept == text.skip(off)
            &&& forall|i: int| 0 <= i < off ==> white_space(#[trigger] text[i])
            &&& kept.len() > 0 ==> !white_space(kept[0])
        }),
    decreases text.len(),
{
    let kept = trimmed_start(text);
    let off = text.len() - kept.len();
    if text.len() > 0 && white_space(text[0]) {
        let fewer = text.drop_first();
        only_blanks_are_trimmed_in_front(fewer);
        assert(kept =~= text.skip(off));
        assert forall|i: int| 0 <= i < off implies white_space(#[trigger] text[i]) by {
            if i > 0 {
                assert(fewer[i - 1] == text[i]);
            }
        }
    } else {
        assert(text.skip(0) =~= text);
    }
}

/// A trimmed text stands in the text with nothing but white space before and after it,
/// and has none at either end.
pub proof fn a_trimmed_text_loses_only_blanks(text: Seq<char>) -> (at: int)
    ensures
        ({
            let kept = trimmed(text);
            &&& 0 <= at <= at + kept.len() <= text.len()
            &&& kept == text.subrange(at, at + kept.len())
            &&& forall|i: int| 0 <= i < at ==> white_space(#[trigger] text[i])
            &&& forall|i: int|
                at + kept.len() <= i < text.len() ==> white_space(#[trigger] text[i])
            &&& kept.len() > 0 ==> !white_space(kept[0]) && !white_space(kept.last())
        }),
{
    let rest = trimmed_start(text);
    let kept = trimmed(text);
    only_blanks_are_trimmed_in_front(text);
    only_blanks_are_trimmed(rest);
    let at = text.len() - rest.len();
    assert(kept =~= text.subrange(at, at + kept.len()));
    assert forall|i: int| at + kept.len() <= i < text.len() implies white_space(
        #[trigger] text[i],
    ) by {
        assert(rest[i - at] == text[i]);
    }
    if kept.len() > 0 {
        assert(kept[0] == rest[0]);
    }
    at
}

/// A text without its leading marks: nothing else was left off.
pub proof fn only_marks_are_dropped(text: Seq<char>, mark: char)
    ensures
        ({
            let kept = without_leading(text, mark);
            let off = text.len() - kept.len();
            &&& off >= 0
            &&& kept == text.skip(off)
            &&& forall|i: int| 0 <= i < off ==> (#[trigger] text[i]) == mark
            &&& kept.len() > 0 ==> kept[0] != mark
        }),
    decreases text.len(),
{
    let kept = without_leading(text, mark);
    let off = text.len() - kept.len();
    if text.len() > 0 && text[0] == mark {
        let fewer = text.drop_first();
        only_marks_are_dropped(fewer, mark);
        assert(kept =~= text.skip(off));
        assert forall|i: int| 0 <= i < off implies (#[trigger] text[i]) == mark by {
            if i > 0 {
                assert(fewer[i - 1] == text[i]);
            }
        }
    } else {
        assert(text.skip(0) =~= text);
    }
}

/// Where the next mark is, none stands before it.
proof fn no_mark_before_the_next(text: Seq<char>, mark: char, from: int)
    requires
        0 <= from <= text.len(),
    ensures
        from <= next_mark(text, mark, from) <= text.len(),
        forall|i: int| from <= i < next_mark(text, mark, from) ==> (#[trigger] text[i]) != mark,
        next_mark(text, mark, from) < text.len() ==> text[next_mark(text, mark, from)] == mark,
    decreases text.len() - from,
{
    if from < text.len() && text[from] != mark {
        no_mark_before_the_next(text, mark, from + 1);
    }
}

/// Two lines with a line feed between, or one that a line feed ends, are the lines of
/// their text: a line feed ends a line, takes a carriage return before it along, and
/// leaves no empty line behind the last; a text with no line feed is one line, and no
/// text is none.
pub proof fn a_line_feed_ends_a_line(line: Seq<char>, rest: Seq<char>)
    requires
        forall|i: int| 0 <= i < line.len() ==> (#[trigger] line[i]) != '\n',
    ensures
        text_lines(Seq::empty()) == Seq::<Seq<char>>::empty(),
        line.len() > 0 ==> text_lines(line) == seq![line],
        text_lines(line.push('\n') + rest) == seq![
            if line.len() > 0 && line.last() == '\r' {
                line.drop_last()
            } else {
                line
            },
        ] + text_lines(rest),
{
    let text = line.push('\n') + rest;
    let end = line.len() as int;
    no_mark_before_the_next(text, '\n', 0);
    assert(text[end] == '\n');
    assert(next_mark(text, '\n', 0) == end) by {
        let at = next_mark(text, '\n', 0);
        if at < end {
            assert(text[at] == line[at]);
        }
    }
    assert(text.subrange(0, end) =~= line);
    assert(rest =~= text.skip(end + 1));
    lines_of_a_tail(text, rest, end + 1);
    if line.len() > 0 {
        no_mark_before_the_next(line, '\n', 0);
        let at = next_mark(line, '\n', 0);
        assert(at == line.len()) by {
            if at < line.len() {
                assert(line[at] == '\n');
            }
        }
        assert(line.subrange(0, line.len() as int) =~= line);
        assert(text_lines(line) =~= seq![line]);
    }
    assert(text_lines(Seq::empty()) =~= Seq::<Seq<char>>::empty());
}

/// The lines from an index on are those of the text from there.
proof fn lines_of_a_tail(text: Seq<char>, tail: Seq<char>, from: int)
    requires
        0 <= from <= text.len(),
        tail == text.skip(from),
    ensures
        lines_from(text, from) == lines_from(tail, 0),
{
    lines_further_on(text, tail, from, 0);
}

/// The lines from an index on are those of a tail from the same place.
proof fn lines_further_on(text: Seq<char>, tail: Seq<char>, from: int, at: int)
    requires
        0 <= from <= text.len(),
        tail == text.skip(from),
        0 <= at <= tail.len(),
    ensures
        lines_from(text, from + at) == lines_from(tail, at),
    decreases tail.len() - at,
{
    if at < tail.len() {
        marks_further_on(text, tail, from, at);
        let end = next_mark(tail, '\n', at);
        no_mark_before_the_next(tail, '\n', at);
        if end >= tail.len() {
            assert(text.subrange(from + at, text.len() as int) =~= tail.subrange(
                at,
                tail.len() as int,
            ));
        } else {
            assert(text.subrange(from + at, from + end) =~= tail.subrange(at, end));
            lines_further_on(text, tail, from, end + 1);
        }
    }
}

/// The next mark of a text is that of its tail.
proof fn marks_further_on(text: Seq<char>, tail: Seq<char>, from: int, at: int)
    requires
        0 <= from <= text.len(),
        tail == text.skip(from),
        0 <= at <= tail.len(),
    ensures
        next_mark(text, '\n', from + at) == from + next_mark(tail, '\n', at),
    decreases tail.len() - at,
{
    if at < tail.len() && tail[at] != '\n' {
        marks_further_on(text, tail, from, at + 1);
    }
}

/// A text cut to its room is whole where it fits, and else begins as the text does, ends
/// with an ellipsis and fills the room.
pub proof fn a_fitted_text_fills_its_room(text: Seq<char>, room: nat)
    ensures
        text.len() <= room ==> fitted(text, room) == text,
        text.len() > room > 0 ==> {
            &&& fitted(text, room).len() == room
            &&& fitted(text, room).last() == '…'
            &&& fitted(text, room).drop_last() == text.take(room - 1)
        },
{
    reveal_strlit("…");
    if text.len() > room && room > 0 {
        assert(fitted(text, room).drop_last() =~= text.take(room - 1));
    }
}

/// A text cut to some columns is whole where it fits, and else as many of its first
/// characters as leave a column for the ellipsis behind them: they fit, and one more
/// would not. Plain text keeps all but one of its columns.
pub proof fn a_truncated_text_fits(text: Seq<char>, width: nat)
    ensures
        columns(text) <= width ==> truncated(text, width) == text,
        columns(text) > width && width == 0 ==> truncated(text, width).len() == 0,
        columns(text) > width && width > 0 ==> ({
            let cut = truncated(text, width);
            let kept = cut.len() - 1;
            &&& 0 <= kept <= text.len()
            &&& cut == text.take(kept).push('…')
            &&& kept > 0 ==> columns(text.take(kept)) < width
            &&& kept < text.len() ==> columns(text.take(kept + 1)) >= width
        }),
        is_plain(text) && text.len() <= width ==> truncated(text, width) == text,
        is_plain(text) && text.len() > width && width > 0 ==> truncated(text, width) == text.take(
            width - 1,
        ).push('…'),
{
    reveal_strlit("…");
    if columns(text) > width && width > 0 {
        let kept = fitting(text, (width - 1) as nat, 0);
        fitting_in_range(text, (width - 1) as nat, 0);
        one_more_would_not_fit(text, (width - 1) as nat, 0);
        assert(truncated(text, width) =~= text.take(kept).push('…'));
        if is_plain(text) {
            assert forall|n: int| 0 <= n <= text.len() implies columns(#[trigger] text.take(n))
                == n by {
                assert(is_plain(text.take(n)));
            }
            assert(columns(text) == text.len());
            assert(kept == width - 1) by {
                if kept < text.len() {
                    assert(columns(text.take(kept + 1)) == kept + 1);
                }
                assert(columns(text.take(kept)) == kept);
            }
        }
    }
}

/// Where the characters that fit end, one more would not.
proof fn one_more_would_not_fit(text: Seq<char>, room: nat, kept: int)
    requires
        0 <= kept <= text.len(),
    ensures
        fitting(text, room, kept) < text.len() ==> columns(
            text.take(fitting(text, room, kept) + 1),
        ) > room,
    decreases text.len() - kept,
{
    if kept < text.len() && columns(text.take(kept + 1)) <= room {
        one_more_would_not_fit(text, room, kept + 1);
    }
}

} // verus!
