//! Text as sequences of characters: what the tool searches, splits, trims and prints.

use vstd::prelude::*;

verus! {

/// `String::push` of the standard library: the character is appended at the end.
pub assume_specification[ String::push ](s: &mut String, c: char)
    ensures
        final(s)@ == old(s)@.push(c),
;

/// The characters of a string, in order.
pub fn chars_of(s: &str) -> (out: Vec<char>)
    ensures
        out@ == s@,
{
    let mut out: Vec<char> = Vec::new();
    for c in it: s.chars()
        invariant
            it.seq() == s@,
            out@ == s@.take(it.index() as int),
    {
        out.push(c);
    }
    out
}

/// The string made of the characters from `from` up to `to`.
pub fn slice_string(chars: &Vec<char>, from: usize, to: usize) -> (out: String)
    requires
        from <= to <= chars.len(),
    ensures
        out@ == chars@.subrange(from as int, to as int),
{
    let mut out = String::new();
    let mut i: usize = from;
    while i < to
        invariant
            from <= i <= to <= chars.len(),
            out@ == chars@.subrange(from as int, i as int),
        decreases to - i,
    {
        out.push(chars[i]);
        i += 1;
    }
    out
}

/// Whether two strings hold the same characters.
pub fn same_text(a: &str, b: &str) -> (same: bool)
    ensures
        same == (a@ == b@),
{
    let x = chars_of(a);
    let y = chars_of(b);
    if x.len() != y.len() {
        return false;
    }
    let mut i: usize = 0;
    while i < x.len()
        invariant
            x@ == a@,
            y@ == b@,
            x.len() == y.len(),
            i <= x.len(),
            forall|j: int| 0 <= j < i ==> x[j] == y[j],
        decreases x.len() - i,
    {
        if x[i] != y[i] {
            return false;
        }
        i += 1;
    }
    assert(a@ =~= b@);
    true
}

/// Whether `c` is white space, as Unicode's property `White_Space` has it.
pub open spec fn white(c: char) -> bool {
    ||| '\u{9}' <= c <= '\u{d}'
    ||| c == ' '
    ||| c == '\u{85}'
    ||| c == '\u{a0}'
    ||| c == '\u{1680}'
    ||| '\u{2000}' <= c <= '\u{200a}'
    ||| c == '\u{2028}'
    ||| c == '\u{2029}'
    ||| c == '\u{202f}'
    ||| c == '\u{205f}'
    ||| c == '\u{3000}'
}

/// Decides `white`.
pub fn is_white(c: char) -> (yes: bool)
    ensures
        yes == white(c),
{
    ('\u{9}' <= c && c <= '\u{d}') || c == ' ' || c == '\u{85}' || c == '\u{a0}' || c == '\u{1680}'
        || ('\u{2000}' <= c && c <= '\u{200a}') || c == '\u{2028}' || c == '\u{2029}' || c
        == '\u{202f}' || c == '\u{205f}' || c == '\u{3000}'
}

/// The lower case of an ASCII capital; every other character as it is.
pub open spec fn lower_char(c: char) -> char {
    if 'A' <= c <= 'Z' {
        ((c as u8) + 32) as char
    } else {
        c
    }
}

/// A text with its ASCII capitals in lower case.
pub open spec fn lower(s: Seq<char>) -> Seq<char> {
    s.map_values(|c: char| lower_char(c))
}

/// Turns the ASCII capitals of a text into lower case.
pub fn to_lower(s: &str) -> (out: String)
    ensures
        out@ == lower(s@),
{
    let chars = chars_of(s);
    let mut out = String::new();
    let mut i: usize = 0;
    while i < chars.len()
        invariant
            chars@ == s@,
            i <= chars.len(),
            out@ == lower(s@.take(i as int)),
        decreases chars.len() - i,
    {
        let c: char = chars[i];
        let l: char = if 'A' <= c && c <= 'Z' {
            (c as u8 + 32) as char
        } else {
            c
        };
        out.push(l);
        i += 1;
        assert(lower(s@.take(i as int)) =~= lower(s@.take(i - 1)).push(lower_char(c)));
    }
    assert(s@.take(chars.len() as int) =~= s@);
    out
}

/// Whether `pattern` stands in `s` at position `i`.
pub open spec fn occurs_at(s: Seq<char>, pattern: Seq<char>, i: int) -> bool {
    0 <= i <= s.len() - pattern.len() && s.subrange(i, i + pattern.len()) == pattern
}

/// Whether `pattern` stands somewhere in `s`.
pub open spec fn holds(s: Seq<char>, pattern: Seq<char>) -> bool {
    exists|i: int| occurs_at(s, pattern, i)
}

/// Whether `s` begins with `pattern`.
pub open spec fn begins(s: Seq<char>, pattern: Seq<char>) -> bool {
    occurs_at(s, pattern, 0)
}

/// Decides `occurs_at`.
fn check_at(s: &Vec<char>, pattern: &Vec<char>, at: usize) -> (yes: bool)
    ensures
        yes == occurs_at(s@, pattern@, at as int),
{
    if s.len() < pattern.len() || s.len() - pattern.len() < at {
        return false;
    }
    let mut k: usize = 0;
    while k < pattern.len()
        invariant
            at + pattern.len() <= s.len(),
            k <= pattern.len(),
            forall|j: int| 0 <= j < k ==> s[at + j] == pattern[j],
        decreases pattern.len() - k,
    {
        if s[at + k] != pattern[k] {
            assert(s@.subrange(at as int, at + pattern@.len())[k as int] != pattern@[k as int]);
            return false;
        }
        k += 1;
    }
    assert(s@.subrange(at as int, at + pattern@.len()) =~= pattern@);
    true
}

/// Whether `pattern` stands somewhere in `s`.
pub fn contains_text(s: &str, pattern: &str) -> (yes: bool)
    ensures
        yes == holds(s@, pattern@),
{
    let text = chars_of(s);
    let wanted = chars_of(pattern);
    if text.len() < wanted.len() {
        return false;
    }
    let last: usize = text.len() - wanted.len();
    let mut i: usize = 0;
    loop
        invariant
            text@ == s@,
            wanted@ == pattern@,
            wanted.len() <= text.len(),
            last == text.len() - wanted.len(),
            i <= last,
            forall|j: int| 0 <= j < i ==> !occurs_at(s@, pattern@, j),
        decreases last - i,
    {
        if check_at(&text, &wanted, i) {
            return true;
        }
        if i == last {
            assert forall|j: int| !occurs_at(s@, pattern@, j) by {
                if 0 <= j <= last {
                    if j < i {
                    } else {
                        assert(j == i);
                    }
                }
            }
            return false;
        }
        i += 1;
    }
}

/// Whether `first` stands in `s`, and `second` behind it.
pub open spec fn holds_in_order(s: Seq<char>, first: Seq<char>, second: Seq<char>) -> bool {
    exists|i: int, j: int| #[trigger]
        occurs_at(s, first, i) && #[trigger] occurs_at(s, second, j) && i + first.len() <= j
}

/// Decides `holds_in_order`.
pub fn contains_in_order(s: &str, first: &str, second: &str) -> (yes: bool)
    ensures
        yes == holds_in_order(s@, first@, second@),
{
    let text = chars_of(s);
    let head = chars_of(first);
    let tail = chars_of(second);
    let mut seen: bool = false;
    let mut k: usize = 0;
    loop
        invariant
            text@ == s@,
            head@ == first@,
            tail@ == second@,
            k <= text.len(),
            seen == exists|i: int| #[trigger] occurs_at(s@, first@, i) && i + first@.len() < k,
            forall|i: int, j: int|
                #![trigger occurs_at(s@, first@, i), occurs_at(s@, second@, j)]
                occurs_at(s@, first@, i) && occurs_at(s@, second@, j) && i + first@.len() <= j
                    ==> k <= j,
        decreases text.len() - k,
    {
        if head.len() <= k && check_at(&text, &head, k - head.len()) {
            seen = true;
            assert(occurs_at(s@, first@, k - first@.len()));
        }
        if seen && check_at(&text, &tail, k) {
            assert(occurs_at(s@, second@, k as int));
            return true;
        }
        if k == text.len() {
            return false;
        }
        k += 1;
    }
}

/// Whether `s` begins with `pattern`.
pub fn starts_with(s: &str, pattern: &str) -> (yes: bool)
    ensures
        yes == begins(s@, pattern@),
{
    let text = chars_of(s);
    let wanted = chars_of(pattern);
    check_at(&text, &wanted, 0)
}

/// The first position from `i` on that is not white space, or the length of the text.
pub open spec fn skip_white(s: Seq<char>, i: int) -> int
    decreases s.len() - i,
{
    if 0 <= i < s.len() && white(s[i]) {
        skip_white(s, i + 1)
    } else {
        i
    }
}

/// The first position from `i` on that is white space, or the length of the text.
pub open spec fn skip_word(s: Seq<char>, i: int) -> int
    decreases s.len() - i,
{
    if 0 <= i < s.len() && !white(s[i]) {
        skip_word(s, i + 1)
    } else {
        i
    }
}

/// The end of the text before `n` once the white space at its end is dropped.
pub open spec fn drop_white_end(s: Seq<char>, n: int) -> int
    decreases n,
{
    if 0 < n <= s.len() && white(s[n - 1]) {
        drop_white_end(s, n - 1)
    } else {
        n
    }
}

/// A text without the white space at its two ends.
pub open spec fn trimmed(s: Seq<char>) -> Seq<char> {
    let start = skip_white(s, 0);
    let end = drop_white_end(s, s.len() as int);
    if start < end {
        s.subrange(start, end)
    } else {
        Seq::empty()
    }
}

/// `skip_white` moves forward, and not beyond the end of the text.
pub proof fn lemma_skip_white(s: Seq<char>, i: int)
    requires
        0 <= i <= s.len(),
    ensures
        i <= skip_white(s, i) <= s.len(),
        skip_white(s, i) < s.len() ==> !white(s[skip_white(s, i)]),
        forall|j: int| i <= j < skip_white(s, i) ==> white(#[trigger] s[j]),
    decreases s.len() - i,
{
    if i < s.len() && white(s[i]) {
        lemma_skip_white(s, i + 1);
    }
}

/// `skip_word` moves forward, and not beyond the end of the text.
pub proof fn lemma_skip_word(s: Seq<char>, i: int)
    requires
        0 <= i <= s.len(),
    ensures
        i <= skip_word(s, i) <= s.len(),
        i < s.len() && !white(s[i]) ==> i < skip_word(s, i),
        skip_word(s, i) < s.len() ==> white(s[skip_word(s, i)]),
        forall|j: int| i <= j < skip_word(s, i) ==> !white(#[trigger] s[j]),
    decreases s.len() - i,
{
    if i < s.len() && !white(s[i]) {
        lemma_skip_word(s, i + 1);
    }
}

/// Computes `skip_white`.
fn after_white(s: &Vec<char>, from: usize) -> (at: usize)
    requires
        from <= s.len(),
    ensures
        from <= at <= s.len(),
        at == skip_white(s@, from as int),
{
    let mut i: usize = from;
    while i < s.len() && is_white(s[i])
        invariant
            from <= i <= s.len(),
            skip_white(s@, from as int) == skip_white(s@, i as int),
        decreases s.len() - i,
    {
        i += 1;
    }
    i
}

/// Computes `skip_word`.
fn after_word(s: &Vec<char>, from: usize) -> (at: usize)
    requires
        from <= s.len(),
    ensures
        from <= at <= s.len(),
        at == skip_word(s@, from as int),
{
    let mut i: usize = from;
    while i < s.len() && !is_white(s[i])
        invariant
            from <= i <= s.len(),
            skip_word(s@, from as int) == skip_word(s@, i as int),
        decreases s.len() - i,
    {
        i += 1;
    }
    i
}

/// Drops the white space at the two ends of a text.
pub fn trim(s: &str) -> (out: String)
    ensures
        out@ == trimmed(s@),
{
    let chars = chars_of(s);
    let start: usize = after_white(&chars, 0);
    let mut end: usize = chars.len();
    while end > 0 && is_white(chars[end - 1])
        invariant
            end <= chars.len(),
            drop_white_end(chars@, chars@.len() as int) == drop_white_end(chars@, end as int),
        decreases end,
    {
        end -= 1;
    }
    if start < end {
        slice_string(&chars, start, end)
    } else {
        String::new()
    }
}

/// The words of a text from position `i` on: its longest runs without white space.
pub open spec fn words_from(s: Seq<char>, i: int) -> Seq<Seq<char>>
    decreases s.len() - i,
{
    if i < 0 {
        Seq::empty()
    } else {
        let start = skip_white(s, i);
        if start < s.len() {
            let end = skip_word(s, start);
            proof {
                if i <= s.len() {
                    lemma_skip_white(s, i);
                    lemma_skip_word(s, start);
                }
            }
            seq![s.subrange(start, end)] + words_from(s, end)
        } else {
            Seq::empty()
        }
    }
}

/// The words of a text.
pub open spec fn words(s: Seq<char>) -> Seq<Seq<char>> {
    words_from(s, 0)
}

/// What the strings of a list hold.
pub open spec fn texts(list: Seq<String>) -> Seq<Seq<char>> {
    list.map_values(|s: String| s@)
}

/// A second list of strings that hold the same.
pub fn copy_texts(list: &Vec<String>) -> (out: Vec<String>)
    ensures
        texts(out@) == texts(list@),
{
    let mut out: Vec<String> = Vec::new();
    let mut i: usize = 0;
    while i < list.len()
        invariant
            i <= list.len(),
            out.len() == i,
            forall|j: int| 0 <= j < i ==> (#[trigger] out@[j])@ == list@[j]@,
        decreases list.len() - i,
    {
        out.push(list[i].clone());
        i += 1;
    }
    assert(texts(out@) =~= texts(list@));
    out
}

/// Appends a string to a list.
pub fn add_text(list: &mut Vec<String>, s: String)
    ensures
        texts(final(list)@) == texts(old(list)@).push(s@),
{
    let ghost before = texts(list@);
    list.push(s);
    assert(texts(list@) =~= before.push(s@));
}

/// Appends the strings of another list to a list.
pub fn add_texts(list: &mut Vec<String>, more: &Vec<String>)
    ensures
        texts(final(list)@) == texts(old(list)@) + texts(more@),
{
    let mut rest = copy_texts(more);
    let ghost head = texts(list@);
    let ghost tail = texts(rest@);
    list.append(&mut rest);
    assert(texts(list@) =~= head + tail);
}

/// What an optional text holds.
pub open spec fn opt_text(o: Option<&str>) -> Option<Seq<char>> {
    match o {
        Some(s) => Some(s@),
        None => None,
    }
}

/// What an optional string holds.
pub open spec fn opt_string(o: Option<String>) -> Option<Seq<char>> {
    match o {
        Some(s) => Some(s@),
        None => None,
    }
}

/// An optional string as an optional text.
pub fn as_text(o: &Option<String>) -> (t: Option<&str>)
    ensures
        opt_text(t) == opt_string(*o),
{
    match o {
        Some(s) => Some(s.as_str()),
        None => None,
    }
}

/// A second optional string that holds the same.
pub fn copy_optional(o: &Option<String>) -> (other: Option<String>)
    ensures
        opt_string(other) == opt_string(*o),
{
    match o {
        Some(s) => Some(s.clone()),
        None => None,
    }
}

/// What the texts of a list hold.
pub open spec fn str_views(list: Seq<&str>) -> Seq<Seq<char>> {
    list.map_values(|s: &str| s@)
}

/// The strings for a list of texts.
pub fn strings(list: &[&str]) -> (out: Vec<String>)
    ensures
        texts(out@) == str_views(list@),
{
    let mut out: Vec<String> = Vec::new();
    let mut i: usize = 0;
    while i < list.len()
        invariant
            i <= list.len(),
            out.len() == i,
            forall|j: int| 0 <= j < i ==> (#[trigger] out@[j])@ == list@[j]@,
        decreases list.len() - i,
    {
        out.push(list[i].to_string());
        i += 1;
    }
    assert(texts(out@) =~= str_views(list@));
    out
}

/// Splits a text into its words.
pub fn split_words(s: &str) -> (out: Vec<String>)
    ensures
        texts(out@) == words(s@),
{
    let chars = chars_of(s);
    let mut out: Vec<String> = Vec::new();
    let mut i: usize = 0;
    loop
        invariant
            chars@ == s@,
            i <= chars.len(),
            words(s@) == texts(out@) + words_from(s@, i as int),
        decreases chars.len() - i,
    {
        let start: usize = after_white(&chars, i);
        if start == chars.len() {
            assert(words_from(s@, i as int) =~= Seq::empty());
            assert(words(s@) =~= texts(out@));
            return out;
        }
        proof {
            lemma_skip_white(s@, i as int);
            lemma_skip_word(s@, start as int);
        }
        let end: usize = after_word(&chars, start);
        let word = slice_string(&chars, start, end);
        let ghost before = texts(out@);
        out.push(word);
        assert(texts(out@) =~= before.push(s@.subrange(start as int, end as int)));
        assert(words(s@) =~= texts(out@) + words_from(s@, end as int));
        i = end;
    }
}

/// The first position from `i` on of a line feed, or the length of the text.
pub open spec fn line_feed(s: Seq<char>, i: int) -> int
    decreases s.len() - i,
{
    if 0 <= i < s.len() && s[i] != '\n' {
        line_feed(s, i + 1)
    } else {
        i
    }
}

/// `line_feed` moves forward, and not beyond the end of the text.
pub proof fn lemma_line_feed(s: Seq<char>, i: int)
    requires
        0 <= i <= s.len(),
    ensures
        i <= line_feed(s, i) <= s.len(),
        line_feed(s, i) < s.len() ==> s[line_feed(s, i)] == '\n',
        forall|j: int| i <= j < line_feed(s, i) ==> #[trigger] s[j] != '\n',
    decreases s.len() - i,
{
    if i < s.len() && s[i] != '\n' {
        lemma_line_feed(s, i + 1);
    }
}

/// A line without one carriage return at its end.
pub open spec fn without_return(line: Seq<char>) -> Seq<char> {
    if line.len() > 0 && line.last() == '\r' {
        line.drop_last()
    } else {
        line
    }
}

/// The lines of a text from position `i` on. A line ends with a line feed, or with a carriage
/// return and a line feed; the last line may end with the text.
pub open spec fn lines_from(s: Seq<char>, i: int) -> Seq<Seq<char>>
    decreases s.len() - i,
{
    if 0 <= i < s.len() {
        let end = line_feed(s, i);
        proof {
            lemma_line_feed(s, i);
        }
        if end < s.len() {
            seq![without_return(s.subrange(i, end))] + lines_from(s, end + 1)
        } else {
            seq![s.subrange(i, s.len() as int)]
        }
    } else {
        Seq::empty()
    }
}

/// The lines of a text.
pub open spec fn lines(s: Seq<char>) -> Seq<Seq<char>> {
    lines_from(s, 0)
}

/// Splits a text into its lines.
pub fn split_lines(s: &str) -> (out: Vec<String>)
    ensures
        texts(out@) == lines(s@),
{
    let chars = chars_of(s);
    let mut out: Vec<String> = Vec::new();
    let mut i: usize = 0;
    assert(lines(s@) =~= texts(out@) + lines_from(s@, 0));
    while i < chars.len()
        invariant
            chars@ == s@,
            i <= chars.len(),
            lines(s@) == texts(out@) + lines_from(s@, i as int),
        decreases chars.len() - i,
    {
        let mut end: usize = i;
        while end < chars.len() && chars[end] != '\n'
            invariant
                chars@ == s@,
                i <= end <= chars.len(),
                line_feed(s@, i as int) == line_feed(s@, end as int),
            decreases chars.len() - end,
        {
            end += 1;
        }
        let ghost before = texts(out@);
        if end < chars.len() {
            let stop: usize = if end > i && chars[end - 1] == '\r' {
                end - 1
            } else {
                end
            };
            assert(chars@.subrange(i as int, stop as int) =~= without_return(
                s@.subrange(i as int, end as int),
            ));
            out.push(slice_string(&chars, i, stop));
            assert(texts(out@) =~= before.push(
                without_return(s@.subrange(i as int, end as int)),
            ));
            assert(lines(s@) =~= texts(out@) + lines_from(s@, end + 1));
            i = end + 1;
        } else {
            out.push(slice_string(&chars, i, end));
            assert(texts(out@) =~= before.push(s@.subrange(i as int, end as int)));
            assert(lines(s@) =~= texts(out@) + lines_from(s@, end as int));
            i = end;
        }
    }
    assert(lines(s@) =~= texts(out@));
    out
}

/// The text of `a` followed by that of `b`.
pub fn cat2(a: &str, b: &str) -> (out: String)
    ensures
        out@ == a@ + b@,
{
    let mut out = a.to_string();
    out.append(b);
    out
}

/// The texts of `a`, `b` and `c`, one after the other.
pub fn cat3(a: &str, b: &str, c: &str) -> (out: String)
    ensures
        out@ == a@ + b@ + c@,
{
    let mut out = cat2(a, b);
    out.append(c);
    out
}

/// The texts of `a`, `b`, `c` and `d`, one after the other.
pub fn cat4(a: &str, b: &str, c: &str, d: &str) -> (out: String)
    ensures
        out@ == a@ + b@ + c@ + d@,
{
    let mut out = cat3(a, b, c);
    out.append(d);
    out
}

/// The texts of `a`, `b`, `c`, `d` and `e`, one after the other.
pub fn cat5(a: &str, b: &str, c: &str, d: &str, e: &str) -> (out: String)
    ensures
        out@ == a@ + b@ + c@ + d@ + e@,
{
    let mut out = cat4(a, b, c, d);
    out.append(e);
    out
}

/// A text with each space written as `%s`.
pub open spec fn spaces_escaped(s: Seq<char>) -> Seq<char>
    decreases s.len(),
{
    if s.len() == 0 {
        Seq::empty()
    } else if s.last() == ' ' {
        spaces_escaped(s.drop_last()) + seq!['%', 's']
    } else {
        spaces_escaped(s.drop_last()).push(s.last())
    }
}

/// Writes each space of a text as `%s`.
pub fn escape_spaces(s: &str) -> (out: String)
    ensures
        out@ == spaces_escaped(s@),
{
    let chars = chars_of(s);
    let mut out = String::new();
    let mut i: usize = 0;
    while i < chars.len()
        invariant
            chars@ == s@,
            i <= chars.len(),
            out@ == spaces_escaped(s@.take(i as int)),
        decreases chars.len() - i,
    {
        assert(s@.take(i + 1).drop_last() =~= s@.take(i as int));
        let c: char = chars[i];
        if c == ' ' {
            out.push('%');
            out.push('s');
            assert(out@ =~= spaces_escaped(s@.take(i as int)) + seq!['%', 's']);
        } else {
            out.push(c);
        }
        i += 1;
    }
    assert(s@.take(chars.len() as int) =~= s@);
    out
}

/// The decimal digit for a number below ten.
pub open spec fn digit(d: nat) -> char {
    (48 + d) as char
}

/// The decimal digits of a number.
pub open spec fn decimal(n: nat) -> Seq<char>
    decreases n,
{
    if n < 10 {
        seq![digit(n)]
    } else {
        decimal(n / 10).push(digit(n % 10))
    }
}

/// The decimal digits of a number, with a minus sign before a negative one.
pub open spec fn signed_decimal(n: int) -> Seq<char> {
    if n < 0 {
        seq!['-'] + decimal((-n) as nat)
    } else {
        decimal(n as nat)
    }
}

/// A number has at least one decimal digit, and nothing else.
pub proof fn lemma_decimal_digits(n: nat)
    ensures
        0 < decimal(n).len(),
        forall|i: int| 0 <= i < decimal(n).len() ==> '0' <= #[trigger] decimal(n)[i] <= '9',
    decreases n,
{
    if n >= 10 {
        lemma_decimal_digits(n / 10);
    }
}

/// Writes a number in decimal digits.
pub fn decimal_text(n: u64) -> (out: String)
    ensures
        out@ == decimal(n as nat),
    decreases n,
{
    let d: char = (48 + (n % 10) as u8) as char;
    if n < 10 {
        let mut out = String::new();
        out.push(d);
        assert(out@ =~= seq![digit(n as nat)]);
        out
    } else {
        let mut out = decimal_text(n / 10);
        out.push(d);
        out
    }
}

/// Writes a number in decimal digits, with a minus sign where it is negative.
pub fn signed_decimal_text(n: i32) -> (out: String)
    ensures
        out@ == signed_decimal(n as int),
{
    if n < 0 {
        let digits = decimal_text((-(n as i64)) as u64);
        let mut out = String::new();
        out.push('-');
        assert(out@ =~= seq!['-']);
        out.append(digits.as_str());
        out
    } else {
        decimal_text(n as u64)
    }
}

/// A text filled up with spaces to `width` characters.
pub open spec fn padded(s: Seq<char>, width: nat) -> Seq<char> {
    if s.len() < width {
        s + Seq::new((width - s.len()) as nat, |i: int| ' ')
    } else {
        s
    }
}

/// Fills a text up with spaces to `width` characters.
pub fn pad_right(s: String, width: usize) -> (out: String)
    ensures
        out@ == padded(s@, width as nat),
{
    let len: usize = chars_of(s.as_str()).len();
    let mut out = s;
    let mut n: usize = len;
    while n < width
        invariant
            len == s@.len(),
            len <= n,
            len < width ==> n <= width,
            width <= len ==> n == len,
            out@ =~= s@ + Seq::new((n - len) as nat, |i: int| ' '),
        decreases width - n,
    {
        out.push(' ');
        n += 1;
    }
    out
}

/// The texts of a list with `separator` between each two.
pub open spec fn joined(list: Seq<Seq<char>>, separator: Seq<char>) -> Seq<char>
    decreases list.len(),
{
    if list.len() == 0 {
        Seq::empty()
    } else if list.len() == 1 {
        list[0]
    } else {
        joined(list.drop_last(), separator) + separator + list.last()
    }
}

/// Joins the strings of a list with `separator` between each two.
pub fn join(list: &Vec<String>, separator: &str) -> (out: String)
    ensures
        out@ == joined(texts(list@), separator@),
{
    let mut out = String::new();
    let mut i: usize = 0;
    while i < list.len()
        invariant
            i <= list.len(),
            out@ == joined(texts(list@).take(i as int), separator@),
        decreases list.len() - i,
    {
        let ghost upto = texts(list@).take(i + 1);
        assert(upto.drop_last() =~= texts(list@).take(i as int));
        assert(upto.last() == list@[i as int]@);
        if i > 0 {
            out.append(separator);
            out.append(list[i].as_str());
        } else {
            out.append(list[i].as_str());
            assert(out@ =~= upto[0]);
        }
        i += 1;
    }
    assert(texts(list@).take(list@.len() as int) =~= texts(list@));
    out
}

/// Whether `a` stands before `b` in the order of their characters, from position `i` on.
pub open spec fn before_from(a: Seq<char>, b: Seq<char>, i: int) -> bool
    decreases b.len() - i,
{
    if i < 0 || i >= b.len() {
        false
    } else if i >= a.len() {
        true
    } else if a[i] == b[i] {
        before_from(a, b, i + 1)
    } else {
        a[i] < b[i]
    }
}

/// Whether `a` stands before `b` in the order of their characters: the order of strings.
pub open spec fn before(a: Seq<char>, b: Seq<char>) -> bool {
    before_from(a, b, 0)
}

/// Decides `before`.
pub fn is_before(a: &str, b: &str) -> (yes: bool)
    ensures
        yes == before(a@, b@),
{
    let x = chars_of(a);
    let y = chars_of(b);
    let mut i: usize = 0;
    while i < x.len() && i < y.len() && x[i] == y[i]
        invariant
            x@ == a@,
            y@ == b@,
            i <= x.len(),
            i <= y.len(),
            before(a@, b@) == before_from(a@, b@, i as int),
        decreases x.len() - i,
    {
        i += 1;
    }
    if i == y.len() {
        false
    } else if i == x.len() {
        true
    } else {
        x[i] < y[i]
    }
}

proof fn lemma_before_from_transitive(a: Seq<char>, b: Seq<char>, c: Seq<char>, i: int)
    requires
        0 <= i,
        before_from(a, b, i),
        before_from(b, c, i),
    ensures
        before_from(a, c, i),
    decreases c.len() - i,
{
    if i < a.len() && i < b.len() && i < c.len() && a[i] == b[i] && b[i] == c[i] {
        lemma_before_from_transitive(a, b, c, i + 1);
    }
}

proof fn lemma_before_from_total(a: Seq<char>, b: Seq<char>, i: int)
    requires
        0 <= i <= a.len(),
        i <= b.len(),
        a.take(i) == b.take(i),
    ensures
        before_from(a, b, i) || before_from(b, a, i) || a == b,
    decreases b.len() - i,
{
    if i < a.len() && i < b.len() {
        if a[i] == b[i] {
            assert(a.take(i + 1) =~= a.take(i).push(a[i]));
            assert(b.take(i + 1) =~= b.take(i).push(b[i]));
            lemma_before_from_total(a, b, i + 1);
        }
    } else if i == a.len() && i == b.len() {
        assert(a.take(i) =~= a);
        assert(b.take(i) =~= b);
    }
}

proof fn lemma_before_from_irreflexive(a: Seq<char>, i: int)
    ensures
        !before_from(a, a, i),
    decreases a.len() - i,
{
    if 0 <= i < a.len() {
        lemma_before_from_irreflexive(a, i + 1);
    }
}

/// `before` is transitive.
pub proof fn lemma_before_transitive(a: Seq<char>, b: Seq<char>, c: Seq<char>)
    requires
        before(a, b),
        before(b, c),
    ensures
        before(a, c),
{
    lemma_before_from_transitive(a, b, c, 0);
}

/// Of two different texts one stands before the other.
pub proof fn lemma_before_total(a: Seq<char>, b: Seq<char>)
    ensures
        before(a, b) || before(b, a) || a == b,
{
    assert(a.take(0) =~= b.take(0));
    lemma_before_from_total(a, b, 0);
}

/// No text stands before itself.
pub proof fn lemma_before_irreflexive(a: Seq<char>)
    ensures
        !before(a, a),
{
    lemma_before_from_irreflexive(a, 0);
}

/// An escaped text has no space in it; one that had none stays as it is.
pub proof fn law_escaped_text_has_no_space(s: Seq<char>)
    ensures
        !spaces_escaped(s).contains(' '),
        !s.contains(' ') ==> spaces_escaped(s) == s,
    decreases s.len(),
{
    if s.len() > 0 {
        let rest = s.drop_last();
        law_escaped_text_has_no_space(rest);
        assert forall|i: int| 0 <= i < spaces_escaped(s).len() implies spaces_escaped(s)[i]
            != ' ' by {
            if i < spaces_escaped(rest).len() {
                assert(spaces_escaped(rest)[i] == spaces_escaped(s)[i]);
                assert(spaces_escaped(rest).contains(spaces_escaped(rest)[i]));
            }
        }
        if !s.contains(' ') {
            assert forall|i: int| 0 <= i < rest.len() implies rest[i] != ' ' by {
                assert(s.contains(s[i]));
            }
            assert(s.contains(s.last()));
            assert(spaces_escaped(s) =~= s);
        }
    }
}

/// Whether a text is a word: it is not empty, and no character of it is white space.
pub open spec fn is_word(s: Seq<char>) -> bool {
    0 < s.len() && forall|i: int| 0 <= i < s.len() ==> !white(#[trigger] s[i])
}

/// The words of a text are words.
pub proof fn lemma_words_are_words(s: Seq<char>, i: int)
    requires
        0 <= i <= s.len(),
    ensures
        forall|k: int| 0 <= k < words_from(s, i).len() ==> is_word(#[trigger] words_from(s, i)[k]),
    decreases s.len() - i,
{
    let start = skip_white(s, i);
    lemma_skip_white(s, i);
    if start < s.len() {
        let end = skip_word(s, start);
        lemma_skip_word(s, start);
        lemma_words_are_words(s, end);
        let first = s.subrange(start, end);
        let rest = words_from(s, end);
        assert(is_word(first));
        assert forall|k: int| 0 <= k < words_from(s, i).len() implies is_word(
            #[trigger] words_from(s, i)[k],
        ) by {
            if k > 0 {
                assert(words_from(s, i)[k] == rest[k - 1]);
            }
        }
    }
}

/// A text in lower case stays as it is in lower case.
pub proof fn lemma_lower_twice(s: Seq<char>)
    ensures
        lower(lower(s)) == lower(s),
{
    assert(lower(lower(s)) =~= lower(s));
}

/// What stands before a text does not change where its white space ends.
proof fn lemma_skip_white_behind(a: Seq<char>, b: Seq<char>, i: int)
    requires
        0 <= i <= b.len(),
    ensures
        skip_white(a + b, a.len() + i) == a.len() + skip_white(b, i),
    decreases b.len() - i,
{
    if i < b.len() {
        assert((a + b)[a.len() + i] == b[i]);
        if white(b[i]) {
            lemma_skip_white_behind(a, b, i + 1);
        }
    }
}

/// What stands before a text does not change where its words end.
proof fn lemma_skip_word_behind(a: Seq<char>, b: Seq<char>, i: int)
    requires
        0 <= i <= b.len(),
    ensures
        skip_word(a + b, a.len() + i) == a.len() + skip_word(b, i),
    decreases b.len() - i,
{
    if i < b.len() {
        assert((a + b)[a.len() + i] == b[i]);
        if !white(b[i]) {
            lemma_skip_word_behind(a, b, i + 1);
        }
    }
}

/// What stands before a text does not change its words.
proof fn lemma_words_behind(a: Seq<char>, b: Seq<char>, i: int)
    requires
        0 <= i <= b.len(),
    ensures
        words_from(a + b, a.len() + i) == words_from(b, i),
    decreases b.len() - i,
{
    let start = skip_white(b, i);
    lemma_skip_white(b, i);
    lemma_skip_white_behind(a, b, i);
    if start < b.len() {
        let end = skip_word(b, start);
        lemma_skip_word(b, start);
        lemma_skip_word_behind(a, b, start);
        lemma_words_behind(a, b, end);
        assert((a + b).subrange(a.len() + start, a.len() + end) =~= b.subrange(start, end));
    }
}

proof fn lemma_skip_white_to_space(a: Seq<char>, c: char, b: Seq<char>, i: int)
    requires
        white(c),
        0 <= i <= a.len(),
    ensures
        skip_white(a, i) < a.len() ==> skip_white(a + seq![c] + b, i) == skip_white(a, i),
        skip_white(a, i) >= a.len() ==> skip_white(a + seq![c] + b, i) == skip_white(
            a + seq![c] + b,
            (a.len() + 1) as int,
        ),
    decreases a.len() - i,
{
    let all = a + seq![c] + b;
    if i < a.len() {
        assert(all[i] == a[i]);
        if white(a[i]) {
            lemma_skip_white_to_space(a, c, b, i + 1);
        }
    } else {
        assert(all[i] == c);
    }
}

proof fn lemma_skip_word_to_space(a: Seq<char>, c: char, b: Seq<char>, i: int)
    requires
        white(c),
        0 <= i <= a.len(),
    ensures
        skip_word(a + seq![c] + b, i) == skip_word(a, i),
    decreases a.len() - i,
{
    let all = a + seq![c] + b;
    if i < a.len() {
        assert(all[i] == a[i]);
        if !white(a[i]) {
            lemma_skip_word_to_space(a, c, b, i + 1);
        }
    } else {
        assert(all[i] == c);
    }
}

/// White space between two texts parts their words.
proof fn lemma_words_part_from(a: Seq<char>, c: char, b: Seq<char>, i: int)
    requires
        white(c),
        0 <= i <= a.len(),
    ensures
        words_from(a + seq![c] + b, i) == words_from(a, i) + words(b),
    decreases a.len() - i,
{
    let all = a + seq![c] + b;
    let start = skip_white(a, i);
    lemma_skip_white(a, i);
    lemma_skip_white_to_space(a, c, b, i);
    if start < a.len() {
        let end = skip_word(a, start);
        lemma_skip_word(a, start);
        lemma_skip_word_to_space(a, c, b, start);
        lemma_words_part_from(a, c, b, end);
        assert(all.subrange(start, end) =~= a.subrange(start, end));
        assert(words_from(all, i) =~= words_from(a, i) + words(b));
    } else {
        lemma_words_behind(a + seq![c], b, 0);
        lemma_skip_white(all, (a.len() + 1) as int);
        assert(words_from(all, i) == words_from(all, (a.len() + 1) as int));
        assert(words_from(a, i) =~= Seq::empty());
        assert(words_from(all, i) =~= words_from(a, i) + words(b));
    }
}

/// White space between two texts parts their words.
pub proof fn lemma_words_part(a: Seq<char>, c: char, b: Seq<char>)
    requires
        white(c),
    ensures
        words(a + seq![c] + b) == words(a) + words(b),
{
    lemma_words_part_from(a, c, b, 0);
}

/// A word has one word in it.
pub proof fn lemma_word_is_one_word(w: Seq<char>)
    requires
        is_word(w),
    ensures
        words(w) == seq![w],
{
    lemma_skip_word(w, 0);
    assert(skip_white(w, 0) == 0);
    let end = skip_word(w, 0);
    if end < w.len() {
        assert(white(w[end]));
    }
    assert(w.subrange(0, end) =~= w);
    assert(words_from(w, end) =~= Seq::empty());
    assert(words(w) =~= seq![w]);
}

/// The words of words that are joined with spaces are these words.
pub proof fn lemma_words_of_joined(list: Seq<Seq<char>>)
    requires
        forall|k: int| 0 <= k < list.len() ==> is_word(#[trigger] list[k]),
    ensures
        words(joined(list, " "@)) == list,
        forall|i: int|
            0 <= i < joined(list, " "@).len() ==> #[trigger] joined(list, " "@)[i] == ' ' || !white(
                joined(list, " "@)[i],
            ),
        list.len() > 0 ==> joined(list, " "@).len() > 0 && !white(joined(list, " "@).last()),
    decreases list.len(),
{
    reveal_strlit(" ");
    if list.len() == 0 {
        assert(words(joined(list, " "@)) =~= list);
    } else if list.len() == 1 {
        assert(is_word(list[0]));
        lemma_word_is_one_word(list[0]);
        assert(words(joined(list, " "@)) =~= list);
    } else {
        let front = list.drop_last();
        assert forall|k: int| 0 <= k < front.len() implies is_word(#[trigger] front[k]) by {
            assert(is_word(list[k]));
        }
        lemma_words_of_joined(front);
        assert(is_word(list.last()));
        lemma_word_is_one_word(list.last());
        assert(" "@ =~= seq![' ']);
        lemma_words_part(joined(front, " "@), ' ', list.last());
        assert(words(joined(list, " "@)) =~= list);
    }
}

/// A line that is appended to whole lines is the last of their lines.
pub proof fn lemma_lines_grow(whole: Seq<char>, line: Seq<char>, i: int)
    requires
        whole.len() == 0 || whole.last() == '\n',
        forall|k: int| 0 <= k < line.len() ==> #[trigger] line[k] != '\n',
        line.len() > 0 ==> line.last() != '\r',
        0 <= i <= whole.len(),
    ensures
        lines_from(whole + line + seq!['\n'], i) == lines_from(whole, i).push(line),
    decreases whole.len() - i,
{
    let all = whole + line + seq!['\n'];
    lemma_line_feed(all, i);
    let end = line_feed(all, i);
    if i < whole.len() {
        lemma_line_feed(whole, i);
        let own = line_feed(whole, i);
        assert(whole[whole.len() - 1] == '\n');
        assert(all[own] == whole[own]);
        if end < own {
            assert(all[end] == whole[end]);
        }
        assert(end == own);
        assert(all.subrange(i, end) =~= whole.subrange(i, end));
        lemma_lines_grow(whole, line, end + 1);
        assert(lines_from(all, i) =~= lines_from(whole, i).push(line));
    } else {
        let last = whole.len() + line.len();
        assert(all[last as int] == '\n');
        if end < last {
            assert(all[end] == line[end - whole.len()]);
        }
        assert(end == last);
        assert(all.subrange(i, end) =~= line);
        assert(lines_from(all, end + 1) =~= Seq::empty());
        assert(lines_from(whole, i) =~= Seq::empty());
        assert(lines_from(all, i) =~= seq![line]);
    }
}

/// The number that decimal digits stand for.
pub open spec fn digits_value(s: Seq<char>) -> int
    decreases s.len(),
{
    if s.len() == 0 {
        0
    } else {
        digits_value(s.drop_last()) * 10 + (s.last() as int - '0' as int)
    }
}

/// The number that decimal digits stand for, a minus sign before them or not.
pub open spec fn number_value(s: Seq<char>) -> int {
    if s.len() > 0 && s[0] == '-' {
        -digits_value(s.skip(1))
    } else {
        digits_value(s)
    }
}

proof fn lemma_decimal_value(n: nat)
    ensures
        digits_value(decimal(n)) == n,
    decreases n,
{
    let s = decimal(n);
    if n >= 10 {
        lemma_decimal_value(n / 10);
        assert(s.drop_last() =~= decimal(n / 10));
    } else {
        assert(s.drop_last() =~= Seq::<char>::empty());
        assert(digits_value(s.drop_last()) == 0);
    }
}

/// A number that is written in decimal digits is read back as it was; and so is one with a sign.
pub proof fn law_decimal_is_read_back(n: nat, z: int)
    ensures
        number_value(decimal(n)) == n,
        number_value(signed_decimal(z)) == z,
{
    lemma_decimal_value(n);
    lemma_decimal_digits(n);
    assert(decimal(n)[0] != '-');
    if z < 0 {
        lemma_decimal_value((-z) as nat);
        assert(signed_decimal(z).skip(1) =~= decimal((-z) as nat));
    } else {
        lemma_decimal_value(z as nat);
        lemma_decimal_digits(z as nat);
        assert(decimal(z as nat)[0] != '-');
    }
}

/// A text is escaped character by character: a space becomes `%s`, any other character stays, and
/// the parts of a text are escaped each by itself.
pub proof fn law_escaping_goes_by_the_character(a: Seq<char>, b: Seq<char>, c: char)
    ensures
        spaces_escaped(a + b) == spaces_escaped(a) + spaces_escaped(b),
        spaces_escaped(seq![' ']) == seq!['%', 's'],
        c != ' ' ==> spaces_escaped(seq![c]) == seq![c],
    decreases b.len(),
{
    reveal_with_fuel(spaces_escaped, 2);
    assert(seq![' '].drop_last() =~= Seq::<char>::empty());
    assert(seq![c].drop_last() =~= Seq::<char>::empty());
    assert(spaces_escaped(seq![' ']) =~= seq!['%', 's']);
    if c != ' ' {
        assert(spaces_escaped(seq![c]) =~= seq![c]);
    }
    if b.len() == 0 {
        assert(a + b =~= a);
        assert(spaces_escaped(a + b) =~= spaces_escaped(a) + spaces_escaped(b));
    } else {
        law_escaping_goes_by_the_character(a, b.drop_last(), c);
        assert((a + b).drop_last() =~= a + b.drop_last());
        assert((a + b).last() == b.last());
        assert(spaces_escaped(a + b) =~= spaces_escaped(a) + spaces_escaped(b));
    }
}

/// Lower case turns each ASCII capital into the small letter thirty-two places on, and leaves every
/// other character and the length of a text.
pub proof fn law_lower_case_is_for_capitals(s: Seq<char>, i: int)
    requires
        0 <= i < s.len(),
    ensures
        lower(s).len() == s.len(),
        65 <= s[i] as int <= 90 ==> lower(s)[i] as int == s[i] as int + 32,
        !(65 <= s[i] as int <= 90) ==> lower(s)[i] == s[i],
{
}

/// Whether a text has the query in it at some position, the case of ASCII letters aside.
pub open spec fn found_in(value: Seq<char>, query: Seq<char>) -> bool {
    exists|i: int|
        0 <= i && i + query.len() <= value.len() && lower(
            #[trigger] value.subrange(i, i + query.len()),
        ) == lower(query)
}

/// A search in lower case finds a query just where it stands in the text, the case of ASCII letters
/// aside; so it does in a text that is something, the query and something.
pub proof fn law_search_finds_every_occurrence(
    value: Seq<char>,
    query: Seq<char>,
    ahead: Seq<char>,
    behind: Seq<char>,
)
    ensures
        holds(lower(value), lower(query)) <==> found_in(value, query),
        found_in(ahead + query + behind, query),
{
    let n = query.len() as int;
    if holds(lower(value), lower(query)) {
        let i = choose|i: int| occurs_at(lower(value), lower(query), i);
        assert(lower(value.subrange(i, i + n)) =~= lower(value).subrange(i, i + n));
    }
    if found_in(value, query) {
        let i = choose|i: int|
            0 <= i && i + n <= value.len() && lower(#[trigger] value.subrange(i, i + n)) == lower(
                query,
            );
        assert(lower(value.subrange(i, i + n)) =~= lower(value).subrange(i, i + n));
        assert(occurs_at(lower(value), lower(query), i));
    }
    let whole = ahead + query + behind;
    let at = ahead.len() as int;
    assert(whole.subrange(at, at + n) =~= query);
}

/// A trimmed text has no white space at its ends, and is what is left of the text between white
/// space.
pub proof fn law_trimming_takes_the_white_ends(s: Seq<char>)
    ensures
        trimmed(s).len() > 0 ==> !white(trimmed(s)[0]) && !white(trimmed(s).last()),
        exists|i: int, j: int|
            0 <= i <= j <= s.len() && trimmed(s) == #[trigger] s.subrange(i, j) && (forall|k: int|
                0 <= k < i || j <= k < s.len() ==> white(#[trigger] s[k])),
{
    let start = skip_white(s, 0);
    let end = drop_white_end(s, s.len() as int);
    lemma_skip_white(s, 0);
    lemma_drop_white_end(s, s.len() as int);
    if start < end {
        assert(trimmed(s) == s.subrange(start, end));
    } else {
        assert(start == s.len()) by {
            if start < s.len() {
                assert(!white(s[start]));
                assert(white(s[start]));
            }
        }
        assert(trimmed(s) =~= s.subrange(start, start));
    }
}

proof fn lemma_drop_white_end(s: Seq<char>, n: int)
    requires
        0 <= n <= s.len(),
    ensures
        0 <= drop_white_end(s, n) <= n,
        drop_white_end(s, n) > 0 ==> !white(s[drop_white_end(s, n) - 1]),
        forall|k: int| drop_white_end(s, n) <= k < n ==> white(#[trigger] s[k]),
    decreases n,
{
    if n > 0 && white(s[n - 1]) {
        lemma_drop_white_end(s, n - 1);
    }
}

/// A text holds a character just where the character stands in it.
pub proof fn lemma_holds_character(s: Seq<char>, c: char)
    ensures
        holds(s, seq![c]) <==> s.contains(c),
{
    if holds(s, seq![c]) {
        let i = choose|i: int| occurs_at(s, seq![c], i);
        assert(s.subrange(i, i + 1)[0] == c);
        assert(s[i] == c);
    }
    if s.contains(c) {
        let i = choose|i: int| 0 <= i < s.len() && s[i] == c;
        assert(s.subrange(i, i + 1) =~= seq![c]);
        assert(occurs_at(s, seq![c], i));
    }
}

/// White space is the white space of Unicode: these characters, and no others.
pub proof fn law_white_space_is_that_of_unicode(c: char)
    ensures
        white(c) <==> seq![
            '\t', '\n', '\u{b}', '\u{c}', '\r', ' ', '\u{85}', '\u{a0}', '\u{1680}', '\u{2000}',
            '\u{2001}', '\u{2002}', '\u{2003}', '\u{2004}', '\u{2005}', '\u{2006}', '\u{2007}',
            '\u{2008}', '\u{2009}', '\u{200a}', '\u{2028}', '\u{2029}', '\u{202f}', '\u{205f}',
            '\u{3000}',
        ].contains(c),
{
    let all = seq![
        '\t', '\n', '\u{b}', '\u{c}', '\r', ' ', '\u{85}', '\u{a0}', '\u{1680}', '\u{2000}',
        '\u{2001}', '\u{2002}', '\u{2003}', '\u{2004}', '\u{2005}', '\u{2006}', '\u{2007}',
        '\u{2008}', '\u{2009}', '\u{200a}', '\u{2028}', '\u{2029}', '\u{202f}', '\u{205f}',
        '\u{3000}',
    ];
    if white(c) {
        if c <= '\r' {
            assert(all[c as int - 9] == c);
        } else if '\u{2000}' <= c && c <= '\u{200a}' {
            assert(all[9 + (c as int - 0x2000)] == c);
        } else {
            assert(all[5] == c || all[6] == c || all[7] == c || all[8] == c || all[20] == c
                || all[21] == c || all[22] == c || all[23] == c || all[24] == c);
        }
    }
}

/// White space parts words, and nothing else does: words that it stands between are told apart, in
/// order, and a word is told whole.
pub proof fn law_white_space_parts_words(first: Seq<char>, c: char, second: Seq<char>, word: Seq<char>)
    requires
        white(c),
        is_word(word),
    ensures
        words(first + seq![c] + second) == words(first) + words(second),
        words(word) == seq![word],
        words(Seq::<char>::empty()).len() == 0,
{
    lemma_words_part(first, c, second);
    lemma_word_is_one_word(word);
}

proof fn lemma_lines_behind(ahead: Seq<char>, rest: Seq<char>, i: int)
    requires
        0 <= i <= rest.len(),
    ensures
        line_feed(ahead + rest, ahead.len() + i) == ahead.len() + line_feed(rest, i),
        lines_from(ahead + rest, ahead.len() + i) == lines_from(rest, i),
    decreases rest.len() - i,
{
    let all = ahead + rest;
    if i < rest.len() {
        assert(all[ahead.len() + i] == rest[i]);
        lemma_lines_behind(ahead, rest, i + 1);
        lemma_line_feed(rest, i);
        let end = line_feed(rest, i);
        assert(all.subrange(ahead.len() + i, ahead.len() + end) =~= rest.subrange(i, end));
        if end < rest.len() {
            lemma_lines_behind(ahead, rest, end + 1);
        } else {
            assert(all.subrange(ahead.len() + i, all.len() as int) =~= rest.subrange(
                i,
                rest.len() as int,
            ));
        }
    }
}

proof fn lemma_feed_at(line: Seq<char>, rest: Seq<char>, i: int)
    requires
        0 <= i <= line.len(),
        forall|k: int| 0 <= k < line.len() ==> #[trigger] line[k] != '\n',
    ensures
        line_feed(line + seq!['\n'] + rest, i) == line.len(),
        line_feed(line, i) == line.len(),
    decreases line.len() - i,
{
    let all = line + seq!['\n'] + rest;
    if i < line.len() {
        assert(all[i] == line[i]);
        lemma_feed_at(line, rest, i + 1);
    } else {
        assert(all[i] == '\n');
    }
}

/// A line ends with a line feed, or with a carriage return and a line feed, neither of which it
/// holds; what follows is told in its own lines. The last line may do without.
pub proof fn law_lines_end_with_a_line_feed(line: Seq<char>, rest: Seq<char>)
    requires
        forall|k: int| 0 <= k < line.len() ==> #[trigger] line[k] != '\n',
    ensures
        line.len() == 0 || line.last() != '\r' ==> lines(line + seq!['\n'] + rest) == seq![line]
            + lines(rest),
        lines(line + seq!['\r', '\n'] + rest) == seq![line] + lines(rest),
        0 < line.len() ==> lines(line) == seq![line],
        lines(Seq::<char>::empty()).len() == 0,
{
    let plain = line + seq!['\n'] + rest;
    lemma_feed_at(line, rest, 0);
    lemma_lines_behind(line + seq!['\n'], rest, 0);
    assert(plain.subrange(0, line.len() as int) =~= line);
    assert(line.subrange(0, line.len() as int) =~= line);
    let returned = line.push('\r');
    let all = returned + seq!['\n'] + rest;
    lemma_feed_at(returned, rest, 0);
    lemma_lines_behind(returned + seq!['\n'], rest, 0);
    assert(all.subrange(0, returned.len() as int) =~= returned);
    assert(returned.drop_last() =~= line);
    assert(all =~= line + seq!['\r', '\n'] + rest);
}

/// A text is filled up with spaces behind it until it has the width, and is left whole.
pub proof fn law_padding_is_spaces_behind(s: Seq<char>, width: nat)
    ensures
        s.is_prefix_of(padded(s, width)),
        padded(s, width).len() >= width,
        padded(s, width).len() == s.len() || padded(s, width).len() == width,
        forall|i: int| s.len() <= i < padded(s, width).len() ==> #[trigger] padded(s, width)[i] == ' ',
{
}

/// Texts are ordered by the first character in which they differ; one that the other goes on from
/// stands before it.
pub proof fn law_texts_are_ordered_by_their_characters(
    common: Seq<char>,
    x: char,
    y: char,
    first: Seq<char>,
    second: Seq<char>,
)
    ensures
        x != y ==> (before(common + seq![x] + first, common + seq![y] + second) <==> x < y),
        before(common, common + seq![x] + first),
        !before(common + seq![x] + first, common),
        !before(common, common),
{
    lemma_before_shares(common + seq![x] + first, common + seq![y] + second, common.len() as int);
    lemma_before_shares(common, common + seq![x] + first, common.len() as int);
    lemma_before_shares(common + seq![x] + first, common, common.len() as int);
    lemma_before_shares(common, common, common.len() as int);
}

proof fn lemma_before_shares(a: Seq<char>, b: Seq<char>, n: int)
    requires
        0 <= n <= a.len(),
        n <= b.len(),
        forall|k: int| 0 <= k < n ==> #[trigger] a[k] == b[k],
    ensures
        before(a, b) == before_from(a, b, n),
    decreases n,
{
    if n > 0 {
        lemma_before_shares(a, b, n - 1);
    }
}

} // verus!
