//! Character sequences: the text operations that the rest of the crate is
//! specified with, and their executable counterparts on `Vec<char>`.
//!
//! Every specification here speaks of `Seq<char>`, the view of a `str`.

use vstd::prelude::*;

verus! {

/// `needle` occurs in `hay` starting at position `at`.
pub open spec fn occurs_at(hay: Seq<char>, needle: Seq<char>, at: int) -> bool {
    &&& 0 <= at
    &&& at + needle.len() <= hay.len()
    &&& hay.subrange(at, at + needle.len()) == needle
}

/// `needle` occurs somewhere in `hay`. The empty sequence occurs everywhere.
pub open spec fn contains(hay: Seq<char>, needle: Seq<char>) -> bool {
    exists|at: int| occurs_at(hay, needle, at)
}

/// `hay` begins with `needle`.
pub open spec fn starts_with(hay: Seq<char>, needle: Seq<char>) -> bool {
    occurs_at(hay, needle, 0)
}

/// `hay` ends with `needle`.
pub open spec fn ends_with(hay: Seq<char>, needle: Seq<char>) -> bool {
    occurs_at(hay, needle, hay.len() - needle.len())
}

/// The characters with the Unicode property `White_Space`.
pub open spec fn is_whitespace(c: char) -> bool {
    let n = c as u32;
    ||| 0x09 <= n <= 0x0D
    ||| n == 0x20
    ||| n == 0x85
    ||| n == 0xA0
    ||| n == 0x1680
    ||| 0x2000 <= n <= 0x200A
    ||| n == 0x2028
    ||| n == 0x2029
    ||| n == 0x202F
    ||| n == 0x205F
    ||| n == 0x3000
}

/// How many characters stand before the first character of `s` that `stop`
/// holds of; the length of `s` when there is none.
pub open spec fn prefix_len(s: Seq<char>, stop: spec_fn(char) -> bool) -> nat
    decreases s.len(),
{
    if s.len() == 0 || stop(s[0]) {
        0
    } else {
        1 + prefix_len(s.drop_first(), stop)
    }
}

/// How many characters stand before the first whitespace of `s`.
pub open spec fn word_len(s: Seq<char>) -> nat {
    prefix_len(s, |c: char| is_whitespace(c))
}

/// The maximal runs of characters of `s` that hold no whitespace, in order.
pub open spec fn words(s: Seq<char>) -> Seq<Seq<char>>
    decreases s.len(),
{
    let n = word_len(s);
    if s.len() == 0 {
        Seq::empty()
    } else if n == 0 {
        words(s.drop_first())
    } else if n >= s.len() {
        seq![s]
    } else {
        seq![s.take(n as int)] + words(s.skip(n as int))
    }
}

/// How many characters stand before the first line feed of `s`.
pub open spec fn line_len(s: Seq<char>) -> nat {
    prefix_len(s, |c: char| c == '\n')
}

/// The pieces of `s` between its line feeds, in order. A text with `k` line
/// feeds has `k + 1` pieces; the last one is empty when the text ends in a
/// line feed.
pub open spec fn split_lines(s: Seq<char>) -> Seq<Seq<char>>
    decreases s.len(),
{
    let n = line_len(s);
    if n >= s.len() {
        seq![s]
    } else {
        seq![s.take(n as int)] + split_lines(s.skip(n as int + 1))
    }
}

/// The decimal digit for `d`, which is below ten.
pub open spec fn digit_char(d: nat) -> char {
    if d == 0 {
        '0'
    } else if d == 1 {
        '1'
    } else if d == 2 {
        '2'
    } else if d == 3 {
        '3'
    } else if d == 4 {
        '4'
    } else if d == 5 {
        '5'
    } else if d == 6 {
        '6'
    } else if d == 7 {
        '7'
    } else if d == 8 {
        '8'
    } else {
        '9'
    }
}

/// `n` written in base ten without leading zeros.
pub open spec fn decimal(n: nat) -> Seq<char>
    decreases n,
{
    if n < 10 {
        seq![digit_char(n)]
    } else {
        decimal(n / 10).push(digit_char(n % 10))
    }
}

/// `c` with an ASCII capital letter turned into its small letter.
pub open spec fn ascii_lower(c: char) -> char {
    if 'A' <= c <= 'Z' {
        ((c as u32) + 32) as char
    } else {
        c
    }
}

/// `s` with every ASCII capital letter turned into its small letter.
pub open spec fn fold_ascii(s: Seq<char>) -> Seq<char> {
    s.map_values(|c: char| ascii_lower(c))
}

/// What `str::to_lowercase` returns for a string with the characters `s`.
pub uninterp spec fn lowercase(s: Seq<char>) -> Seq<char>;

/// `str::to_lowercase`: the lowercase equivalent of the string, by the
/// Unicode rules that std implements. The contract only names the result.
#[verifier::external_body]
pub(crate) fn to_lowercase(s: &str) -> (lower: String)
    ensures
        lower@ == lowercase(s@),
{
    s.to_lowercase()
}

/// `String::push`: the character is appended at the end.
pub assume_specification[ String::push ](s: &mut String, c: char)
    ensures
        final(s)@ == old(s)@.push(c),
;

/// The characters of `s`, in order.
pub fn chars_of(s: &str) -> (v: Vec<char>)
    ensures
        v@ == s@,
{
    let mut v: Vec<char> = Vec::new();
    for c in it: s.chars()
        invariant
            v@ == it.seq().take(it.index() as int),
            it.seq() == s@,
    {
        v.push(c);
    }
    v
}

/// The string made of the characters `v[from..to]`.
pub(crate) fn string_of_range(v: &Vec<char>, from: usize, to: usize) -> (s: String)
    requires
        from <= to <= v.len(),
    ensures
        s@ == v@.subrange(from as int, to as int),
{
    let mut s = String::new();
    let mut i: usize = from;
    while i < to
        invariant
            from <= i <= to <= v.len(),
            s@ == v@.subrange(from as int, i as int),
        decreases to - i,
    {
        s.push(v[i]);
        i += 1;
    }
    s
}

/// The string made of the characters of `v`.
pub fn string_of(v: &Vec<char>) -> (s: String)
    ensures
        s@ == v@,
{
    let s = string_of_range(v, 0, v.len());
    s
}

/// Whether `needle` occurs in `hay` at position `at`.
pub fn occurs_at_exec(hay: &Vec<char>, needle: &Vec<char>, at: usize) -> (found: bool)
    ensures
        found == occurs_at(hay@, needle@, at as int),
{
    if needle.len() > hay.len() || at > hay.len() - needle.len() {
        return false;
    }
    let mut k: usize = 0;
    while k < needle.len()
        invariant
            k <= needle.len(),
            at + needle.len() <= hay.len(),
            forall|j: int| 0 <= j < k ==> hay@[at + j] == needle@[j],
        decreases needle.len() - k,
    {
        if hay[at + k] != needle[k] {
            return false;
        }
        k += 1;
    }
    assert(hay@.subrange(at as int, at + needle.len()) =~= needle@);
    true
}

/// Whether `needle` occurs somewhere in `hay`.
pub fn contains_exec(hay: &Vec<char>, needle: &Vec<char>) -> (found: bool)
    ensures
        found == contains(hay@, needle@),
{
    if needle.len() > hay.len() {
        return false;
    }
    let last: usize = hay.len() - needle.len();
    let mut at: usize = 0;
    while at < last
        invariant
            last == hay.len() - needle.len(),
            at <= last,
            forall|j: int| 0 <= j < at ==> !occurs_at(hay@, needle@, j),
        decreases last - at,
    {
        if occurs_at_exec(hay, needle, at) {
            return true;
        }
        at += 1;
    }
    occurs_at_exec(hay, needle, last)
}

/// Whether `hay` begins with `needle`.
pub fn starts_with_exec(hay: &Vec<char>, needle: &Vec<char>) -> (found: bool)
    ensures
        found == starts_with(hay@, needle@),
{
    occurs_at_exec(hay, needle, 0)
}

/// Whether `hay` ends with `needle`.
pub fn ends_with_exec(hay: &Vec<char>, needle: &Vec<char>) -> (found: bool)
    ensures
        found == ends_with(hay@, needle@),
{
    if needle.len() > hay.len() {
        return false;
    }
    occurs_at_exec(hay, needle, hay.len() - needle.len())
}

/// Whether two character sequences are the same.
pub fn same_chars(a: &Vec<char>, b: &Vec<char>) -> (same: bool)
    ensures
        same == (a@ == b@),
{
    if a.len() != b.len() {
        return false;
    }
    let same = occurs_at_exec(a, b, 0);
    assert(a@.subrange(0, a.len() as int) == a@);
    same
}

/// Whether `c` has the Unicode property `White_Space`.
pub fn is_whitespace_exec(c: char) -> (yes: bool)
    ensures
        yes == is_whitespace(c),
{
    let n: u32 = c as u32;
    (0x09 <= n && n <= 0x0D) || n == 0x20 || n == 0x85 || n == 0xA0 || n == 0x1680 || (0x2000 <= n
        && n <= 0x200A) || n == 0x2028 || n == 0x2029 || n == 0x202F || n == 0x205F || n == 0x3000
}


/// The views of the sequences in `v`, in order.
pub open spec fn views(v: Seq<Vec<char>>) -> Seq<Seq<char>> {
    v.map_values(|w: Vec<char>| w@)
}

/// A path separator: a slash or a backslash.
pub open spec fn is_separator(c: char) -> bool {
    c == '/' || c == '\\'
}

/// How many characters stand behind the last separator of `p`.
pub open spec fn tail_len(p: Seq<char>) -> nat
    decreases p.len(),
{
    if p.len() == 0 || is_separator(p.last()) {
        0
    } else {
        1 + tail_len(p.drop_last())
    }
}

/// The file name that the path `p` ends in: what stands behind its last
/// separator. A path that is empty or ends in a separator is its own name.
pub open spec fn base_name(p: Seq<char>) -> Seq<char> {
    let n = tail_len(p);
    if n == 0 {
        p
    } else {
        p.skip(p.len() - n)
    }
}

/// A stretch of `s` on which `stop` never holds adds its length to the
/// prefix length measured from its start.
pub proof fn lemma_prefix_len_run(s: Seq<char>, stop: spec_fn(char) -> bool, from: int, to: int)
    requires
        0 <= from <= to <= s.len(),
        forall|k: int| from <= k < to ==> !stop(#[trigger] s[k]),
    ensures
        prefix_len(s.skip(from), stop) == (to - from) + prefix_len(s.skip(to), stop),
    decreases to - from,
{
    if from < to {
        assert(s.skip(from).drop_first() =~= s.skip(from + 1));
        lemma_prefix_len_run(s, stop, from + 1, to);
    }
}

/// The prefix length is the position of the first character that `stop`
/// holds of, or the length where there is none.
pub proof fn lemma_prefix_len_is(s: Seq<char>, stop: spec_fn(char) -> bool, from: int, to: int)
    requires
        0 <= from <= to <= s.len(),
        forall|k: int| from <= k < to ==> !stop(#[trigger] s[k]),
        to == s.len() || stop(s[to]),
    ensures
        prefix_len(s.skip(from), stop) == to - from,
{
    lemma_prefix_len_run(s, stop, from, to);
    if to < s.len() {
    }
}

/// The end of the word that begins at `from`.
fn word_end(s: &Vec<char>, from: usize) -> (to: usize)
    requires
        from <= s.len(),
    ensures
        from <= to <= s.len(),
        to - from == word_len(s@.skip(from as int)),
{
    let mut to: usize = from;
    while to < s.len() && !is_whitespace_exec(s[to])
        invariant
            from <= to <= s.len(),
            forall|k: int| from <= k < to ==> !is_whitespace(#[trigger] s@[k]),
        decreases s.len() - to,
    {
        to += 1;
    }
    proof {
        let stop = |c: char| is_whitespace(c);
        assert forall|k: int| from <= k < to implies !stop(#[trigger] s@[k]) by {}
        lemma_prefix_len_is(s@, stop, from as int, to as int);
    }
    to
}

/// The end of the line that begins at `from`.
fn line_end(s: &Vec<char>, from: usize) -> (to: usize)
    requires
        from <= s.len(),
    ensures
        from <= to <= s.len(),
        to - from == line_len(s@.skip(from as int)),
{
    let mut to: usize = from;
    while to < s.len() && s[to] != '\n'
        invariant
            from <= to <= s.len(),
            forall|k: int| from <= k < to ==> #[trigger] s@[k] != '\n',
        decreases s.len() - to,
    {
        to += 1;
    }
    proof {
        let stop = |c: char| c == '\n';
        assert forall|k: int| from <= k < to implies !stop(#[trigger] s@[k]) by {}
        lemma_prefix_len_is(s@, stop, from as int, to as int);
    }
    to
}

/// A copy of the characters `s[from..to]`.
pub(crate) fn copy_range(s: &Vec<char>, from: usize, to: usize) -> (part: Vec<char>)
    requires
        from <= to <= s.len(),
    ensures
        part@ == s@.subrange(from as int, to as int),
{
    let mut part: Vec<char> = Vec::new();
    let mut i: usize = from;
    while i < to
        invariant
            from <= i <= to <= s.len(),
            part@ == s@.subrange(from as int, i as int),
        decreases to - i,
    {
        part.push(s[i]);
        i += 1;
    }
    part
}

/// The words of `s`: its maximal runs without whitespace.
pub fn split_words(s: &Vec<char>) -> (found: Vec<Vec<char>>)
    ensures
        views(found@) == words(s@),
{
    let mut found: Vec<Vec<char>> = Vec::new();
    let mut i: usize = 0;
    assert(s@.skip(0) == s@);
    while i < s.len()
        invariant
            i <= s.len(),
            words(s@) == views(found@) + words(s@.skip(i as int)),
        decreases s.len() - i,
    {
        let ghost rest = s@.skip(i as int);
        let end = word_end(s, i);
        if end == i {
            assert(rest.drop_first() == s@.skip(i + 1));
            i += 1;
        } else {
            let word = copy_range(s, i, end);
            assert(rest.take(end - i) == s@.subrange(i as int, end as int));
            assert(rest.skip(end - i) == s@.skip(end as int));
            found.push(word);
            i = end;
        }
    }
    found
}

/// The pieces of `s` between its line feeds.
pub fn split_lines_exec(s: &Vec<char>) -> (found: Vec<Vec<char>>)
    ensures
        views(found@) == split_lines(s@),
{
    let mut found: Vec<Vec<char>> = Vec::new();
    let mut i: usize = 0;
    assert(s@.skip(0) == s@);
    loop
        invariant_except_break
            i <= s.len(),
            split_lines(s@) == views(found@) + split_lines(s@.skip(i as int)),
        ensures
            views(found@) == split_lines(s@),
        decreases s.len() - i,
    {
        let ghost rest = s@.skip(i as int);
        let end = line_end(s, i);
        let line = copy_range(s, i, end);
        found.push(line);
        assert(rest.take(end - i) == s@.subrange(i as int, end as int));
        if end == s.len() {
            break;
        }
        assert(rest.skip(end - i + 1) == s@.skip(end + 1));
        i = end + 1;
    }
    found
}

/// The decimal digit for `d`.
pub(crate) fn digit_of(d: u8) -> (c: char)
    requires
        d < 10,
    ensures
        c == digit_char(d as nat),
{
    if d == 0 {
        '0'
    } else if d == 1 {
        '1'
    } else if d == 2 {
        '2'
    } else if d == 3 {
        '3'
    } else if d == 4 {
        '4'
    } else if d == 5 {
        '5'
    } else if d == 6 {
        '6'
    } else if d == 7 {
        '7'
    } else if d == 8 {
        '8'
    } else {
        '9'
    }
}

/// Appends `n` in base ten to `out`.
pub fn push_decimal(out: &mut String, n: u128)
    ensures
        final(out)@ == old(out)@ + decimal(n as nat),
    decreases n,
{
    if n >= 10 {
        push_decimal(out, n / 10);
    }
    let d: u8 = (n % 10) as u8;
    out.push(digit_of(d));
}

/// Appends the characters of `part` to `out`.
pub fn push_chars(out: &mut String, part: &Vec<char>)
    ensures
        final(out)@ == old(out)@ + part@,
{
    let mut i: usize = 0;
    while i < part.len()
        invariant
            i <= part.len(),
            out@ == old(out)@ + part@.take(i as int),
        decreases part.len() - i,
    {
        out.push(part[i]);
        i += 1;
    }
}

/// Whether `c` is a path separator.
pub fn is_separator_exec(c: char) -> (yes: bool)
    ensures
        yes == is_separator(c),
{
    c == '/' || c == '\\'
}

/// The file name that the path `p` ends in.
pub fn base_name_exec(p: &Vec<char>) -> (name: Vec<char>)
    ensures
        name@ == base_name(p@),
{
    let mut start: usize = p.len();
    assert(p@.take(p.len() as int) == p@);
    while start > 0 && !is_separator_exec(p[start - 1])
        invariant
            start <= p.len(),
            tail_len(p@) == (p.len() - start) + tail_len(p@.take(start as int)),
        decreases start,
    {
        proof {
            let head = p@.take(start as int);
            assert(head.drop_last() == p@.take(start - 1));
        }
        start -= 1;
    }
    if start == p.len() {
        copy_range(p, 0, p.len())
    } else {
        copy_range(p, start, p.len())
    }
}

/// `c` with an ASCII capital letter turned into its small letter.
pub fn ascii_lower_exec(c: char) -> (lower: char)
    ensures
        lower == ascii_lower(c),
{
    if 'A' <= c && c <= 'Z' {
        ((c as u8) + 32) as char
    } else {
        c
    }
}


/// `s` is a word: it is not empty and holds no whitespace.
pub open spec fn is_word(s: Seq<char>) -> bool {
    s.len() > 0 && forall|i: int| 0 <= i < s.len() ==> !is_whitespace(#[trigger] s[i])
}

/// `s` is made of whitespace only.
pub open spec fn is_space(s: Seq<char>) -> bool {
    forall|i: int| 0 <= i < s.len() ==> is_whitespace(#[trigger] s[i])
}

/// A word is the one word of itself.
pub proof fn lemma_words_of_word(word: Seq<char>)
    requires
        is_word(word),
    ensures
        words(word) == seq![word],
{
    let stop = |c: char| is_whitespace(c);
    assert forall|k: int| 0 <= k < word.len() implies !stop(#[trigger] word[k]) by {}
    lemma_prefix_len_is(word, stop, 0, word.len() as int);
    assert(word.skip(0) == word);
}

/// Whitespace before a text adds no word to it.
pub proof fn lemma_words_after_space(space: Seq<char>, rest: Seq<char>)
    requires
        is_space(space),
    ensures
        words(space + rest) == words(rest),
    decreases space.len(),
{
    if space.len() > 0 {
        assert((space + rest).drop_first() == space.drop_first() + rest);
        assert forall|i: int| 0 <= i < space.drop_first().len() implies is_whitespace(
            #[trigger] space.drop_first()[i],
        ) by {}
        lemma_words_after_space(space.drop_first(), rest);
    }
}

/// A word before whitespace is the first word of the text, and the words of
/// the rest follow it.
pub proof fn lemma_words_after_word(word: Seq<char>, rest: Seq<char>)
    requires
        is_word(word),
        rest.len() > 0,
        is_whitespace(rest[0]),
    ensures
        words(word + rest) == seq![word] + words(rest),
{
    let whole = word + rest;
    let stop = |c: char| is_whitespace(c);
    assert forall|k: int| 0 <= k < word.len() implies !stop(#[trigger] whole[k]) by {}
    lemma_prefix_len_is(whole, stop, 0, word.len() as int);
    assert(whole.skip(0) == whole);
    assert(whole.take(word.len() as int) == word);
    assert(whole.skip(word.len() as int) == rest);
}

/// A text without line feed is one line.
pub proof fn lemma_one_line(line: Seq<char>)
    requires
        is_line(line),
    ensures
        split_lines(line) == seq![line],
{
    let stop = |c: char| c == '\n';
    assert forall|k: int| 0 <= k < line.len() implies !stop(#[trigger] line[k]) by {}
    lemma_prefix_len_is(line, stop, 0, line.len() as int);
    assert(line.skip(0) == line);
}

/// A path without separator is its own file name.
pub proof fn lemma_base_name_of_name(name: Seq<char>)
    requires
        forall|i: int| 0 <= i < name.len() ==> !is_separator(#[trigger] name[i]),
    ensures
        tail_len(name) == name.len(),
        base_name(name) == name,
    decreases name.len(),
{
    if name.len() > 0 {
        let head = name.drop_last();
        assert forall|i: int| 0 <= i < head.len() implies !is_separator(#[trigger] head[i]) by {}
        lemma_base_name_of_name(head);
    }
}

/// The prefix length is a length within `s`: `stop` holds of no character
/// before it, and of the character at it, if there is one.
pub proof fn lemma_prefix_len_bounds(s: Seq<char>, stop: spec_fn(char) -> bool)
    ensures
        prefix_len(s, stop) <= s.len(),
        forall|k: int| 0 <= k < prefix_len(s, stop) ==> !stop(#[trigger] s[k]),
        prefix_len(s, stop) < s.len() ==> stop(s[prefix_len(s, stop) as int]),
    decreases s.len(),
{
    if s.len() > 0 && !stop(s[0]) {
        let rest = s.drop_first();
        lemma_prefix_len_bounds(rest, stop);
        assert forall|k: int| 0 <= k < prefix_len(s, stop) implies !stop(#[trigger] s[k]) by {
            if k > 0 {
                assert(s[k] == rest[k - 1]);
            }
        }
    }
}

/// Every word of a text is a word: it is not empty and holds no whitespace.
pub proof fn lemma_words_are_words(s: Seq<char>)
    ensures
        forall|i: int| 0 <= i < words(s).len() ==> is_word(#[trigger] words(s)[i]),
    decreases s.len(),
{
    let n = word_len(s);
    lemma_prefix_len_bounds(s, |c: char| is_whitespace(c));
    if s.len() == 0 {
    } else if n == 0 {
        lemma_words_are_words(s.drop_first());
        assert(words(s) == words(s.drop_first()));
    } else if n >= s.len() {
        assert(is_word(s));
    } else {
        assert(is_word(s.take(n as int)));
        lemma_words_are_words(s.skip(n as int));
        assert forall|i: int| 0 <= i < words(s).len() implies is_word(#[trigger] words(s)[i]) by {
            if i > 0 {
                assert(words(s)[i] == words(s.skip(n as int))[i - 1]);
            }
        }
    }
}

/// `s` holds no line feed.
pub open spec fn is_line(s: Seq<char>) -> bool {
    forall|k: int| 0 <= k < s.len() ==> #[trigger] s[k] != '\n'
}

/// A text has at least one line, and no line of it holds a line feed.
pub proof fn lemma_lines_are_lines(s: Seq<char>)
    ensures
        split_lines(s).len() >= 1,
        forall|i: int| 0 <= i < split_lines(s).len() ==> is_line(#[trigger] split_lines(s)[i]),
    decreases s.len(),
{
    let n = line_len(s);
    lemma_prefix_len_bounds(s, |c: char| c == '\n');
    if n < s.len() {
        assert(is_line(s.take(n as int)));
        lemma_lines_are_lines(s.skip(n as int + 1));
    }
}

/// The number that the decimal digits `digits` stand for.
pub open spec fn decimal_value(digits: Seq<char>) -> nat
    decreases digits.len(),
{
    if digits.len() == 0 {
        0
    } else {
        10 * decimal_value(digits.drop_last()) + (digits.last() as nat - '0' as nat) as nat
    }
}

/// `c` is a decimal digit.
pub open spec fn is_digit(c: char) -> bool {
    '0' <= c <= '9'
}

/// The decimal form of a number is made of digits, begins with a zero only
/// for zero itself, and stands for the number.
pub proof fn lemma_decimal_is_decimal(n: nat)
    ensures
        decimal(n).len() >= 1,
        forall|i: int| 0 <= i < decimal(n).len() ==> is_digit(#[trigger] decimal(n)[i]),
        decimal(n)[0] == '0' <==> n == 0,
        decimal_value(decimal(n)) == n,
    decreases n,
{
    if n < 10 {
        assert(decimal_value(decimal(n).drop_last()) == 0);
    } else {
        lemma_decimal_is_decimal(n / 10);
        assert(decimal(n).drop_last() == decimal(n / 10));
    }
}

} // verus!
