//! Character-sequence helpers shared by the parsers and validators.
//!
//! Strings are modelled by their view, a `Seq<char>`. Executable code works on
//! `Vec<char>` so that every position can be inspected in constant time.

use vstd::prelude::*;

verus! {

/// `needle` occurs in `hay` starting at position `at`.
pub open spec fn occurs_at(hay: Seq<char>, needle: Seq<char>, at: int) -> bool {
    &&& 0 <= at
    &&& at + needle.len() <= hay.len()
    &&& hay.subrange(at, at + needle.len()) == needle
}

/// `needle` occurs somewhere in `hay` as a contiguous run.
pub open spec fn contains_text(hay: Seq<char>, needle: Seq<char>) -> bool {
    exists|at: int| occurs_at(hay, needle, at)
}

/// `at` is the position of the first occurrence of `c` in `s`.
pub open spec fn is_first_index<T>(s: Seq<T>, c: T, at: int) -> bool {
    &&& 0 <= at < s.len()
    &&& s[at] == c
    &&& forall|j: int| 0 <= j < at ==> s[j] != c
}

/// The position of the first occurrence of `c` in `s`; meaningful only when
/// `s` contains `c`.
pub open spec fn first_index<T>(s: Seq<T>, c: T) -> int {
    choose|at: int| is_first_index(s, c, at)
}

/// `prefix` is the beginning of `s`.
pub open spec fn starts_with(s: Seq<char>, prefix: Seq<char>) -> bool {
    prefix.len() <= s.len() && s.subrange(0, prefix.len() as int) == prefix
}

/// `suffix` is the end of `s`.
pub open spec fn ends_with(s: Seq<char>, suffix: Seq<char>) -> bool {
    suffix.len() <= s.len() && s.subrange(s.len() - suffix.len(), s.len() as int) == suffix
}

/// A first occurrence is unique, so `first_index` names it.
pub proof fn lemma_first_index_unique<T>(s: Seq<T>, c: T, at: int)
    requires
        is_first_index(s, c, at),
    ensures
        first_index(s, c) == at,
        s.contains(c),
{
    let chosen = first_index(s, c);
    assert(is_first_index(s, c, chosen));
    if chosen < at {
        assert(s[chosen] != c);
    } else if at < chosen {
        assert(s[at] != c);
    }
}

/// Every sequence that contains `c` has a first occurrence of it.
pub proof fn lemma_first_index_exists<T>(s: Seq<T>, c: T)
    requires
        s.contains(c),
    ensures
        is_first_index(s, c, first_index(s, c)),
{
    let k = choose|k: int| 0 <= k < s.len() && s[k] == c;
    lemma_first_index_below(s, c, k);
}

/// If `c` stands at `k`, a first occurrence exists at or before `k`.
proof fn lemma_first_index_below<T>(s: Seq<T>, c: T, k: int)
    requires
        0 <= k < s.len(),
        s[k] == c,
    ensures
        is_first_index(s, c, first_index(s, c)),
        first_index(s, c) <= k,
    decreases k,
{
    if forall|j: int| 0 <= j < k ==> s[j] != c {
        assert(is_first_index(s, c, k));
        lemma_first_index_unique(s, c, k);
    } else {
        let j = choose|j: int| 0 <= j < k && s[j] == c;
        lemma_first_index_below(s, c, j);
    }
}

/// The characters of a string slice, in order.
pub fn chars_of(s: &str) -> (chars: Vec<char>)
    ensures
        chars@ == s@,
{
    let mut chars: Vec<char> = Vec::new();
    for c in it: s.chars()
        invariant
            chars@ == it.seq().take(it.index() as int),
            it.seq() == s@,
    {
        chars.push(c);
    }
    chars
}

/// Builds a `String` from characters with `String`'s `FromIterator<&char>`
/// implementation of the standard library: the result holds exactly the given
/// characters, in order.
#[verifier::external_body]
pub(crate) fn string_of(chars: &[char]) -> (s: String)
    ensures
        s@ == chars@,
{
    chars.iter().collect()
}

/// `message` is `prefix` followed by `detail`.
pub open spec fn is_prefixed(message: Seq<char>, prefix: Seq<char>, detail: Seq<char>) -> bool {
    message == prefix + detail
}

/// `prefix` followed by `detail`, as one string.
pub fn joined_text(prefix: &str, detail: &str) -> (message: String)
    ensures
        message@ == prefix@ + detail@,
        is_prefixed(message@, prefix@, detail@),
        starts_with(message@, prefix@),
{
    let mut message = prefix.to_owned();
    message.append(detail);
    assert(message@.subrange(0, prefix@.len() as int) =~= prefix@);
    message
}

/// Position of the first `c` in `s`, if any.
pub fn find_char(s: &[char], c: char) -> (found: Option<usize>)
    ensures
        found is Some <==> s@.contains(c),
        found matches Some(at) ==> is_first_index(s@, c, at as int) && at as int == first_index(
            s@,
            c,
        ),
{
    let mut i: usize = 0;
    while i < s.len()
        invariant
            i <= s.len(),
            forall|j: int| 0 <= j < i ==> s@[j] != c,
        decreases s.len() - i,
    {
        if s[i] == c {
            proof {
                lemma_first_index_unique(s@, c, i as int);
            }
            return Some(i);
        }
        i += 1;
    }
    None
}

/// Whether `c` occurs in `s`.
pub fn has_char(s: &[char], c: char) -> (found: bool)
    ensures
        found == s@.contains(c),
{
    find_char(s, c).is_some()
}

/// Whether two character slices hold the same characters.
pub fn same_chars(a: &[char], b: &[char]) -> (same: bool)
    ensures
        same == (a@ == b@),
{
    if a.len() != b.len() {
        return false;
    }
    let mut i: usize = 0;
    while i < a.len()
        invariant
            i <= a.len(),
            a.len() == b.len(),
            forall|j: int| 0 <= j < i ==> a@[j] == b@[j],
        decreases a.len() - i,
    {
        if a[i] != b[i] {
            return false;
        }
        i += 1;
    }
    assert(a@ =~= b@);
    true
}

/// Whether `needle` occurs in `hay` at position `at`.
pub fn matches_at(hay: &[char], needle: &[char], at: usize) -> (hit: bool)
    ensures
        hit == occurs_at(hay@, needle@, at as int),
{
    if at > hay.len() || needle.len() > hay.len() - at {
        return false;
    }
    let mut k: usize = 0;
    while k < needle.len()
        invariant
            k <= needle.len(),
            at + needle.len() <= hay.len(),
            forall|j: int| 0 <= j < k ==> hay@[at + j] == needle@[j],
        decreases needle.len() - k,
    {
        if hay[at + k] != needle[k] {
            assert(hay@.subrange(at as int, at + needle.len())[k as int] != needle@[k as int]);
            return false;
        }
        k += 1;
    }
    assert(hay@.subrange(at as int, at + needle.len()) =~= needle@);
    true
}

/// Position of the first occurrence of `needle` in `hay` at or after `from`.
pub fn find_text_from(hay: &[char], needle: &[char], from: usize) -> (found: Option<usize>)
    ensures
        found matches Some(at) ==> {
            &&& from <= at
            &&& occurs_at(hay@, needle@, at as int)
            &&& forall|j: int| from <= j < at ==> !occurs_at(hay@, needle@, j)
        },
        found is None ==> forall|j: int| from <= j ==> !occurs_at(hay@, needle@, j),
{
    let mut i: usize = from;
    while i < hay.len()
        invariant
            from <= i,
            forall|j: int| from <= j < i ==> !occurs_at(hay@, needle@, j),
        decreases hay.len() - i,
    {
        if matches_at(hay, needle, i) {
            return Some(i);
        }
        i += 1;
    }
    if matches_at(hay, needle, i) {
        return Some(i);
    }
    None
}

/// Whether `needle` occurs anywhere in `hay`.
pub fn has_text(hay: &[char], needle: &[char]) -> (found: bool)
    ensures
        found == contains_text(hay@, needle@),
{
    find_text_from(hay, needle, 0).is_some()
}

/// Whether `s` begins with `prefix`.
pub fn has_prefix(s: &[char], prefix: &[char]) -> (hit: bool)
    ensures
        hit == starts_with(s@, prefix@),
{
    matches_at(s, prefix, 0)
}

/// Whether `s` ends with `suffix`.
pub fn has_suffix(s: &[char], suffix: &[char]) -> (hit: bool)
    ensures
        hit == ends_with(s@, suffix@),
{
    if suffix.len() > s.len() {
        return false;
    }
    matches_at(s, suffix, s.len() - suffix.len())
}

/// The characters of `s` from `from` (inclusive) to `to` (exclusive).
pub fn slice_chars(s: &[char], from: usize, to: usize) -> (part: Vec<char>)
    requires
        from <= to <= s.len(),
    ensures
        part@ == s@.subrange(from as int, to as int),
{
    let mut part: Vec<char> = Vec::new();
    let mut i: usize = from;
    while i < to
        invariant
            from <= i <= to,
            to <= s.len(),
            part@ == s@.subrange(from as int, i as int),
        decreases to - i,
    {
        part.push(s[i]);
        proof {
            assert(s@.subrange(from as int, i + 1) =~= s@.subrange(from as int, i as int).push(
                s@[i as int],
            ));
        }
        i += 1;
    }
    part
}

/// The character of a decimal digit.
pub open spec fn digit_char(d: nat) -> char
    recommends
        d < 10,
{
    if d == 0 {
        '0'
    } else if d == 1 {
        '1'
    } else if d == 2 {
        '2'
    } else if d == 3 {
        '3'
    } else if d == 4 {
        '4'
    } else if d == 5 {
        '5'
    } else if d == 6 {
        '6'
    } else if d == 7 {
        '7'
    } else if d == 8 {
        '8'
    } else {
        '9'
    }
}

/// The decimal numeral of `n`, without leading zeros.
pub open spec fn decimal(n: nat) -> Seq<char>
    decreases n,
{
    if n < 10 {
        seq![digit_char(n)]
    } else {
        decimal(n / 10).push(digit_char(n % 10))
    }
}

/// The character of the decimal digit `d`.
pub fn digit_of(d: u64) -> (c: char)
    requires
        d < 10,
    ensures
        c == digit_char(d as nat),
{
    if d == 0 {
        '0'
    } else if d == 1 {
        '1'
    } else if d == 2 {
        '2'
    } else if d == 3 {
        '3'
    } else if d == 4 {
        '4'
    } else if d == 5 {
        '5'
    } else if d == 6 {
        '6'
    } else if d == 7 {
        '7'
    } else if d == 8 {
        '8'
    } else {
        '9'
    }
}

/// Appends the decimal numeral of `n` to `out`.
pub fn push_decimal(out: &mut Vec<char>, n: u64)
    ensures
        final(out)@ == old(out)@ + decimal(n as nat),
    decreases n,
{
    if n < 10 {
        out.push(digit_of(n));
        assert(out@ =~= old(out)@ + decimal(n as nat));
    } else {
        push_decimal(out, n / 10);
        out.push(digit_of(n % 10));
        assert(out@ =~= old(out)@ + decimal(n as nat));
    }
}

/// Appends the characters of `more` to `out`.
pub fn push_chars(out: &mut Vec<char>, more: &[char])
    ensures
        final(out)@ == old(out)@ + more@,
{
    let mut i: usize = 0;
    while i < more.len()
        invariant
            i <= more.len(),
            out@ == old(out)@ + more@.subrange(0, i as int),
        decreases more.len() - i,
    {
        out.push(more[i]);
        proof {
            assert(more@.subrange(0, i + 1) =~= more@.subrange(0, i as int).push(more@[i as int]));
            assert(out@ =~= old(out)@ + more@.subrange(0, i + 1));
        }
        i += 1;
    }
    assert(more@.subrange(0, more@.len() as int) =~= more@);
}

/// Appends the characters of the string slice `more` to `out`.
pub fn push_str(out: &mut Vec<char>, more: &str)
    ensures
        final(out)@ == old(out)@ + more@,
{
    let chars = chars_of(more);
    push_chars(out, chars.as_slice());
}

/// The lines of `text`: what stands between its line feeds. A text without
/// line feed is one line; a text that ends with a line feed has an empty
/// last line.
pub open spec fn split_lines(text: Seq<char>) -> Seq<Seq<char>>
    decreases text.len(),
{
    if !text.contains('\n') {
        seq![text]
    } else {
        let at = first_index(text, '\n');
        if 0 <= at < text.len() {
            seq![text.subrange(0, at)] + split_lines(text.subrange(at + 1, text.len() as int))
        } else {
            seq![text]
        }
    }
}

/// The lines, joined by line feeds.
pub open spec fn join_lines(lines: Seq<Seq<char>>) -> Seq<char>
    decreases lines.len(),
{
    if lines.len() == 0 {
        Seq::empty()
    } else if lines.len() == 1 {
        lines[0]
    } else {
        join_lines(lines.drop_last()) + seq!['\n'] + lines.last()
    }
}

/// The character sequences that a vector of lines holds.
pub open spec fn lines_of(lines: Seq<Vec<char>>) -> Seq<Seq<char>> {
    Seq::new(lines.len(), |i: int| lines[i]@)
}

/// Joining a line in front: the line, a line feed, and the joined rest.
pub proof fn lemma_join_first(first: Seq<char>, rest: Seq<Seq<char>>)
    requires
        rest.len() > 0,
    ensures
        join_lines(seq![first] + rest) == first + seq!['\n'] + join_lines(rest),
    decreases rest.len(),
{
    let all = seq![first] + rest;
    if rest.len() == 1 {
        assert(all.drop_last() =~= seq![first]);
        assert(all.last() == rest[0]);
        assert(join_lines(all.drop_last()) == first);
    } else {
        lemma_join_first(first, rest.drop_last());
        assert(all.drop_last() =~= seq![first] + rest.drop_last());
        assert(all.last() == rest.last());
        assert(join_lines(all) =~= first + seq!['\n'] + join_lines(rest));
    }
}

/// Splitting a text into lines and joining them gives the text back.
pub proof fn lemma_join_of_split(text: Seq<char>)
    ensures
        join_lines(split_lines(text)) == text,
        split_lines(text).len() > 0,
    decreases text.len(),
{
    if text.contains('\n') {
        lemma_first_index_exists(text, '\n');
        let at = first_index(text, '\n');
        let rest = text.subrange(at + 1, text.len() as int);
        lemma_join_of_split(rest);
        lemma_join_first(text.subrange(0, at), split_lines(rest));
        assert(text.subrange(0, at) + seq!['\n'] + rest =~= text);
    }
}

/// Joining lines that hold no line feed and splitting the text gives the
/// lines back.
pub proof fn lemma_split_of_join(lines: Seq<Seq<char>>)
    requires
        lines.len() > 0,
        forall|i: int| 0 <= i < lines.len() ==> !(#[trigger] lines[i]).contains('\n'),
    ensures
        split_lines(join_lines(lines)) == lines,
    decreases lines.len(),
{
    let first = lines[0];
    let rest = lines.subrange(1, lines.len() as int);
    assert(lines =~= seq![first] + rest);
    if rest.len() == 0 {
        assert(join_lines(lines) == first);
    } else {
        lemma_join_first(first, rest);
        let text = join_lines(lines);
        let at = first.len() as int;
        assert(text == first + seq!['\n'] + join_lines(rest));
        assert(text[at] == '\n');
        assert forall|j: int| 0 <= j < at implies text[j] != '\n' by {
            assert(text[j] == first[j]);
            if first[j] == '\n' {
                assert(first.contains('\n'));
            }
        }
        assert(is_first_index(text, '\n', at));
        lemma_first_index_unique(text, '\n', at);
        assert(text.subrange(0, at) =~= first);
        assert(text.subrange(at + 1, text.len() as int) =~= join_lines(rest));
        assert forall|i: int| 0 <= i < rest.len() implies !(#[trigger] rest[i]).contains('\n') by {
            assert(rest[i] == lines[i + 1]);
        }
        lemma_split_of_join(rest);
    }
}

/// No line of a split text holds a line feed.
pub proof fn lemma_split_lines_have_no_feed(text: Seq<char>, i: int)
    requires
        0 <= i < split_lines(text).len(),
    ensures
        !split_lines(text)[i].contains('\n'),
    decreases text.len(),
{
    if text.contains('\n') {
        lemma_first_index_exists(text, '\n');
        let at = first_index(text, '\n');
        let rest = text.subrange(at + 1, text.len() as int);
        if i == 0 {
            let head = text.subrange(0, at);
            if head.contains('\n') {
                let k = choose|k: int| 0 <= k < head.len() && head[k] == '\n';
                assert(text[k] == '\n');
            }
        } else {
            lemma_split_lines_have_no_feed(rest, i - 1);
        }
    }
}

/// The lines of `text`.
pub fn lines(text: &[char]) -> (all: Vec<Vec<char>>)
    ensures
        lines_of(all@) == split_lines(text@),
{
    let mut all: Vec<Vec<char>> = Vec::new();
    let len = text.len();
    let mut start: usize = 0;
    let mut at: usize = 0;
    proof {
        assert(text@.subrange(0, len as int) =~= text@);
        assert(lines_of(all@) + split_lines(text@.subrange(0, len as int)) =~= split_lines(text@));
    }
    while at < len
        invariant
            start <= at <= len,
            len == text@.len(),
            forall|j: int| start <= j < at ==> text@[j] != '\n',
            lines_of(all@) + split_lines(text@.subrange(start as int, len as int)) == split_lines(
                text@,
            ),
        decreases len - at,
    {
        if text[at] == '\n' {
            let line = slice_chars(text, start, at);
            let ghost rest = text@.subrange(start as int, len as int);
            let ghost done = lines_of(all@);
            proof {
                assert(rest[at - start] == '\n');
                assert(is_first_index(rest, '\n', at - start));
                lemma_first_index_unique(rest, '\n', at - start);
                assert(rest.subrange(0, at - start) =~= line@);
                assert(rest.subrange(at - start + 1, rest.len() as int) =~= text@.subrange(
                    at + 1,
                    len as int,
                ));
            }
            all.push(line);
            proof {
                assert(lines_of(all@) =~= done + seq![line@]);
                assert(lines_of(all@) + split_lines(text@.subrange(at + 1, len as int)) =~= done
                    + split_lines(rest));
            }
            start = at + 1;
        }
        at += 1;
    }
    let last = slice_chars(text, start, len);
    proof {
        let rest = text@.subrange(start as int, len as int);
        if rest.contains('\n') {
            let k = choose|k: int| 0 <= k < rest.len() && rest[k] == '\n';
            assert(text@[start + k] == '\n');
        }
        assert(split_lines(rest) =~= seq![rest]);
    }
    let ghost done = lines_of(all@);
    all.push(last);
    proof {
        assert(lines_of(all@) =~= done + seq![last@]);
    }
    all
}

/// The lines, joined by line feeds.
pub fn unlines(all: &Vec<Vec<char>>) -> (text: Vec<char>)
    ensures
        text@ == join_lines(lines_of(all@)),
{
    let mut text: Vec<char> = Vec::new();
    let mut i: usize = 0;
    proof {
        assert(lines_of(all@).take(0) =~= Seq::<Seq<char>>::empty());
    }
    while i < all.len()
        invariant
            i <= all@.len(),
            text@ == join_lines(lines_of(all@).take(i as int)),
        decreases all@.len() - i,
    {
        let ghost before = lines_of(all@).take(i as int);
        let ghost next = lines_of(all@).take(i + 1);
        proof {
            assert(next.drop_last() =~= before);
            assert(next.last() == all@[i as int]@);
        }
        if i > 0 {
            text.push('\n');
        }
        push_chars(&mut text, all[i].as_slice());
        proof {
            if i == 0 {
                assert(text@ =~= all@[0]@);
            } else {
                assert(text@ =~= join_lines(before) + seq!['\n'] + all@[i as int]@);
            }
        }
        i += 1;
    }
    proof {
        assert(lines_of(all@).take(all@.len() as int) =~= lines_of(all@));
    }
    text
}

} // verus!
