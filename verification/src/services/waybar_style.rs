//! Module styles inside the bar's stylesheet.
//!
//! The style of a module stands in the stylesheet as a block of lines between
//! two marker lines that name the module. Blocks are put in and taken out as
//! a whole; lines outside them are not touched.

use crate::text::{
    chars_of, first_index, has_char, has_prefix, is_first_index, join_lines,
    lemma_first_index_exists, lemma_first_index_unique, lemma_join_of_split,
    lemma_split_lines_have_no_feed, lemma_split_of_join, lines, lines_of, push_str, same_chars,
    split_lines, starts_with, string_of, unlines,
};
use vstd::prelude::*;

verus! {

/// What every marker line begins with.
pub open spec fn marker_prefix() -> Seq<char> {
    "/* waybar-manager:"@
}

/// The line that opens the block of the module `uuid`.
pub open spec fn begin_line(uuid: Seq<char>) -> Seq<char> {
    "/* waybar-manager:begin "@ + uuid + " */"@
}

/// The line that closes the block of the module `uuid`.
pub open spec fn end_line(uuid: Seq<char>) -> Seq<char> {
    "/* waybar-manager:end "@ + uuid + " */"@
}

/// A module name that can stand in a marker line: it holds no line feed and
/// no `/`, so it can neither end the line nor the comment.
pub open spec fn marker_safe(uuid: Seq<char>) -> bool {
    !uuid.contains('\n') && !uuid.contains('/')
}

/// Some line of `lines` begins like a marker line.
pub open spec fn has_marker_line(lines: Seq<Seq<char>>) -> bool {
    exists|i: int| 0 <= i < lines.len() && starts_with(#[trigger] lines[i], marker_prefix())
}

/// `lines` without an empty last line.
pub open spec fn without_last_empty(lines: Seq<Seq<char>>) -> Seq<Seq<char>> {
    if lines.len() > 0 && lines.last().len() == 0 {
        lines.drop_last()
    } else {
        lines
    }
}

/// The block that an opening line opens is closed in the lines `tail` that
/// follow it: a closing line stands there, and no other opening line stands
/// before the first one.
pub open spec fn closes_in(tail: Seq<Seq<char>>, opening: Seq<char>, closing: Seq<char>) -> bool {
    tail.contains(closing) && !tail.subrange(0, first_index(tail, closing)).contains(opening)
}

/// `lines` without the blocks of `uuid`. A block is an opening line of
/// `uuid`, lines that are no opening line of `uuid`, and the first closing
/// line of `uuid` after it: all of it goes. An opening line whose block is
/// not closed goes alone; the lines after it stay.
pub open spec fn without_blocks(lines: Seq<Seq<char>>, uuid: Seq<char>) -> Seq<Seq<char>>
    decreases lines.len(),
{
    if lines.len() == 0 {
        lines
    } else {
        let tail = lines.subrange(1, lines.len() as int);
        if lines[0] != begin_line(uuid) {
            seq![lines[0]] + without_blocks(tail, uuid)
        } else if closes_in(tail, begin_line(uuid), end_line(uuid)) {
            let end = first_index(tail, end_line(uuid));
            if 0 <= end < tail.len() {
                without_blocks(tail.subrange(end + 1, tail.len() as int), uuid)
            } else {
                without_blocks(tail, uuid)
            }
        } else {
            without_blocks(tail, uuid)
        }
    }
}

/// The block of `uuid` with the style `css`.
pub open spec fn block(uuid: Seq<char>, css: Seq<Seq<char>>) -> Seq<Seq<char>> {
    seq![begin_line(uuid)] + css + seq![end_line(uuid)]
}

/// `lines` with every block of `uuid` taken out and one block that holds
/// `css` added at the end. The result ends with an empty line, that is, the
/// text ends with a line feed.
pub open spec fn with_block(lines: Seq<Seq<char>>, uuid: Seq<char>, css: Seq<Seq<char>>) -> Seq<
    Seq<char>,
> {
    without_last_empty(without_blocks(lines, uuid)) + block(uuid, without_last_empty(css)) + seq![
        Seq::<char>::empty(),
    ]
}

/// Why a style is not put into the stylesheet.
#[derive(Debug, Clone, Copy, PartialEq, Eq, Structural)]
pub enum InjectionDefect {
    /// The module's name holds a line feed or a `/` and cannot stand in a
    /// marker line.
    UnsafeName,
    /// A line of the style begins like a marker line.
    MarkerInStyle,
}

/// Why the style `css` of the module `uuid` is not put in, if it is not.
pub open spec fn injection_defect(uuid: Seq<char>, css: Seq<char>) -> Option<InjectionDefect> {
    if !marker_safe(uuid) {
        Some(InjectionDefect::UnsafeName)
    } else if has_marker_line(split_lines(css)) {
        Some(InjectionDefect::MarkerInStyle)
    } else {
        None
    }
}

/// The stylesheet `existing` with the style `css` of the module `uuid` put
/// in. Where the style is refused, `existing` comes back as it is.
pub open spec fn injected(existing: Seq<char>, uuid: Seq<char>, css: Seq<char>) -> Seq<char> {
    if injection_defect(uuid, css) is Some {
        existing
    } else {
        join_lines(with_block(split_lines(existing), uuid, split_lines(css)))
    }
}

/// The stylesheet `existing` with the blocks of the module `uuid` taken out.
pub open spec fn removed(existing: Seq<char>, uuid: Seq<char>) -> Seq<char> {
    join_lines(without_blocks(split_lines(existing), uuid))
}

/// A marker line for `uuid`, with `word` between the prefix and the name.
fn marker_line(word: &str, uuid: &str) -> (line: Vec<char>)
    ensures
        line@ == "/* waybar-manager:"@ + word@ + uuid@ + " */"@,
{
    let mut line: Vec<char> = Vec::new();
    push_str(&mut line, "/* waybar-manager:");
    push_str(&mut line, word);
    push_str(&mut line, uuid);
    push_str(&mut line, " */");
    assert(line@ =~= "/* waybar-manager:"@ + word@ + uuid@ + " */"@);
    line
}

/// The opening line of the block of `uuid`.
fn opening_line(uuid: &str) -> (line: Vec<char>)
    ensures
        line@ == begin_line(uuid@),
{
    let line = marker_line("begin ", uuid);
    proof {
        reveal_strlit("/* waybar-manager:");
        reveal_strlit("begin ");
        reveal_strlit("/* waybar-manager:begin ");
        assert("/* waybar-manager:"@ + "begin "@ =~= "/* waybar-manager:begin "@);
        assert(line@ =~= begin_line(uuid@));
    }
    line
}

/// The closing line of the block of `uuid`.
fn closing_line(uuid: &str) -> (line: Vec<char>)
    ensures
        line@ == end_line(uuid@),
{
    let line = marker_line("end ", uuid);
    proof {
        reveal_strlit("/* waybar-manager:");
        reveal_strlit("end ");
        reveal_strlit("/* waybar-manager:end ");
        assert("/* waybar-manager:"@ + "end "@ =~= "/* waybar-manager:end "@);
        assert(line@ =~= end_line(uuid@));
    }
    line
}

/// The lines of `all` from `from` up to, not including, `to`.
fn copy_lines(all: &Vec<Vec<char>>, from: usize, to: usize, out: &mut Vec<Vec<char>>)
    requires
        from <= to <= all@.len(),
    ensures
        lines_of(final(out)@) == lines_of(old(out)@) + lines_of(all@).subrange(
            from as int,
            to as int,
        ),
{
    let mut i: usize = from;
    proof {
        assert(lines_of(out@) + lines_of(all@).subrange(from as int, from as int) =~= lines_of(
            out@,
        ));
    }
    while i < to
        invariant
            from <= i <= to,
            to <= all@.len(),
            lines_of(out@) == lines_of(old(out)@) + lines_of(all@).subrange(
                from as int,
                i as int,
            ),
        decreases to - i,
    {
        let ghost before = lines_of(out@);
        let line = crate::text::slice_chars(all[i].as_slice(), 0, all[i].len());
        assert(line@ =~= all@[i as int]@);
        out.push(line);
        proof {
            assert(lines_of(out@) =~= before.push(all@[i as int]@));
            assert(lines_of(all@).subrange(from as int, i + 1) =~= lines_of(all@).subrange(
                from as int,
                i as int,
            ).push(all@[i as int]@));
        }
        i += 1;
    }
}

/// Where the block that was opened before the line `from` is closed: the
/// position of its closing line, if it is closed.
fn find_block_end(all: &Vec<Vec<char>>, opening: &[char], closing: &[char], from: usize) -> (found:
    Option<usize>)
    requires
        from <= all@.len(),
        opening@ != closing@,
    ensures
        found is Some <==> closes_in(
            lines_of(all@).subrange(from as int, all@.len() as int),
            opening@,
            closing@,
        ),
        found matches Some(at) ==> from <= at < all@.len() && at - from == first_index(
            lines_of(all@).subrange(from as int, all@.len() as int),
            closing@,
        ),
{
    let ghost tail = lines_of(all@).subrange(from as int, all@.len() as int);
    let mut j: usize = from;
    while j < all.len()
        invariant
            from <= j <= all@.len(),
            opening@ != closing@,
            tail == lines_of(all@).subrange(from as int, all@.len() as int),
            forall|k: int| 0 <= k < j - from ==> tail[k] != opening@ && tail[k] != closing@,
        decreases all@.len() - j,
    {
        if same_chars(all[j].as_slice(), closing) {
            proof {
                let at = j - from;
                assert(tail[at] == closing@);
                assert(is_first_index(tail, closing@, at));
                lemma_first_index_unique(tail, closing@, at);
                let before = tail.subrange(0, at);
                assert forall|k: int| 0 <= k < before.len() implies before[k] != opening@ by {
                    assert(before[k] == tail[k]);
                }
            }
            return Some(j);
        }
        if same_chars(all[j].as_slice(), opening) {
            proof {
                let at = j - from;
                assert(tail[at] == opening@);
                if tail.contains(closing@) {
                    lemma_first_index_exists(tail, closing@);
                    let end = first_index(tail, closing@);
                    if end < at {
                        assert(tail[end] != closing@);
                    }
                    assert(tail.subrange(0, end)[at] == opening@);
                }
            }
            return None;
        }
        j += 1;
    }
    proof {
        if tail.contains(closing@) {
            let k = choose|k: int| 0 <= k < tail.len() && tail[k] == closing@;
            assert(tail[k] != closing@);
        }
    }
    None
}

/// The lines of `all` without the blocks of `uuid`.
fn strip_blocks(all: &Vec<Vec<char>>, uuid: &str) -> (kept: Vec<Vec<char>>)
    ensures
        lines_of(kept@) == without_blocks(lines_of(all@), uuid@),
{
    let opening = opening_line(uuid);
    let closing = closing_line(uuid);
    proof {
        lemma_marker_lines(uuid@);
    }
    let total = all.len();
    let mut kept: Vec<Vec<char>> = Vec::new();
    let ghost whole = lines_of(all@);
    let mut i: usize = 0;
    proof {
        assert(whole.subrange(0, total as int) =~= whole);
        assert(lines_of(kept@) + without_blocks(whole, uuid@) =~= without_blocks(whole, uuid@));
    }
    while i < total
        invariant
            i <= total,
            total == all@.len(),
            whole == lines_of(all@),
            opening@ == begin_line(uuid@),
            closing@ == end_line(uuid@),
            opening@ != closing@,
            lines_of(kept@) + without_blocks(whole.subrange(i as int, total as int), uuid@)
                == without_blocks(whole, uuid@),
        decreases total - i,
    {
        let ghost rest = whole.subrange(i as int, total as int);
        let ghost tail = rest.subrange(1, rest.len() as int);
        let ghost done = lines_of(kept@);
        proof {
            assert(rest[0] == whole[i as int]);
            assert(tail =~= whole.subrange(i + 1, total as int));
        }
        if !same_chars(all[i].as_slice(), opening.as_slice()) {
            let line = crate::text::slice_chars(all[i].as_slice(), 0, all[i].len());
            assert(line@ =~= all@[i as int]@);
            kept.push(line);
            proof {
                assert(lines_of(kept@) =~= done.push(rest[0]));
                assert(lines_of(kept@) + without_blocks(tail, uuid@) =~= done + (seq![rest[0]]
                    + without_blocks(tail, uuid@)));
            }
            i += 1;
        } else {
            match find_block_end(all, opening.as_slice(), closing.as_slice(), i + 1) {
                Some(end) => {
                    proof {
                        assert(tail.subrange(end - i, tail.len() as int) =~= whole.subrange(
                            end + 1,
                            total as int,
                        ));
                    }
                    i = end + 1;
                },
                None => {
                    i += 1;
                },
            }
        }
    }
    proof {
        assert(whole.subrange(total as int, total as int) =~= Seq::<Seq<char>>::empty());
        assert(lines_of(kept@) + Seq::<Seq<char>>::empty() =~= lines_of(kept@));
    }
    kept
}

/// Whether some line of `all` begins like a marker line.
fn finds_marker_line(all: &Vec<Vec<char>>) -> (found: bool)
    ensures
        found == has_marker_line(lines_of(all@)),
{
    let prefix = chars_of("/* waybar-manager:");
    let mut i: usize = 0;
    while i < all.len()
        invariant
            i <= all@.len(),
            prefix@ == marker_prefix(),
            forall|j: int|
                0 <= j < i ==> !starts_with(#[trigger] lines_of(all@)[j], marker_prefix()),
        decreases all@.len() - i,
    {
        if has_prefix(all[i].as_slice(), prefix.as_slice()) {
            assert(starts_with(lines_of(all@)[i as int], marker_prefix()));
            return true;
        }
        i += 1;
    }
    false
}

/// Drops the last line if it is empty.
fn drop_last_empty(all: Vec<Vec<char>>) -> (kept: Vec<Vec<char>>)
    ensures
        lines_of(kept@) == without_last_empty(lines_of(all@)),
{
    let mut kept = all;
    let len = kept.len();
    if len > 0 && kept[len - 1].len() == 0 {
        kept.pop();
        assert(lines_of(kept@) =~= lines_of(all@).drop_last());
    }
    kept
}

/// Says whether the style `module_css` of the module `uuid` can be put into a
/// stylesheet, and why not where it cannot. A refused style is never written:
/// `inject_module_css` hands the stylesheet back as it is.
pub fn check_injection(uuid: &str, module_css: &str) -> (checked: Result<(), InjectionDefect>)
    ensures
        match injection_defect(uuid@, module_css@) {
            Some(defect) => checked matches Err(d) && d == defect,
            None => checked is Ok,
        },
{
    let name = chars_of(uuid);
    if has_char(name.as_slice(), '\n') || has_char(name.as_slice(), '/') {
        return Err(InjectionDefect::UnsafeName);
    }
    let css_text = chars_of(module_css);
    let css = lines(css_text.as_slice());
    if finds_marker_line(&css) {
        return Err(InjectionDefect::MarkerInStyle);
    }
    Ok(())
}

/// Puts the style `module_css` of the module `uuid` into the stylesheet
/// `existing`, in place of every block that the module has there. Putting
/// the same style in again changes nothing. A style that `check_injection`
/// refuses is not put in.
pub fn inject_module_css(existing: &str, uuid: &str, module_css: &str) -> (styled: String)
    ensures
        styled@ == injected(existing@, uuid@, module_css@),
{
    if check_injection(uuid, module_css).is_err() {
        return existing.to_owned();
    }
    let css_text = chars_of(module_css);
    let css = lines(css_text.as_slice());
    let text = chars_of(existing);
    let all = lines(text.as_slice());
    let mut result = drop_last_empty(strip_blocks(&all, uuid));
    let body = drop_last_empty(css);
    let ghost kept = lines_of(result@);
    result.push(opening_line(uuid));
    assert(lines_of(result@) =~= kept + seq![begin_line(uuid@)]);
    copy_lines(&body, 0, body.len(), &mut result);
    assert(lines_of(body@).subrange(0, body@.len() as int) =~= lines_of(body@));
    let ghost opened = lines_of(result@);
    result.push(closing_line(uuid));
    assert(lines_of(result@) =~= opened + seq![end_line(uuid@)]);
    let ghost closed = lines_of(result@);
    result.push(Vec::new());
    proof {
        assert(lines_of(result@) =~= closed + seq![Seq::<char>::empty()]);
        assert(lines_of(result@) =~= with_block(
            split_lines(existing@),
            uuid@,
            split_lines(module_css@),
        ));
    }
    let joined = unlines(&result);
    string_of(joined.as_slice())
}

/// Takes the blocks of the module `uuid` out of the stylesheet `existing`.
/// Only they go: what stands before, between and after them stays.
pub fn remove_module_css(existing: &str, uuid: &str) -> (bare: String)
    ensures
        bare@ == removed(existing@, uuid@),
{
    let text = chars_of(existing);
    let all = lines(text.as_slice());
    let kept = strip_blocks(&all, uuid);
    let joined = unlines(&kept);
    string_of(joined.as_slice())
}

/// The opening and closing lines of a module are marker lines, and differ.
proof fn lemma_marker_lines(uuid: Seq<char>)
    ensures
        starts_with(begin_line(uuid), marker_prefix()),
        starts_with(end_line(uuid), marker_prefix()),
        begin_line(uuid) != end_line(uuid),
        begin_line(uuid).len() > 0,
        end_line(uuid).len() > 0,
{
    reveal_strlit("/* waybar-manager:");
    reveal_strlit("/* waybar-manager:begin ");
    reveal_strlit("/* waybar-manager:end ");
    reveal_strlit(" */");
    let opening = begin_line(uuid);
    let closing = end_line(uuid);
    assert(opening.subrange(0, marker_prefix().len() as int) =~= marker_prefix());
    assert(closing.subrange(0, marker_prefix().len() as int) =~= marker_prefix());
    assert(opening[18] == 'b');
    assert(closing[18] == 'e');
}

/// No line of `lines` is the opening line of `uuid`.
pub open spec fn has_no_opening(lines: Seq<Seq<char>>, uuid: Seq<char>) -> bool {
    forall|i: int| 0 <= i < lines.len() ==> #[trigger] lines[i] != begin_line(uuid)
}

/// No line of `lines` is the opening or the closing line of `uuid`.
pub open spec fn has_no_marker_of(lines: Seq<Seq<char>>, uuid: Seq<char>) -> bool {
    forall|i: int|
        0 <= i < lines.len() ==> #[trigger] lines[i] != begin_line(uuid) && lines[i] != end_line(
            uuid,
        )
}

/// After removal no opening line of the module is left.
pub proof fn law_remove_leaves_no_opening(lines: Seq<Seq<char>>, uuid: Seq<char>)
    ensures
        has_no_opening(without_blocks(lines, uuid), uuid),
    decreases lines.len(),
{
    if lines.len() > 0 {
        let tail = lines.subrange(1, lines.len() as int);
        if lines[0] != begin_line(uuid) {
            law_remove_leaves_no_opening(tail, uuid);
        } else if closes_in(tail, begin_line(uuid), end_line(uuid)) {
            lemma_first_index_exists(tail, end_line(uuid));
            let end = first_index(tail, end_line(uuid));
            law_remove_leaves_no_opening(tail.subrange(end + 1, tail.len() as int), uuid);
        } else {
            law_remove_leaves_no_opening(tail, uuid);
        }
    }
}

/// Removal makes no line: every line that is left stood in the stylesheet.
pub proof fn law_remove_makes_no_line(lines: Seq<Seq<char>>, uuid: Seq<char>, i: int)
    requires
        0 <= i < without_blocks(lines, uuid).len(),
    ensures
        lines.contains(without_blocks(lines, uuid)[i]),
    decreases lines.len(),
{
    let tail = lines.subrange(1, lines.len() as int);
    let kept = without_blocks(lines, uuid);
    if lines[0] != begin_line(uuid) {
        if i == 0 {
            assert(lines[0] == kept[0]);
        } else {
            law_remove_makes_no_line(tail, uuid, i - 1);
            let k = choose|k: int| 0 <= k < tail.len() && tail[k] == without_blocks(tail, uuid)[i
                - 1];
            assert(lines[k + 1] == kept[i]);
        }
    } else if closes_in(tail, begin_line(uuid), end_line(uuid)) {
        lemma_first_index_exists(tail, end_line(uuid));
        let end = first_index(tail, end_line(uuid));
        let after = tail.subrange(end + 1, tail.len() as int);
        law_remove_makes_no_line(after, uuid, i);
        let k = choose|k: int| 0 <= k < after.len() && after[k] == kept[i];
        assert(lines[k + end + 2] == kept[i]);
    } else {
        law_remove_makes_no_line(tail, uuid, i);
        let k = choose|k: int| 0 <= k < tail.len() && tail[k] == kept[i];
        assert(lines[k + 1] == kept[i]);
    }
}

/// Lines before the first opening line of the module are left as they are,
/// and what follows them is treated on its own.
pub proof fn law_remove_keeps_what_stands_before(
    before: Seq<Seq<char>>,
    rest: Seq<Seq<char>>,
    uuid: Seq<char>,
)
    requires
        has_no_opening(before, uuid),
    ensures
        without_blocks(before + rest, uuid) == before + without_blocks(rest, uuid),
    decreases before.len(),
{
    if before.len() == 0 {
        assert(before + rest =~= rest);
        assert(before + without_blocks(rest, uuid) =~= without_blocks(rest, uuid));
    } else {
        let all = before + rest;
        let shorter = before.subrange(1, before.len() as int);
        assert(all[0] == before[0]);
        assert(all.subrange(1, all.len() as int) =~= shorter + rest);
        assert forall|i: int| 0 <= i < shorter.len() implies #[trigger] shorter[i] != begin_line(
            uuid,
        ) by {
            assert(shorter[i] == before[i + 1]);
        }
        law_remove_keeps_what_stands_before(shorter, rest, uuid);
        assert(seq![before[0]] + (shorter + without_blocks(rest, uuid)) =~= before
            + without_blocks(rest, uuid));
    }
}

/// Lines that hold no opening line of the module are left alone by removal.
pub proof fn law_remove_without_block_is_noop(lines: Seq<Seq<char>>, uuid: Seq<char>)
    requires
        has_no_opening(lines, uuid),
    ensures
        without_blocks(lines, uuid) == lines,
{
    law_remove_keeps_what_stands_before(lines, Seq::empty(), uuid);
    assert(lines + Seq::<Seq<char>>::empty() =~= lines);
}

/// A closed block goes as a whole, and what follows it is treated on its
/// own.
pub proof fn law_remove_takes_a_closed_block(
    body: Seq<Seq<char>>,
    rest: Seq<Seq<char>>,
    uuid: Seq<char>,
)
    requires
        has_no_marker_of(body, uuid),
    ensures
        without_blocks(block(uuid, body) + rest, uuid) == without_blocks(rest, uuid),
{
    lemma_marker_lines(uuid);
    let opening = begin_line(uuid);
    let closing = end_line(uuid);
    let all = block(uuid, body) + rest;
    let tail = all.subrange(1, all.len() as int);
    let end = body.len() as int;
    assert(all[0] == opening);
    assert(tail[end] == closing);
    assert forall|j: int| 0 <= j < end implies tail[j] != closing by {
        assert(tail[j] == body[j]);
    }
    assert(is_first_index(tail, closing, end));
    lemma_first_index_unique(tail, closing, end);
    let inside = tail.subrange(0, end);
    assert forall|j: int| 0 <= j < inside.len() implies inside[j] != opening by {
        assert(inside[j] == body[j]);
    }
    assert(tail.subrange(end + 1, tail.len() as int) =~= rest);
}

/// An opening line whose block is not closed goes alone: no line after it
/// is taken out on its account.
pub proof fn law_remove_takes_an_unclosed_opening_alone(rest: Seq<Seq<char>>, uuid: Seq<char>)
    requires
        !closes_in(rest, begin_line(uuid), end_line(uuid)),
    ensures
        without_blocks(seq![begin_line(uuid)] + rest, uuid) == without_blocks(rest, uuid),
{
    let all = seq![begin_line(uuid)] + rest;
    assert(all[0] == begin_line(uuid));
    assert(all.subrange(1, all.len() as int) =~= rest);
}

/// The style without an empty last line holds no marker of the module, if
/// the style holds no marker line at all.
proof fn lemma_body_has_no_marker(css: Seq<Seq<char>>, uuid: Seq<char>)
    requires
        !has_marker_line(css),
    ensures
        has_no_marker_of(without_last_empty(css), uuid),
{
    lemma_marker_lines(uuid);
    let body = without_last_empty(css);
    assert forall|i: int| 0 <= i < body.len() implies #[trigger] body[i] != begin_line(uuid)
        && body[i] != end_line(uuid) by {
        assert(body[i] == css[i]);
        assert(!starts_with(css[i], marker_prefix()));
    }
}

/// Taking the blocks out after a style was put in gives back the lines
/// without their old blocks, up to an empty last line.
pub proof fn law_remove_after_inject(lines: Seq<Seq<char>>, uuid: Seq<char>, css: Seq<Seq<char>>)
    requires
        !has_marker_line(css),
    ensures
        without_blocks(with_block(lines, uuid, css), uuid) == without_last_empty(
            without_blocks(lines, uuid),
        ) + seq![Seq::<char>::empty()],
{
    lemma_marker_lines(uuid);
    let kept = without_last_empty(without_blocks(lines, uuid));
    let body = without_last_empty(css);
    let last = seq![Seq::<char>::empty()];
    law_remove_leaves_no_opening(lines, uuid);
    assert forall|i: int| 0 <= i < kept.len() implies #[trigger] kept[i] != begin_line(uuid) by {
        assert(kept[i] == without_blocks(lines, uuid)[i]);
    }
    lemma_body_has_no_marker(css, uuid);
    assert(with_block(lines, uuid, css) =~= kept + (block(uuid, body) + last));
    law_remove_keeps_what_stands_before(kept, block(uuid, body) + last, uuid);
    law_remove_takes_a_closed_block(body, last, uuid);
    assert(last[0] != begin_line(uuid));
    law_remove_without_block_is_noop(last, uuid);
}

/// Putting the same style in twice gives what putting it in once gives,
/// whatever the lines hold.
pub proof fn law_inject_idempotent(lines: Seq<Seq<char>>, uuid: Seq<char>, css: Seq<Seq<char>>)
    requires
        !has_marker_line(css),
    ensures
        with_block(with_block(lines, uuid, css), uuid, css) == with_block(lines, uuid, css),
{
    law_remove_after_inject(lines, uuid, css);
    let kept = without_last_empty(without_blocks(lines, uuid));
    let bare = kept + seq![Seq::<char>::empty()];
    assert(bare.last().len() == 0);
    assert(bare.drop_last() =~= kept);
}

/// No line that injection writes holds a line feed.
proof fn lemma_injected_lines_have_no_feed(existing: Seq<char>, uuid: Seq<char>, css: Seq<char>)
    requires
        injection_defect(uuid, css) is None,
    ensures
        with_block(split_lines(existing), uuid, split_lines(css)).len() > 0,
        forall|i: int|
            0 <= i < with_block(split_lines(existing), uuid, split_lines(css)).len() ==> !(
            #[trigger] with_block(split_lines(existing), uuid, split_lines(css))[i]).contains(
                '\n',
            ),
{
    reveal_strlit("/* waybar-manager:begin ");
    reveal_strlit("/* waybar-manager:end ");
    reveal_strlit(" */");
    let lines = split_lines(existing);
    let style = split_lines(css);
    let stripped = without_blocks(lines, uuid);
    let kept = without_last_empty(stripped);
    let body = without_last_empty(style);
    let all = with_block(lines, uuid, style);
    let opening = begin_line(uuid);
    let closing = end_line(uuid);
    assert(!opening.contains('\n')) by {
        if opening.contains('\n') {
            let k = choose|k: int| 0 <= k < opening.len() && opening[k] == '\n';
            if 24 <= k < 24 + uuid.len() {
                assert(uuid[k - 24] == '\n');
                assert(uuid.contains('\n'));
            }
        }
    }
    assert(!closing.contains('\n')) by {
        if closing.contains('\n') {
            let k = choose|k: int| 0 <= k < closing.len() && closing[k] == '\n';
            if 22 <= k < 22 + uuid.len() {
                assert(uuid[k - 22] == '\n');
                assert(uuid.contains('\n'));
            }
        }
    }
    assert forall|i: int| 0 <= i < all.len() implies !(#[trigger] all[i]).contains('\n') by {
        if i < kept.len() {
            assert(all[i] == stripped[i]);
            law_remove_makes_no_line(lines, uuid, i);
            let k = choose|k: int| 0 <= k < lines.len() && lines[k] == stripped[i];
            lemma_split_lines_have_no_feed(existing, k);
        } else if i == kept.len() {
            assert(all[i] == opening);
        } else if i < kept.len() + 1 + body.len() {
            let j = i - kept.len() - 1;
            assert(all[i] == body[j]);
            assert(body[j] == style[j]);
            lemma_split_lines_have_no_feed(css, j);
        } else if i == kept.len() + 1 + body.len() {
            assert(all[i] == closing);
        } else {
            assert(all[i] == Seq::<char>::empty());
        }
    }
}

/// Putting a style into a stylesheet twice leaves the stylesheet, character
/// for character, as putting it in once left it.
pub proof fn law_injection_is_idempotent(existing: Seq<char>, uuid: Seq<char>, css: Seq<char>)
    ensures
        injected(injected(existing, uuid, css), uuid, css) == injected(existing, uuid, css),
{
    if injection_defect(uuid, css) is None {
        let once = with_block(split_lines(existing), uuid, split_lines(css));
        lemma_injected_lines_have_no_feed(existing, uuid, css);
        lemma_split_of_join(once);
        law_inject_idempotent(split_lines(existing), uuid, split_lines(css));
    }
}

/// Taking the blocks of a module out of a stylesheet that holds no opening
/// line of the module leaves the stylesheet, character for character, as it
/// is.
pub proof fn law_removal_without_block_is_noop(existing: Seq<char>, uuid: Seq<char>)
    requires
        has_no_opening(split_lines(existing), uuid),
    ensures
        removed(existing, uuid) == existing,
{
    law_remove_without_block_is_noop(split_lines(existing), uuid);
    lemma_join_of_split(existing);
}

} // verus!
