//! The list of valid login shells.
use vstd::prelude::*;
use vstd::string::StrSliceExecFns;
use vstd::utf8::{
    encode_utf8, encode_utf8_valid_utf8, is_char_boundary_iff_not_is_continuation_byte,
    is_continuation_byte, is_leading_byte_width_1, pop_first_scalar, utf8_byte_ranges_bitwise,
    valid_first_scalar, valid_utf8, valid_utf8_split,
};

use crate::bytes::bytes_equal;

verus! {

/// The line feed.
pub const LINE_FEED: u8 = 10;

/// The carriage return.
pub const CARRIAGE_RETURN: u8 = 13;

/// The file that lists the valid login shells.
pub const VALID_LOGIN_SHELLS_LIST: &'static str = "/etc/shells";

/// The only valid login shell where there is no list.
pub const FALLBACK_LOGIN_SHELL: &'static str = "/bin/sh";

/// Where the first line feed stands, or the length if there is none.
pub open spec fn line_end(text: Seq<u8>) -> int
    decreases text.len(),
{
    if text.len() == 0 || text[0] == LINE_FEED {
        0
    } else {
        1 + line_end(text.drop_first())
    }
}

/// A line without the carriage return that stands before its line feed.
pub open spec fn without_carriage_return(line: Seq<u8>) -> Seq<u8> {
    if line.len() > 0 && line.last() == CARRIAGE_RETURN {
        line.drop_last()
    } else {
        line
    }
}

/// The lines of a text. Each ends with a line feed, or with a carriage return
/// and a line feed, neither of which belong to the line. The last line need not
/// end so.
pub open spec fn lines(text: Seq<u8>) -> Seq<Seq<u8>>
    decreases text.len(),
{
    proof {
        lemma_line_end(text);
    }
    let end = line_end(text);
    if text.len() == 0 {
        seq![]
    } else if end == text.len() {
        seq![text]
    } else {
        seq![without_carriage_return(text.take(end))] + lines(text.skip(end + 1))
    }
}

/// Whether a shell is restricted: it is unless it is a text that stands in the
/// list of valid login shells. Where there is no list, only the fallback is not.
pub open spec fn restricted(shell: Seq<u8>, shells: Option<Seq<char>>) -> bool {
    ||| !valid_utf8(shell)
    ||| match shells {
        Some(list) => !lines(encode_utf8(list)).contains(shell),
        None => shell != encode_utf8(FALLBACK_LOGIN_SHELL@),
    }
}

/// What `line_end` says in terms of positions.
pub proof fn lemma_line_end(text: Seq<u8>)
    ensures
        0 <= line_end(text) <= text.len(),
        forall|i: int| 0 <= i < line_end(text) ==> text[i] != LINE_FEED,
        line_end(text) < text.len() ==> text[line_end(text)] == LINE_FEED,
    decreases text.len(),
{
    if text.len() > 0 && text[0] != LINE_FEED {
        let rest = text.drop_first();
        lemma_line_end(rest);
        assert forall|i: int| 0 <= i < line_end(text) implies text[i] != LINE_FEED by {
            if i > 0 {
                assert(rest[i - 1] == text[i]);
            }
        }
    }
}

/// A position with no line feed before it, at a line feed or at the end, is the
/// end of the line.
proof fn lemma_is_line_end(text: Seq<u8>, end: int)
    requires
        0 <= end <= text.len(),
        forall|i: int| 0 <= i < end ==> text[i] != LINE_FEED,
        end < text.len() ==> text[end] == LINE_FEED,
    ensures
        line_end(text) == end,
{
    lemma_line_end(text);
    if line_end(text) < end {
        assert(text[line_end(text)] != LINE_FEED);
    } else if end < line_end(text) {
        assert(text[end] != LINE_FEED);
    }
}

/// Cutting an UTF-8 text at a line feed leaves UTF-8 on both sides.
proof fn lemma_cut_is_utf8(text: Seq<u8>, at: int)
    requires
        valid_utf8(text),
        0 <= at < text.len(),
        text[at] < 128,
    ensures
        valid_utf8(text.take(at)),
        valid_utf8(text.skip(at + 1)),
{
    let byte = text[at];
    assert(!is_continuation_byte(byte)) by {
        utf8_byte_ranges_bitwise(byte);
    }
    is_char_boundary_iff_not_is_continuation_byte(text, at);
    valid_utf8_split(text, at);
    let tail = text.subrange(at, text.len() as int);
    assert(text.take(at) =~= text.subrange(0, at));
    assert(tail[0] == byte);
    assert(is_leading_byte_width_1(byte)) by {
        utf8_byte_ranges_bitwise(byte);
    }
    assert(valid_first_scalar(tail));
    assert(pop_first_scalar(tail) =~= text.skip(at + 1));
}

/// Every line of an UTF-8 text is UTF-8.
proof fn lemma_lines_are_utf8(text: Seq<u8>, i: int)
    requires
        valid_utf8(text),
        0 <= i < lines(text).len(),
    ensures
        valid_utf8(lines(text)[i]),
    decreases text.len(),
{
    lemma_line_end(text);
    let end = line_end(text);
    if text.len() > 0 && end < text.len() {
        lemma_cut_is_utf8(text, end);
        if i == 0 {
            let line = text.take(end);
            if line.len() > 0 && line.last() == CARRIAGE_RETURN {
                lemma_cut_is_utf8(line, end - 1);
                assert(line.take(end - 1) =~= line.drop_last());
            }
        } else {
            lemma_lines_are_utf8(text.skip(end + 1), i - 1);
        }
    }
}

/// A line is among some lines if it is the first or among the others.
proof fn lemma_contains_first(first: Seq<u8>, others: Seq<Seq<u8>>, line: Seq<u8>)
    ensures
        (seq![first] + others).contains(line) == (first == line || others.contains(line)),
{
    let all = seq![first] + others;
    assert(all[0] == first);
    if others.contains(line) {
        let i = choose|i: int| 0 <= i < others.len() && others[i] == line;
        assert(all[i + 1] == line);
    }
    if all.contains(line) && first != line {
        let i = choose|i: int| 0 <= i < all.len() && all[i] == line;
        assert(others[i - 1] == line);
    }
}

/// Whether a line stands in a text.
fn has_line(text: &Vec<u8>, line: &Vec<u8>) -> (found: bool)
    ensures
        found == lines(text@).contains(line@),
{
    let mut start: usize = 0;
    assert(text@.skip(0) =~= text@);
    while start < text.len()
        invariant
            start <= text.len(),
            lines(text@).contains(line@) == lines(text@.skip(start as int)).contains(line@),
        decreases text.len() - start,
    {
        let ghost rest = text@.skip(start as int);
        let mut end: usize = start;
        while end < text.len() && text[end] != LINE_FEED
            invariant
                start <= end <= text.len(),
                forall|i: int| start <= i < end ==> text@[i] != LINE_FEED,
            decreases text.len() - end,
        {
            end += 1;
        }
        proof {
            lemma_is_line_end(rest, end - start);
            assert(rest.take(end - start) =~= text@.subrange(start as int, end as int));
        }
        let mut stop: usize = end;
        if end < text.len() && start < end && text[end - 1] == CARRIAGE_RETURN {
            stop = end - 1;
        }
        proof {
            let found = if end < text.len() {
                without_carriage_return(rest.take(end - start))
            } else {
                rest
            };
            assert(found =~= text@.subrange(start as int, stop as int));
            if end < text.len() {
                let others = lines(rest.skip(end - start + 1));
                assert(lines(rest) == seq![found] + others);
                lemma_contains_first(found, others, line@);
                assert(rest.skip(end - start + 1) =~= text@.skip(end + 1));
            } else {
                assert(lines(rest) == seq![found]);
                lemma_contains_first(found, seq![], line@);
                assert(seq![found] + seq![] =~= seq![found]);
                assert(text@.skip(end as int) =~= seq![]);
            }
        }
        if bytes_equal(&text[start..stop], line) {
            return true;
        }
        start = if end < text.len() {
            end + 1
        } else {
            end
        };
    }
    assert(text@.skip(start as int) =~= seq![]);
    false
}

/// Checks whether a shell is restricted. `shells` is the list of valid login
/// shells, if it could be read.
pub fn is_restricted(shell: &Vec<u8>, shells: &Option<String>) -> (answer: bool)
    ensures
        answer == restricted(
            shell@,
            match *shells {
                Some(list) => Some(list@),
                None => None,
            },
        ),
{
    match shells {
        Some(contents) => {
            let text = contents.as_str().as_bytes_vec();
            let listed = has_line(&text, shell);
            proof {
                encode_utf8_valid_utf8(contents@);
                if listed {
                    let i = choose|i: int|
                        0 <= i < lines(text@).len() && lines(text@)[i] == shell@;
                    lemma_lines_are_utf8(text@, i);
                }
            }
            !listed
        },
        None => {
            let fallback = FALLBACK_LOGIN_SHELL.as_bytes_vec();
            proof {
                encode_utf8_valid_utf8(FALLBACK_LOGIN_SHELL@);
            }
            !bytes_equal(shell, &fallback)
        },
    }
}

/// Whether `line` stands in a text from `start` on. It begins at the beginning of
/// the text or behind a line feed, and goes on to the next line feed, or to the end
/// of the text if this is not at `start`. A carriage return before the line feed
/// does not belong to it.
pub open spec fn stands_at(text: Seq<u8>, start: int, end: int, line: Seq<u8>) -> bool {
    &&& 0 <= start <= end <= text.len()
    &&& start < text.len()
    &&& start > 0 ==> text[start - 1] == 10
    &&& forall|i: int| start <= i < end ==> text[i] != 10
    &&& if end == text.len() {
        line == text.subrange(start, end)
    } else {
        &&& text[end] == 10
        &&& line == text.subrange(
            start,
            if start < end && text[end - 1] == 13 {
                end - 1
            } else {
                end
            },
        )
    }
}

/// Lines are what stands behind the beginning and behind each line feed.
proof fn lemma_lines_stand(text: Seq<u8>, line: Seq<u8>)
    ensures
        lines(text).contains(line) <==> exists|start: int, end: int| #[trigger]
            stands_at(text, start, end, line),
    decreases text.len(),
{
    lemma_line_end(text);
    let first = line_end(text);
    if text.len() == 0 {
    } else if first == text.len() {
        assert(text.subrange(0, first) =~= text);
        if lines(text).contains(line) {
            assert(stands_at(text, 0, first, line));
        }
        if exists|start: int, end: int| #[trigger] stands_at(text, start, end, line) {
            let (start, end) = choose|start: int, end: int| #[trigger]
                stands_at(text, start, end, line);
            if start > 0 {
                assert(text[start - 1] != LINE_FEED);
            }
            if end < text.len() {
                assert(text[end] != LINE_FEED);
            }
            assert(lines(text)[0] == line);
        }
    } else {
        let rest = text.skip(first + 1);
        let found = without_carriage_return(text.take(first));
        lemma_lines_stand(rest, line);
        lemma_contains_first(found, lines(rest), line);
        assert(found =~= text.subrange(
            0,
            if 0 < first && text[first - 1] == 13 {
                first - 1
            } else {
                first
            },
        ));
        if found == line {
            assert(stands_at(text, 0, first, line));
        }
        if lines(rest).contains(line) {
            let (start, end) = choose|start: int, end: int| #[trigger]
                stands_at(rest, start, end, line);
            lemma_stands_further(text, first + 1, start, end, line);
        }
        if exists|start: int, end: int| #[trigger] stands_at(text, start, end, line) {
            let (start, end) = choose|start: int, end: int| #[trigger]
                stands_at(text, start, end, line);
            if start == 0 {
                if end < first {
                    assert(text[end] != LINE_FEED);
                } else if first < end {
                    assert(text[first] != 10);
                }
                assert(line =~= found);
            } else {
                assert(start - 1 >= first) by {
                    if start - 1 < first {
                        assert(text[start - 1] != LINE_FEED);
                    }
                }
                lemma_stands_further(text, first + 1, start - first - 1, end - first - 1, line);
                assert(stands_at(rest, start - first - 1, end - first - 1, line));
            }
        }
    }
}

/// A line of what follows a line feed is a line of the whole.
proof fn lemma_stands_further(text: Seq<u8>, by: int, start: int, end: int, line: Seq<u8>)
    requires
        0 < by <= text.len(),
        text[by - 1] == 10,
        0 <= start,
    ensures
        stands_at(text.skip(by), start, end, line) <==> stands_at(text, start + by, end + by, line),
{
    let rest = text.skip(by);
    if 0 <= start <= end <= rest.len() {
        assert(rest.subrange(start, end) =~= text.subrange(start + by, end + by));
        if start < end {
            assert(rest.subrange(start, end - 1) =~= text.subrange(start + by, end + by - 1));
        }
    }
    if stands_at(text, start + by, end + by, line) {
        assert forall|i: int| start <= i < end implies rest[i] != 10 by {
            assert(text[i + by] != 10);
        }
    }
    if stands_at(rest, start, end, line) {
        assert forall|i: int| start + by <= i < end + by implies text[i] != 10 by {
            assert(rest[i - by] != 10);
        }
    }
}

/// Where there is a list of valid login shells, a shell is not restricted if and
/// only if it stands on a line of the list.
pub proof fn law_unrestricted_shells_are_listed(shell: Seq<u8>, list: Seq<char>)
    ensures
        !restricted(shell, Some(list)) <==> exists|start: int, end: int| #[trigger]
            stands_at(encode_utf8(list), start, end, shell),
{
    let text = encode_utf8(list);
    lemma_lines_stand(text, shell);
    encode_utf8_valid_utf8(list);
    if lines(text).contains(shell) {
        let i = choose|i: int| 0 <= i < lines(text).len() && lines(text)[i] == shell;
        lemma_lines_are_utf8(text, i);
    }
}

/// Where there is no list of valid login shells, a shell is not restricted if and
/// only if it is the one that every system has.
pub proof fn law_one_shell_needs_no_list(shell: Seq<u8>)
    ensures
        !restricted(shell, None) <==> shell == encode_utf8("/bin/sh"@),
{
    encode_utf8_valid_utf8(FALLBACK_LOGIN_SHELL@);
}

/// The answer for a shell and a list is the one that the list gives.
pub proof fn law_list_decides(shell: Vec<u8>, shells: Option<String>, answer: bool)
    requires
        call_ensures(is_restricted, (&shell, &shells), answer),
    ensures
        shells is Some ==> (!answer <==> exists|start: int, end: int| #[trigger]
            stands_at(encode_utf8(shells->0@), start, end, shell@)),
        shells is None ==> (!answer <==> shell@ == encode_utf8("/bin/sh"@)),
{
    if shells is Some {
        assert(answer == restricted(shell@, Some(shells->0@)));
        law_unrestricted_shells_are_listed(shell@, shells->0@);
    } else {
        law_one_shell_needs_no_list(shell@);
    }
}

} // verus!
