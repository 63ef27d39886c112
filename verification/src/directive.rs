//! Source directives: a line that starts with `#blur` sets the decay and is
//! taken out of the source.

use crate::interpreter::{clamped, set_decay};
use crate::number::Num;
use crate::numeral::{append_chars, find_char, first_of, parse_number, parsed_number};
use crate::state::{State, StateView};
use crate::text::{chars_of, string_of};
use vstd::prelude::*;

verus! {

/// Whether a character is white space, as Unicode defines it.
pub open spec fn is_space(c: char) -> bool {
    let code = c as u32;
    ||| 0x09 <= code <= 0x0D
    ||| code == 0x20
    ||| code == 0x85
    ||| code == 0xA0
    ||| code == 0x1680
    ||| 0x2000 <= code <= 0x200A
    ||| code == 0x2028
    ||| code == 0x2029
    ||| code == 0x202F
    ||| code == 0x205F
    ||| code == 0x3000
}

/// The first place at or after `from` that holds no white space.
pub open spec fn content_start(s: Seq<char>, from: int) -> int
    decreases s.len() - from,
{
    if from >= s.len() {
        s.len() as int
    } else if is_space(s[from]) {
        content_start(s, from + 1)
    } else {
        from
    }
}

/// The first place at or after `from` that holds white space.
pub open spec fn word_end(s: Seq<char>, from: int) -> int
    decreases s.len() - from,
{
    if from >= s.len() {
        s.len() as int
    } else if is_space(s[from]) {
        from
    } else {
        word_end(s, from + 1)
    }
}

/// The end of the text before `to` without the white space at its end.
pub open spec fn content_end(s: Seq<char>, to: int) -> int
    decreases to,
{
    if to <= 0 {
        0
    } else if is_space(s[to - 1]) {
        content_end(s, to - 1)
    } else {
        to
    }
}

/// A text without the white space at its start and at its end.
pub open spec fn strip(s: Seq<char>) -> Seq<char> {
    let start = content_start(s, 0);
    let end = content_end(s, s.len() as int);
    if start >= end {
        Seq::empty()
    } else {
        s.subrange(start, end)
    }
}

/// Whether a text begins with another.
pub open spec fn starts_with(s: Seq<char>, prefix: Seq<char>) -> bool {
    s.len() >= prefix.len() && s.take(prefix.len() as int) == prefix
}

/// The second of the words that white space separates in a text that begins
/// with a word.
pub open spec fn second_word(s: Seq<char>) -> Option<Seq<char>> {
    let start = content_start(s, word_end(s, 0));
    if start >= s.len() {
        None
    } else {
        Some(s.subrange(start, word_end(s, start)))
    }
}

/// The line that begins at `from`: the text up to the next line feed, without
/// a carriage return before that line feed.
pub open spec fn line_at(s: Seq<char>, from: int) -> Seq<char> {
    let end = first_of(s, '\n', from);
    if end < s.len() && end > from && s[end - 1] == '\r' {
        s.subrange(from, end - 1)
    } else {
        s.subrange(from, end)
    }
}

/// The place where the line after the one at `from` begins: behind the next
/// line feed, or at the end.
pub open spec fn next_line(s: Seq<char>, from: int) -> int {
    let end = first_of(s, '\n', from);
    if from <= end < s.len() {
        end + 1
    } else if from < s.len() {
        s.len() as int
    } else {
        from + 1
    }
}

/// Whether a line is a directive: its first word begins with `#blur`.
pub open spec fn is_directive(line: Seq<char>) -> bool {
    starts_with(strip(line), "#blur"@)
}

/// The decay after a directive: the number that its second word spells,
/// clamped, or the decay as it was where there is no such number.
pub open spec fn directive_decay(line: Seq<char>, decay: Num) -> Num {
    match second_word(strip(line)) {
        Some(word) => match parsed_number(word) {
            Some(d) => clamped(d),
            None => decay,
        },
        None => decay,
    }
}

/// The decay and the source that the lines from `from` on leave: a directive
/// sets the decay, every other line is kept; the kept lines are joined by
/// line feeds.
pub open spec fn processed(s: Seq<char>, from: int, decay: Num, kept: Seq<char>, any: bool) -> (
    Num,
    Seq<char>,
)
    decreases s.len() - from,
{
    if from >= s.len() || from < 0 {
        (decay, kept)
    } else {
        let line = line_at(s, from);
        if is_directive(line) {
            processed(s, next_line(s, from), directive_decay(line, decay), kept, any)
        } else if any {
            processed(s, next_line(s, from), decay, kept + seq!['\n'] + line, true)
        } else {
            processed(s, next_line(s, from), decay, line, true)
        }
    }
}

/// The first `c` at or after `from` is neither before `from` nor beyond the
/// end.
pub proof fn lemma_first_of_bounds(s: Seq<char>, c: char, from: int)
    requires
        0 <= from <= s.len(),
    ensures
        from <= first_of(s, c, from) <= s.len(),
    decreases s.len() - from,
{
    if from < s.len() && s[from] != c {
        lemma_first_of_bounds(s, c, from + 1);
    }
}

/// The next line begins after the line before it.
pub proof fn lemma_line_advances(s: Seq<char>, from: int)
    requires
        0 <= from < s.len(),
    ensures
        from < next_line(s, from) <= s.len(),
{
    lemma_first_of_bounds(s, '\n', from);
}

/// Whether a character is white space.
pub fn space(c: char) -> (r: bool)
    ensures
        r == is_space(c),
{
    let code: u32 = c as u32;
    (0x09 <= code && code <= 0x0D) || code == 0x20 || code == 0x85 || code == 0xA0 || code == 0x1680
        || (0x2000 <= code && code <= 0x200A) || code == 0x2028 || code == 0x2029 || code == 0x202F
        || code == 0x205F || code == 0x3000
}

/// The first place at or after `from` that holds no white space.
pub fn skip_spaces(s: &Vec<char>, from: usize) -> (r: usize)
    requires
        from <= s@.len(),
    ensures
        r == content_start(s@, from as int),
        from <= r <= s@.len(),
{
    let mut i: usize = from;
    while i < s.len() && space(s[i])
        invariant
            from <= i <= s@.len(),
            content_start(s@, from as int) == content_start(s@, i as int),
        decreases s.len() - i,
    {
        i += 1;
    }
    i
}

/// The first place at or after `from` that holds white space.
pub fn skip_word(s: &Vec<char>, from: usize) -> (r: usize)
    requires
        from <= s@.len(),
    ensures
        r == word_end(s@, from as int),
        from <= r <= s@.len(),
{
    let mut i: usize = from;
    while i < s.len() && !space(s[i])
        invariant
            from <= i <= s@.len(),
            word_end(s@, from as int) == word_end(s@, i as int),
        decreases s.len() - i,
    {
        i += 1;
    }
    i
}

/// The characters from `from` up to `to`.
pub fn slice_of(s: &Vec<char>, from: usize, to: usize) -> (r: Vec<char>)
    requires
        from <= to <= s@.len(),
    ensures
        r@ == s@.subrange(from as int, to as int),
{
    let mut out: Vec<char> = Vec::new();
    append_chars(&mut out, s, from, to);
    assert(out@ =~= s@.subrange(from as int, to as int));
    out
}

/// A text without the white space at its start and at its end.
pub fn stripped(s: &Vec<char>) -> (r: Vec<char>)
    ensures
        r@ == strip(s@),
{
    let start: usize = skip_spaces(s, 0);
    let mut end: usize = s.len();
    while end > 0 && space(s[end - 1])
        invariant
            end <= s@.len(),
            content_end(s@, s@.len() as int) == content_end(s@, end as int),
        decreases end,
    {
        end -= 1;
    }
    if start >= end {
        Vec::new()
    } else {
        slice_of(s, start, end)
    }
}

/// Whether a text begins with another.
pub fn begins_with(s: &Vec<char>, prefix: &str) -> (r: bool)
    ensures
        r == starts_with(s@, prefix@),
{
    let p: Vec<char> = chars_of(prefix);
    if s.len() < p.len() {
        return false;
    }
    let mut i: usize = 0;
    while i < p.len()
        invariant
            i <= p@.len(),
            p@ == prefix@,
            s@.len() >= p@.len(),
            forall|j: int| 0 <= j < i ==> s@[j] == p@[j],
        decreases p.len() - i,
    {
        if s[i] != p[i] {
            assert(s@.take(p@.len() as int)[i as int] != p@[i as int]);
            return false;
        }
        i += 1;
    }
    assert(s@.take(p@.len() as int) =~= p@);
    true
}

/// The decay that a directive sets, if its second word spells a number.
pub fn directive_value(line: &Vec<char>) -> (r: Option<Num>)
    ensures
        r == match second_word(line@) {
            Some(word) => parsed_number(word),
            None => None,
        },
{
    let first_end: usize = skip_word(line, 0);
    let start: usize = skip_spaces(line, first_end);
    if start >= line.len() {
        return None;
    }
    let end: usize = skip_word(line, start);
    let word: String = string_of(&slice_of(line, start, end));
    parse_number(word.as_str())
}

/// Takes the directives out of a source and sets the decay as they say. The
/// other lines are kept in order, joined by line feeds.
pub fn process_directives(state: &mut State, source: &str) -> (r: String)
    ensures
        final(state)@ == (StateView {
            decay: processed(source@, 0, old(state)@.decay, Seq::empty(), false).0,
            ..old(state)@
        }),
        r@ == processed(source@, 0, old(state)@.decay, Seq::empty(), false).1,
{
    let s: Vec<char> = chars_of(source);
    let mut kept: Vec<char> = Vec::new();
    let mut any: bool = false;
    let mut from: usize = 0;
    assert(kept@ =~= Seq::<char>::empty());
    while from < s.len()
        invariant
            from <= s@.len(),
            s@ == source@,
            !any ==> kept@.len() == 0,
            state@.scopes == old(state)@.scopes,
            state@.output == old(state)@.output,
            processed(source@, 0, old(state)@.decay, Seq::empty(), false) == processed(
                s@,
                from as int,
                state@.decay,
                kept@,
                any,
            ),
        decreases s.len() - from,
    {
        proof {
            lemma_line_advances(s@, from as int);
        }
        let end: usize = find_char(&s, '\n', from);
        let line: Vec<char> = if end < s.len() && end > from && s[end - 1] == '\r' {
            slice_of(&s, from, end - 1)
        } else {
            slice_of(&s, from, end)
        };
        assert(line@ == line_at(s@, from as int));
        let trimmed: Vec<char> = stripped(&line);
        if begins_with(&trimmed, "#blur") {
            match directive_value(&trimmed) {
                Some(decay) => {
                    set_decay(state, decay);
                },
                None => {},
            }
        } else {
            let ghost earlier = kept@;
            if any {
                kept.push('\n');
            }
            let ghost before = kept@;
            append_chars(&mut kept, &line, 0, line.len());
            assert(line@.subrange(0, line@.len() as int) =~= line@);
            assert(kept@ =~= before + line@);
            assert(any ==> kept@ =~= earlier + seq!['\n'] + line@);
            assert(!any ==> kept@ =~= line@);
            any = true;
        }
        from = if end < s.len() {
            end + 1
        } else {
            s.len()
        };
    }
    string_of(&kept)
}

} // verus!
