//! The header block of a message.
//!
//! A header block is a run of lines separated by CR LF. A line of the form
//! `Key:value` is a header; the value is what follows the first colon, with
//! the blanks around it removed. Any other line is skipped. Keys are compared
//! byte for byte, and of several headers with one key the first counts.

use vstd::prelude::*;
use crate::scan::{
    bytes_eq, find, first_match, is_blank, lemma_first_match_is_least,
    lemma_least_is_first_match, lemma_no_match, occurs_at, trim, trim_end, trim_start, trimmed,
    COLON, CR, LF, SPACE,
};

verus! {

/// The line separator, CR LF.
pub open spec fn crlf() -> Seq<u8> {
    seq![CR, LF]
}

/// The end of a header block in a text message: an empty line, CR LF CR LF.
pub open spec fn terminator() -> Seq<u8> {
    seq![CR, LF, CR, LF]
}

/// The value that `line` gives to `key`: `line` is `key`, a colon and the
/// value, which is trimmed.
pub open spec fn line_value(line: Seq<u8>, key: Seq<u8>) -> Option<Seq<u8>> {
    match first_match(line, seq![COLON]) {
        Some(i) => if line.subrange(0, i) == key {
            Some(trim(line.subrange(i + 1, line.len() as int)))
        } else {
            None
        },
        None => None,
    }
}

/// The value of the first header of `block` whose key is `key`.
pub open spec fn header_value(block: Seq<u8>, key: Seq<u8>) -> Option<Seq<u8>>
    decreases block.len(),
{
    match first_match(block, crlf()) {
        Some(i) => match line_value(block.subrange(0, i), key) {
            Some(v) => Some(v),
            None => {
                proof {
                    lemma_first_match_is_least(block, crlf(), 0);
                }
                header_value(block.subrange(i + 2, block.len() as int), key)
            },
        },
        None => line_value(block, key),
    }
}

/// Reads the value that one line gives to `key`.
pub fn value_in_line<'a>(line: &'a [u8], key: &[u8]) -> (r: Option<&'a [u8]>)
    ensures
        match r {
            Some(v) => line_value(line@, key@) == Some(v@),
            None => line_value(line@, key@) is None,
        },
{
    let colon = [COLON];
    assert(colon@ =~= seq![COLON]);
    match find(line, colon.as_slice()) {
        Some(i) => {
            proof {
                lemma_first_match_is_least(line@, colon@, 0);
            }
            let n = line.len();
            if bytes_eq(&line[0..i], key) {
                Some(trimmed(&line[i + 1..n]))
            } else {
                None
            }
        },
        None => None,
    }
}

/// Looks up the first header of `block` whose key is `key`.
pub fn lookup<'a>(block: &'a [u8], key: &[u8]) -> (r: Option<&'a [u8]>)
    ensures
        match r {
            Some(v) => header_value(block@, key@) == Some(v@),
            None => header_value(block@, key@) is None,
        },
{
    let sep = [CR, LF];
    assert(sep@ =~= crlf());
    let mut rest: &[u8] = block;
    loop
        invariant
            sep@ == crlf(),
            header_value(block@, key@) == header_value(rest@, key@),
        decreases rest@.len(),
    {
        match find(rest, sep.as_slice()) {
            Some(i) => {
                proof {
                    lemma_first_match_is_least(rest@, sep@, 0);
                }
                let n = rest.len();
                match value_in_line(&rest[0..i], key) {
                    Some(v) => {
                        return Some(v);
                    },
                    None => {
                        rest = &rest[i + 2..n];
                    },
                }
            },
            None => {
                return value_in_line(rest, key);
            },
        }
    }
}

/// A line of a header block: not empty, and free of CR and LF.
pub open spec fn is_line(line: Seq<u8>) -> bool {
    &&& line.len() > 0
    &&& forall|i: int| 0 <= i < line.len() ==> #[trigger] line[i] != CR && line[i] != LF
}

/// The header block made of the given lines: the lines with CR LF between
/// them.
pub open spec fn join_lines(lines: Seq<Seq<u8>>) -> Seq<u8>
    decreases lines.len(),
{
    if lines.len() == 0 {
        Seq::empty()
    } else if lines.len() == 1 {
        lines[0]
    } else {
        lines[0] + crlf() + join_lines(lines.drop_first())
    }
}

/// The value that the first of the lines with the given key gives to it.
pub open spec fn first_value(lines: Seq<Seq<u8>>, key: Seq<u8>) -> Option<Seq<u8>>
    decreases lines.len(),
{
    if lines.len() == 0 {
        None
    } else {
        match line_value(lines[0], key) {
            Some(v) => Some(v),
            None => first_value(lines.drop_first(), key),
        }
    }
}

/// A header written as it is sent: the key, a colon, a space and the value.
pub open spec fn written_header(key: Seq<u8>, value: Seq<u8>) -> Seq<u8> {
    key + seq![COLON, SPACE] + value
}

/// A key that can be written and read back: it holds no colon.
pub open spec fn is_key(key: Seq<u8>) -> bool {
    forall|i: int| 0 <= i < key.len() ==> #[trigger] key[i] != COLON
}

/// A value that reads back as it was written: no blank stands at either end.
pub open spec fn is_trimmed(value: Seq<u8>) -> bool {
    value.len() > 0 ==> !is_blank(value[0]) && !is_blank(value.last())
}

/// A line without CR holds no line separator.
pub proof fn lemma_line_is_unbroken(line: Seq<u8>)
    requires
        forall|i: int| 0 <= i < line.len() ==> #[trigger] line[i] != CR,
    ensures
        first_match(line, crlf()) is None,
{
    assert forall|j: int| 0 <= j implies !occurs_at(line, crlf(), j) by {
        if occurs_at(line, crlf(), j) {
            assert(line.subrange(j, j + 2)[0] == line[j]);
        }
    }
    lemma_no_match(line, crlf(), 0);
}

/// Where a line without CR is followed by a line separator, the first
/// separator is the one that follows it.
pub proof fn lemma_first_separator(line: Seq<u8>, rest: Seq<u8>)
    requires
        forall|i: int| 0 <= i < line.len() ==> #[trigger] line[i] != CR,
    ensures
        first_match(line + crlf() + rest, crlf()) == Some(line.len() as int),
{
    let s = line + crlf() + rest;
    let n = line.len() as int;
    assert(s.subrange(n, n + 2) =~= crlf());
    assert forall|j: int| 0 <= j < n implies !occurs_at(s, crlf(), j) by {
        if occurs_at(s, crlf(), j) {
            assert(s.subrange(j, j + 2)[0] == s[j]);
            assert(s[j] == line[j]);
        }
    }
    lemma_least_is_first_match(s, crlf(), 0, n);
}

/// Looking a key up in a block made of lines finds the first of the lines
/// that has the key.
pub proof fn lemma_lookup_in_lines(lines: Seq<Seq<u8>>, key: Seq<u8>)
    requires
        forall|i: int| 0 <= i < lines.len() ==> is_line(#[trigger] lines[i]),
    ensures
        header_value(join_lines(lines), key) == first_value(lines, key),
    decreases lines.len(),
{
    if lines.len() == 0 {
        let empty = Seq::<u8>::empty();
        assert(first_match(empty, crlf()) is None);
        assert(first_match(empty, seq![COLON]) is None);
    } else if lines.len() == 1 {
        assert(is_line(lines[0]));
        lemma_line_is_unbroken(lines[0]);
        assert(first_value(lines.drop_first(), key) is None);
    } else {
        let line = lines[0];
        let rest = lines.drop_first();
        let block = join_lines(lines);
        assert(is_line(line));
        lemma_first_separator(line, join_lines(rest));
        assert(block.subrange(0, line.len() as int) =~= line);
        assert(block.subrange(line.len() as int + 2, block.len() as int) =~= join_lines(rest));
        assert forall|i: int| 0 <= i < rest.len() implies is_line(#[trigger] rest[i]) by {
            assert(rest[i] == lines[i + 1]);
        }
        lemma_lookup_in_lines(rest, key);
    }
}

/// The order of headers does not matter, and lines that do not give the key
/// a value are passed over: where one line of a block gives a key its value
/// and no line before it gives the key any, looking the key up finds that
/// value, whatever the other lines are.
pub proof fn lemma_header_found_anywhere(lines: Seq<Seq<u8>>, key: Seq<u8>, at: int)
    requires
        forall|i: int| 0 <= i < lines.len() ==> is_line(#[trigger] lines[i]),
        0 <= at < lines.len(),
        line_value(lines[at], key) is Some,
        forall|i: int| 0 <= i < at ==> line_value(#[trigger] lines[i], key) is None,
    ensures
        header_value(join_lines(lines), key) == line_value(lines[at], key),
    decreases at,
{
    lemma_lookup_in_lines(lines, key);
    if at > 0 {
        let rest = lines.drop_first();
        assert forall|i: int| 0 <= i < rest.len() implies is_line(#[trigger] rest[i]) by {
            assert(rest[i] == lines[i + 1]);
        }
        assert forall|i: int| 0 <= i < at - 1 implies line_value(#[trigger] rest[i], key)
            is None by {
            assert(rest[i] == lines[i + 1]);
        }
        assert(rest[at - 1] == lines[at]);
        lemma_header_found_anywhere(rest, key, at - 1);
        lemma_lookup_in_lines(rest, key);
        assert(line_value(lines[0], key) is None);
    }
}

/// A block made of lines starts as its first line does.
pub proof fn lemma_block_starts_with_line(lines: Seq<Seq<u8>>)
    requires
        lines.len() > 0,
        is_line(lines[0]),
    ensures
        join_lines(lines).len() >= lines[0].len(),
        join_lines(lines)[0] == lines[0][0],
{
}

/// Inside a block made of lines no empty line begins, whatever follows the
/// block.
pub proof fn lemma_no_terminator_inside(lines: Seq<Seq<u8>>, tail: Seq<u8>, j: int)
    requires
        lines.len() > 0,
        forall|i: int| 0 <= i < lines.len() ==> is_line(#[trigger] lines[i]),
        0 <= j < join_lines(lines).len(),
    ensures
        !occurs_at(join_lines(lines) + terminator() + tail, terminator(), j),
    decreases lines.len(),
{
    let block = join_lines(lines);
    let frame = block + terminator() + tail;
    let line = lines[0];
    assert(is_line(line));
    if occurs_at(frame, terminator(), j) {
        assert(frame.subrange(j, j + 4)[0] == frame[j]);
        assert(frame.subrange(j, j + 4)[2] == frame[j + 2]);
        assert(frame[j] == CR);
        assert(frame[j + 2] == CR);
        if lines.len() == 1 {
            assert(frame[j] == line[j]);
        } else {
            let rest = lines.drop_first();
            let inner = join_lines(rest) + terminator() + tail;
            assert forall|i: int| 0 <= i < rest.len() implies is_line(#[trigger] rest[i]) by {
                assert(rest[i] == lines[i + 1]);
            }
            assert(is_line(rest[0]));
            lemma_block_starts_with_line(rest);
            assert(frame =~= line + crlf() + inner);
            let n = line.len() as int;
            if j < n {
                assert(frame[j] == line[j]);
            } else if j == n {
                assert(frame[j + 2] == inner[0]);
                assert(inner[0] == rest[0][0]);
            } else if j == n + 1 {
                assert(frame[j] == LF);
            } else {
                assert(frame.subrange(j, j + 4) =~= inner.subrange(j - n - 2, j - n + 2));
                lemma_no_terminator_inside(rest, tail, j - n - 2);
            }
        }
    }
}

/// A block made of lines ends where the first empty line begins, whatever
/// follows it.
pub proof fn lemma_terminator_after_lines(lines: Seq<Seq<u8>>, tail: Seq<u8>)
    requires
        lines.len() > 0,
        forall|i: int| 0 <= i < lines.len() ==> is_line(#[trigger] lines[i]),
    ensures
        first_match(join_lines(lines) + terminator() + tail, terminator()) == Some(
            join_lines(lines).len() as int,
        ),
{
    let block = join_lines(lines);
    let frame = block + terminator() + tail;
    let n = block.len() as int;
    assert(frame.subrange(n, n + 4) =~= terminator());
    assert forall|j: int| 0 <= j < n implies !occurs_at(frame, terminator(), j) by {
        lemma_no_terminator_inside(lines, tail, j);
    }
    lemma_least_is_first_match(frame, terminator(), 0, n);
}

/// Trimming leaves a value alone that has no blank at either end, also
/// behind the space that a written header puts before it.
pub proof fn lemma_trim_written_value(value: Seq<u8>)
    requires
        is_trimmed(value),
    ensures
        trim(seq![SPACE] + value) == value,
{
    let padded = seq![SPACE] + value;
    assert(padded.drop_first() =~= value);
    assert(trim_start(padded) == trim_start(value));
    assert(trim_start(value) == value);
    assert(trim_end(value) == value);
}

/// A written header gives its value to its own key, and nothing to another.
pub proof fn lemma_written_header_value(key: Seq<u8>, value: Seq<u8>, asked: Seq<u8>)
    requires
        is_key(key),
        is_trimmed(value),
    ensures
        line_value(written_header(key, value), asked) == if asked == key {
            Some(value)
        } else {
            None
        },
{
    let line = written_header(key, value);
    let colon = seq![COLON];
    let n = key.len() as int;
    assert(line.subrange(n, n + 1) =~= colon);
    assert forall|j: int| 0 <= j < n implies !occurs_at(line, colon, j) by {
        if occurs_at(line, colon, j) {
            assert(line.subrange(j, j + 1)[0] == line[j]);
            assert(line[j] == key[j]);
        }
    }
    lemma_least_is_first_match(line, colon, 0, n);
    assert(line.subrange(0, n) =~= key);
    assert(line.subrange(n + 1, line.len() as int) =~= seq![SPACE] + value);
    lemma_trim_written_value(value);
}

} // verus!
