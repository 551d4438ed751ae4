//! Splitting a text into chunks that the platform accepts as messages.
//!
//! A text of at most [`MESSAGE_LIMIT`] bytes is one chunk. A longer text is taken
//! line by line: lines are packed into chunks, a line break between them, as long
//! as the chunk stays within the limit; a line that is itself over the limit is
//! cut character by character into pieces as long as the limit allows. A chunk that
//! holds nothing but white space is replaced by a single full stop.

use vstd::prelude::*;
use vstd::string::*;
use std::borrow::Cow;
use crate::text::{
    byte_len, char_width, chars_of, lemma_byte_len_concat, lemma_byte_len_one, push_chars,
    string_of,
};

verus! {

/// The largest number of bytes of one message.
pub const MESSAGE_LIMIT: usize = 2000;

/// The characters that Unicode gives the property White_Space.
pub open spec fn is_whitespace(c: char) -> bool {
    let n = c as nat;
    ||| 0x09 <= n <= 0x0D
    ||| n == 0x20
    ||| n == 0x85
    ||| n == 0xA0
    ||| n == 0x1680
    ||| 0x2000 <= n <= 0x200A
    ||| n == 0x2028
    ||| n == 0x2029
    ||| n == 0x202F
    ||| n == 0x205F
    ||| n == 0x3000
}

/// Nothing is left of the text once white space is trimmed from it.
pub open spec fn is_blank(s: Seq<char>) -> bool {
    forall|i: int| 0 <= i < s.len() ==> is_whitespace(#[trigger] s[i])
}

/// The place of the first line feed in `s`, or the length of `s` where it has none.
pub open spec fn first_newline(s: Seq<char>) -> nat
    decreases s.len(),
{
    if s.len() == 0 || s[0] == '\n' {
        0
    } else {
        1 + first_newline(s.drop_first())
    }
}

/// A line without the carriage return that stood before its line feed.
pub open spec fn strip_cr(line: Seq<char>) -> Seq<char> {
    if line.len() > 0 && line.last() == '\r' {
        line.drop_last()
    } else {
        line
    }
}

/// The lines of a text. A line ends with a line feed, or a carriage return and a
/// line feed, or with the text; the line endings belong to no line, and a text
/// that ends with a line ending has no empty line after it.
pub open spec fn lines(s: Seq<char>) -> Seq<Seq<char>>
    decreases s.len(),
{
    if s.len() == 0 {
        Seq::empty()
    } else {
        let i = first_newline(s);
        if i >= s.len() {
            seq![s]
        } else {
            seq![strip_cr(s.take(i as int))] + lines(s.skip(i as int + 1))
        }
    }
}

/// How many characters from the start of `s` fit into `budget` bytes.
pub open spec fn piece_end(s: Seq<char>, budget: nat) -> nat
    decreases s.len(),
{
    if s.len() == 0 || byte_len(seq![s[0]]) > budget {
        0
    } else {
        1 + piece_end(s.drop_first(), (budget - byte_len(seq![s[0]])) as nat)
    }
}

/// The length of the first piece of a hard split: what fits, and one character at
/// the least.
pub open spec fn piece_len(s: Seq<char>) -> nat {
    if piece_end(s, MESSAGE_LIMIT as nat) == 0 || piece_end(s, MESSAGE_LIMIT as nat) > s.len() {
        1
    } else {
        piece_end(s, MESSAGE_LIMIT as nat)
    }
}

/// A line cut into pieces, each as long as the limit allows.
pub open spec fn hard_split(s: Seq<char>) -> Seq<Seq<char>>
    decreases s.len(),
{
    if s.len() == 0 {
        Seq::empty()
    } else {
        seq![s.take(piece_len(s) as int)] + hard_split(s.skip(piece_len(s) as int))
    }
}

/// The chunks after one more line. `open` says that the last chunk ends with a
/// whole line, so that a further line may join it.
pub open spec fn pack_step(chunks: Seq<Seq<char>>, open: bool, line: Seq<char>) -> (
    Seq<Seq<char>>,
    bool,
) {
    if byte_len(line) > MESSAGE_LIMIT {
        (chunks + hard_split(line), false)
    } else if open && chunks.len() > 0 && byte_len(chunks.last()) + 1 + byte_len(line)
        <= MESSAGE_LIMIT {
        (chunks.drop_last().push(chunks.last() + seq!['\n'] + line), true)
    } else {
        (chunks.push(line), true)
    }
}

/// The chunks that a list of lines packs into, and whether the last one is open.
pub open spec fn pack(ls: Seq<Seq<char>>) -> (Seq<Seq<char>>, bool)
    decreases ls.len(),
{
    if ls.len() == 0 {
        (Seq::empty(), false)
    } else {
        let before = pack(ls.drop_last());
        pack_step(before.0, before.1, ls.last())
    }
}

/// A chunk as it is posted: a blank one gives way to a full stop.
pub open spec fn filled(chunk: Seq<char>) -> Seq<char> {
    if is_blank(chunk) {
        seq!['.']
    } else {
        chunk
    }
}

/// The chunks of a text.
pub open spec fn split(msg: Seq<char>) -> Seq<Seq<char>> {
    if byte_len(msg) <= MESSAGE_LIMIT {
        seq![msg]
    } else {
        pack(lines(msg)).0.map_values(|c: Seq<char>| filled(c))
    }
}

/// Texts joined with a line feed between each two.
pub open spec fn joined(parts: Seq<Seq<char>>) -> Seq<char>
    decreases parts.len(),
{
    if parts.len() == 0 {
        Seq::empty()
    } else if parts.len() == 1 {
        parts[0]
    } else {
        joined(parts.drop_last()) + seq!['\n'] + parts.last()
    }
}

/// The character is white space.
pub fn char_is_whitespace(c: char) -> (r: bool)
    ensures
        r == is_whitespace(c),
{
    let n: u32 = c as u32;
    (0x09 <= n && n <= 0x0D) || n == 0x20 || n == 0x85 || n == 0xA0 || n == 0x1680 || (0x2000
        <= n && n <= 0x200A) || n == 0x2028 || n == 0x2029 || n == 0x202F || n == 0x205F || n
        == 0x3000
}

/// The text holds white space only.
pub fn str_is_blank(s: &str) -> (r: bool)
    ensures
        r == is_blank(s@),
{
    let chars = chars_of(s);
    let mut i: usize = 0;
    while i < chars.len()
        invariant
            i <= chars.len(),
            chars@ == s@,
            forall|k: int| 0 <= k < i ==> is_whitespace(#[trigger] chars@[k]),
        decreases chars.len() - i,
    {
        if !char_is_whitespace(chars[i]) {
            return false;
        }
        i = i + 1;
    }
    true
}

/// The characters of each string of a list.
pub open spec fn views(v: Seq<String>) -> Seq<Seq<char>> {
    v.map_values(|s: String| s@)
}

/// The parts of `chars` that a list of ranges marks.
pub open spec fn marked(chars: Seq<char>, ranges: Seq<(usize, usize)>) -> Seq<Seq<char>> {
    Seq::new(ranges.len(), |k: int| chars.subrange(ranges[k].0 as int, ranges[k].1 as int))
}

/// Every range lies within a text of `n` characters.
pub open spec fn within(ranges: Seq<(usize, usize)>, n: nat) -> bool {
    forall|k: int| 0 <= k < ranges.len() ==> (#[trigger] ranges[k]).0 <= ranges[k].1 <= n
}

proof fn lemma_part_bytes(s: Seq<char>, a: int, b: int)
    requires
        0 <= a <= b <= s.len(),
    ensures
        byte_len(s.subrange(a, b)) <= byte_len(s),
        byte_len(s.subrange(a, b)) + byte_len(s.subrange(b, s.len() as int)) == byte_len(
            s.subrange(a, s.len() as int),
        ),
{
    let tail = s.subrange(a, s.len() as int);
    assert(s =~= s.subrange(0, a) + tail);
    assert(tail =~= s.subrange(a, b) + s.subrange(b, s.len() as int));
    lemma_byte_len_concat(s.subrange(0, a), tail);
    lemma_byte_len_concat(s.subrange(a, b), s.subrange(b, s.len() as int));
}

proof fn lemma_line_feed_bytes()
    ensures
        byte_len(seq!['\n']) == 1,
        byte_len(seq!['\r']) == 1,
        byte_len(seq!['.']) == 1,
{
    lemma_byte_len_one('\n');
    lemma_byte_len_one('\r');
    lemma_byte_len_one('.');
}

/// The ranges of the lines of a text.
fn split_lines(chars: &Vec<char>) -> (out: Vec<(usize, usize)>)
    ensures
        within(out@, chars@.len()),
        marked(chars@, out@) == lines(chars@),
{
    let n = chars.len();
    let mut out: Vec<(usize, usize)> = Vec::new();
    let mut pos: usize = 0;
    assert(chars@.skip(0) =~= chars@);
    assert(marked(chars@, out@) + lines(chars@.skip(0)) =~= lines(chars@));
    while pos < n
        invariant
            pos <= n,
            n == chars.len(),
            within(out@, chars@.len()),
            marked(chars@, out@) + lines(chars@.skip(pos as int)) == lines(chars@),
        decreases n - pos,
    {
        let ghost rest = chars@.skip(pos as int);
        let ghost before = marked(chars@, out@);
        let mut end: usize = pos;
        while end < n && chars[end] != '\n'
            invariant
                pos <= end <= n,
                n == chars.len(),
                first_newline(rest) == (end - pos) + first_newline(chars@.skip(end as int)),
                rest == chars@.skip(pos as int),
            decreases n - end,
        {
            assert(chars@.skip(end as int).drop_first() =~= chars@.skip(end + 1));
            end = end + 1;
        }
        assert(first_newline(rest) == end - pos) by {
            if end < n {
                assert(chars@.skip(end as int)[0] == '\n');
            }
        }
        if end == n {
            out.push((pos, n));
            proof {
                assert(lines(rest) == seq![rest]);
                assert(chars@.skip(n as int) =~= Seq::<char>::empty());
                assert(chars@.subrange(pos as int, n as int) =~= rest);
                assert(marked(chars@, out@) =~= before.push(rest));
                assert(before.push(rest) + lines(chars@.skip(n as int)) =~= before + lines(rest));
            }
            pos = n;
        } else {
            let stop: usize = if end > pos && chars[end - 1] == '\r' {
                end - 1
            } else {
                end
            };
            out.push((pos, stop));
            proof {
                let raw = rest.take(end - pos);
                assert(raw =~= chars@.subrange(pos as int, end as int));
                if end > pos {
                    assert(raw.last() == chars@[end - 1]);
                }
                assert(strip_cr(raw) =~= chars@.subrange(pos as int, stop as int));
                assert(rest.skip(end - pos + 1) =~= chars@.skip(end + 1));
                assert(lines(rest) == seq![strip_cr(raw)] + lines(rest.skip(end - pos + 1)));
                assert(marked(chars@, out@) =~= before.push(strip_cr(raw)));
                assert(before.push(strip_cr(raw)) + lines(chars@.skip(end + 1)) =~= before + lines(
                    rest,
                ));
            }
            pos = end + 1;
        }
    }
    assert(chars@.skip(n as int) =~= Seq::<char>::empty());
    assert(marked(chars@, out@) + Seq::<Seq<char>>::empty() =~= marked(chars@, out@));
    out
}

/// The number of bytes of `chars[from..to]`.
fn range_bytes(chars: &Vec<char>, from: usize, to: usize) -> (r: usize)
    requires
        from <= to <= chars.len(),
        byte_len(chars@) <= usize::MAX,
    ensures
        r == byte_len(chars@.subrange(from as int, to as int)),
{
    let mut total: usize = 0;
    let mut i: usize = from;
    assert(chars@.subrange(from as int, from as int) =~= Seq::<char>::empty());
    while i < to
        invariant
            from <= i <= to <= chars.len(),
            byte_len(chars@) <= usize::MAX,
            total == byte_len(chars@.subrange(from as int, i as int)),
        decreases to - i,
    {
        let w = char_width(chars[i]);
        proof {
            assert(chars@.subrange(from as int, i + 1) =~= chars@.subrange(from as int, i as int)
                + seq![chars@[i as int]]);
            lemma_byte_len_concat(chars@.subrange(from as int, i as int), seq![chars@[i as int]]);
            lemma_part_bytes(chars@, from as int, i + 1);
        }
        total = total + w;
        i = i + 1;
    }
    total
}

proof fn lemma_views_push(v: Seq<String>, s: String)
    ensures
        views(v.push(s)) == views(v).push(s@),
{
    assert(views(v.push(s)) =~= views(v).push(s@));
}

/// Cuts `chars[from..to]` into pieces and appends them to `done`.
fn hard_split_into(done: &mut Vec<String>, chars: &Vec<char>, from: usize, to: usize)
    requires
        from <= to <= chars.len(),
    ensures
        views(final(done)@) == views(old(done)@) + hard_split(
            chars@.subrange(from as int, to as int),
        ),
{
    let mut pos: usize = from;
    assert(views(done@) + hard_split(chars@.subrange(from as int, to as int)) =~= views(
        old(done)@,
    ) + hard_split(chars@.subrange(from as int, to as int)));
    while pos < to
        invariant
            from <= pos <= to <= chars.len(),
            views(done@) + hard_split(chars@.subrange(pos as int, to as int)) == views(
                old(done)@,
            ) + hard_split(chars@.subrange(from as int, to as int)),
        decreases to - pos,
    {
        let ghost rest = chars@.subrange(pos as int, to as int);
        let mut end: usize = pos;
        let mut bytes: usize = 0;
        loop
            invariant
                pos <= end <= to <= chars.len(),
                pos < to,
                bytes <= MESSAGE_LIMIT,
                rest == chars@.subrange(pos as int, to as int),
                piece_end(rest, MESSAGE_LIMIT as nat) == (end - pos) + piece_end(
                    chars@.subrange(end as int, to as int),
                    (MESSAGE_LIMIT - bytes) as nat,
                ),
                end == pos ==> bytes == 0,
            ensures
                pos < end <= to,
                piece_end(rest, MESSAGE_LIMIT as nat) == end - pos,
            decreases to - end,
        {
            if end >= to {
                break ;
            }
            let w = char_width(chars[end]);
            let ghost here = chars@.subrange(end as int, to as int);
            proof {
                assert(here[0] == chars@[end as int]);
                assert(here.drop_first() =~= chars@.subrange(end + 1, to as int));
            }
            if bytes + w > MESSAGE_LIMIT {
                break ;
            }
            bytes = bytes + w;
            end = end + 1;
        }
        let piece = string_of(chars, pos, end);
        let ghost before = done@;
        done.push(piece);
        proof {
            lemma_views_push(before, piece);
            assert(piece_len(rest) == end - pos);
            assert(rest.take(end - pos) =~= chars@.subrange(pos as int, end as int));
            assert(rest.skip(end - pos) =~= chars@.subrange(end as int, to as int));
            assert(hard_split(rest) == seq![rest.take(end - pos)] + hard_split(
                rest.skip(end - pos),
            ));
            assert(views(before).push(piece@) + hard_split(chars@.subrange(end as int, to as int))
                =~= views(before) + hard_split(rest));
        }
        pos = end;
    }
    assert(chars@.subrange(to as int, to as int) =~= Seq::<char>::empty());
    assert(views(done@) + Seq::<Seq<char>>::empty() =~= views(done@));
}

/// The chunks so far: the finished ones and, where there is one, the open one.
pub open spec fn chunks_of(done: Seq<String>, current: Seq<char>, open: bool) -> Seq<Seq<char>> {
    if open {
        views(done).push(current)
    } else {
        views(done)
    }
}

/// Packs the lines that `ranges` marks in `chars` into chunks.
fn pack_lines(chars: &Vec<char>, ranges: &Vec<(usize, usize)>) -> (out: Vec<String>)
    requires
        within(ranges@, chars@.len()),
        byte_len(chars@) <= usize::MAX,
    ensures
        views(out@) == pack(marked(chars@, ranges@)).0,
{
    let ghost ls = marked(chars@, ranges@);
    let mut done: Vec<String> = Vec::new();
    let mut current = String::new();
    let mut open = false;
    let mut cur_bytes: usize = 0;
    let mut k: usize = 0;
    proof {
        assert(ls.take(0) =~= Seq::<Seq<char>>::empty());
        assert(views(done@) =~= Seq::<Seq<char>>::empty());
    }
    while k < ranges.len()
        invariant
            k <= ranges.len(),
            within(ranges@, chars@.len()),
            byte_len(chars@) <= usize::MAX,
            ls == marked(chars@, ranges@),
            chunks_of(done@, current@, open) == pack(ls.take(k as int)).0,
            open == pack(ls.take(k as int)).1,
            open ==> cur_bytes == byte_len(current@) && cur_bytes <= MESSAGE_LIMIT,
        decreases ranges.len() - k,
    {
        let from = ranges[k].0;
        let to = ranges[k].1;
        let ghost line = chars@.subrange(from as int, to as int);
        let ghost before = pack(ls.take(k as int));
        let ghost old_done = done@;
        let ghost old_current = current@;
        proof {
            assert(ls.take(k + 1).drop_last() =~= ls.take(k as int));
            assert(ls.take(k + 1).last() == line);
            assert(pack(ls.take(k + 1)) == pack_step(before.0, before.1, line));
            lemma_part_bytes(chars@, from as int, to as int);
            lemma_line_feed_bytes();
        }
        let line_bytes = range_bytes(chars, from, to);
        if line_bytes > MESSAGE_LIMIT {
            if open {
                done.push(current);
                proof {
                    lemma_views_push(old_done, current);
                }
                current = String::new();
            }
            hard_split_into(&mut done, chars, from, to);
            open = false;
        } else if open && cur_bytes + 1 + line_bytes <= MESSAGE_LIMIT {
            current.push('\n');
            push_chars(&mut current, chars, from, to);
            proof {
                assert(before.0.last() == old_current);
                assert(before.0.drop_last() =~= views(old_done));
                assert(current@ =~= old_current + seq!['\n'] + line);
                lemma_byte_len_concat(old_current, seq!['\n']);
                lemma_byte_len_concat(old_current + seq!['\n'], line);
            }
            cur_bytes = cur_bytes + 1 + line_bytes;
        } else {
            if open {
                done.push(current);
                proof {
                    lemma_views_push(old_done, current);
                }
            }
            current = string_of(chars, from, to);
            cur_bytes = line_bytes;
            open = true;
        }
        k = k + 1;
    }
    assert(ls.take(ranges.len() as int) =~= ls);
    if open {
        let ghost old_done = done@;
        done.push(current);
        proof {
            lemma_views_push(old_done, current);
        }
    }
    done
}

/// Splits a text into the chunks that are posted for it, in their order.
pub fn split_msg<'a>(msg: &'a str) -> (out: Vec<Cow<'a, str>>)
    ensures
        out@.len() == split(msg@).len(),
        forall|i: int| 0 <= i < out@.len() ==> (#[trigger] out@[i])@ == split(msg@)[i],
        byte_len(msg@) <= MESSAGE_LIMIT ==> out@.len() == 1 && out@[0]@ == msg@,
{
    let bytes = msg.as_bytes();
    if bytes.len() <= MESSAGE_LIMIT {
        let mut out: Vec<Cow<'a, str>> = Vec::new();
        out.push(Cow::Borrowed(msg));
        return out;
    }
    let chars = chars_of(msg);
    let ranges = split_lines(&chars);
    let raw = pack_lines(&chars, &ranges);
    let ghost packed = pack(lines(msg@)).0;
    let mut out: Vec<Cow<'a, str>> = Vec::new();
    let mut i: usize = 0;
    while i < raw.len()
        invariant
            i <= raw.len(),
            views(raw@) == packed,
            out@.len() == i,
            forall|k: int| 0 <= k < i ==> (#[trigger] out@[k])@ == filled(packed[k]),
        decreases raw.len() - i,
    {
        assert(views(raw@)[i as int] == raw@[i as int]@);
        if str_is_blank(raw[i].as_str()) {
            proof {
                reveal_strlit(".");
                assert("."@ =~= seq!['.']);
            }
            out.push(Cow::Owned(String::from_str(".")));
        } else {
            out.push(Cow::Owned(raw[i].clone()));
        }
        i = i + 1;
    }
    out
}

proof fn lemma_piece_fits(s: Seq<char>, budget: nat)
    ensures
        piece_end(s, budget) <= s.len(),
        byte_len(s.take(piece_end(s, budget) as int)) <= budget,
        s.len() > 0 && budget >= 4 ==> piece_end(s, budget) >= 1,
    decreases s.len(),
{
    if s.len() == 0 || byte_len(seq![s[0]]) > budget {
        assert(s.take(0) =~= Seq::<char>::empty());
        if s.len() > 0 {
            lemma_byte_len_one(s[0]);
        }
    } else {
        let w = byte_len(seq![s[0]]);
        let rest = s.drop_first();
        lemma_piece_fits(rest, (budget - w) as nat);
        let n = piece_end(rest, (budget - w) as nat);
        assert(s.take(1 + n as int) =~= seq![s[0]] + rest.take(n as int));
        lemma_byte_len_concat(seq![s[0]], rest.take(n as int));
    }
}

proof fn lemma_hard_split_fits(s: Seq<char>)
    ensures
        forall|i: int|
            0 <= i < hard_split(s).len() ==> byte_len(#[trigger] hard_split(s)[i]) <= MESSAGE_LIMIT,
    decreases s.len(),
{
    if s.len() > 0 {
        lemma_piece_fits(s, MESSAGE_LIMIT as nat);
        let n = piece_len(s);
        lemma_hard_split_fits(s.skip(n as int));
        let tail = hard_split(s.skip(n as int));
        assert forall|i: int| 0 <= i < hard_split(s).len() implies byte_len(
            #[trigger] hard_split(s)[i],
        ) <= MESSAGE_LIMIT by {
            if i > 0 {
                assert(hard_split(s)[i] == tail[i - 1]);
            }
        }
    }
}

proof fn lemma_pack_fits(ls: Seq<Seq<char>>)
    ensures
        forall|i: int|
            0 <= i < pack(ls).0.len() ==> byte_len(#[trigger] pack(ls).0[i]) <= MESSAGE_LIMIT,
    decreases ls.len(),
{
    if ls.len() > 0 {
        let before = pack(ls.drop_last());
        let line = ls.last();
        lemma_pack_fits(ls.drop_last());
        lemma_hard_split_fits(line);
        lemma_line_feed_bytes();
        let after = pack(ls).0;
        assert forall|i: int| 0 <= i < after.len() implies byte_len(#[trigger] after[i])
            <= MESSAGE_LIMIT by {
            if byte_len(line) > MESSAGE_LIMIT {
                if i < before.0.len() {
                    assert(after[i] == before.0[i]);
                } else {
                    assert(after[i] == hard_split(line)[i - before.0.len()]);
                }
            } else if before.1 && before.0.len() > 0 && byte_len(before.0.last()) + 1 + byte_len(
                line,
            ) <= MESSAGE_LIMIT {
                if i < before.0.len() - 1 {
                    assert(after[i] == before.0[i]);
                } else {
                    lemma_byte_len_concat(before.0.last(), seq!['\n']);
                    lemma_byte_len_concat(before.0.last() + seq!['\n'], line);
                }
            } else {
                if i < before.0.len() {
                    assert(after[i] == before.0[i]);
                }
            }
        }
    }
}

/// A text within the limit is its own and only chunk.
pub proof fn lemma_short_text_is_one_chunk(msg: Seq<char>)
    requires
        byte_len(msg) <= MESSAGE_LIMIT,
    ensures
        split(msg) == seq![msg],
{
}

/// Every chunk is within the limit and holds more than white space. The one text
/// that this is not said of is a blank text within the limit: it is its own chunk.
pub proof fn lemma_chunks_fit(msg: Seq<char>)
    requires
        byte_len(msg) > MESSAGE_LIMIT || !is_blank(msg),
    ensures
        forall|i: int|
            0 <= i < split(msg).len() ==> byte_len(#[trigger] split(msg)[i]) <= MESSAGE_LIMIT
                && !is_blank(split(msg)[i]),
{
    if byte_len(msg) > MESSAGE_LIMIT {
        let raw = pack(lines(msg)).0;
        lemma_pack_fits(lines(msg));
        lemma_line_feed_bytes();
        assert forall|i: int| 0 <= i < split(msg).len() implies byte_len(#[trigger] split(msg)[i])
            <= MESSAGE_LIMIT && !is_blank(split(msg)[i]) by {
            assert(split(msg)[i] == filled(raw[i]));
            if is_blank(raw[i]) {
                assert(seq!['.'][0] == '.');
                assert(!is_whitespace('.'));
            }
        }
    }
}

proof fn lemma_pack_joined(ls: Seq<Seq<char>>)
    requires
        forall|i: int| 0 <= i < ls.len() ==> byte_len(#[trigger] ls[i]) <= MESSAGE_LIMIT,
    ensures
        joined(pack(ls).0) == joined(ls),
        pack(ls).1 == (ls.len() > 0),
        (pack(ls).0.len() == 0) == (ls.len() == 0),
    decreases ls.len(),
{
    if ls.len() > 0 {
        let init = ls.drop_last();
        let line = ls.last();
        let before = pack(init);
        let c = before.0;
        lemma_pack_joined(init);
        let after = pack(ls).0;
        if before.1 && c.len() > 0 && byte_len(c.last()) + 1 + byte_len(line) <= MESSAGE_LIMIT {
            assert(after == c.drop_last().push(c.last() + seq!['\n'] + line));
            if c.len() == 1 {
                assert(after.len() == 1);
                assert(joined(after) == c.last() + seq!['\n'] + line);
            } else {
                assert(after.drop_last() =~= c.drop_last());
                assert(joined(after) == joined(c.drop_last()) + seq!['\n'] + after.last());
                assert(joined(c) == joined(c.drop_last()) + seq!['\n'] + c.last());
                assert(joined(c.drop_last()) + seq!['\n'] + (c.last() + seq!['\n'] + line)
                    =~= (joined(c.drop_last()) + seq!['\n'] + c.last()) + seq!['\n'] + line);
            }
        } else {
            assert(after == c.push(line));
            assert(after.drop_last() =~= c);
        }
    }
}

/// Joining the chunks with line feeds gives the text back. This is said of a text
/// over the limit where no line is over the limit, the lines joined with line
/// feeds are the text (it has no carriage return before a line feed and no line
/// ending at its end), and no chunk came out blank.
pub proof fn lemma_rejoin(msg: Seq<char>)
    requires
        byte_len(msg) > MESSAGE_LIMIT ==> {
            &&& forall|i: int|
                0 <= i < lines(msg).len() ==> byte_len(#[trigger] lines(msg)[i]) <= MESSAGE_LIMIT
            &&& joined(lines(msg)) == msg
            &&& forall|i: int|
                0 <= i < pack(lines(msg)).0.len() ==> !is_blank(#[trigger] pack(lines(msg)).0[i])
        },
    ensures
        joined(split(msg)) == msg,
{
    if byte_len(msg) > MESSAGE_LIMIT {
        lemma_pack_joined(lines(msg));
        assert(split(msg) =~= pack(lines(msg)).0);
    }
}

proof fn lemma_first_newline(s: Seq<char>)
    ensures
        first_newline(s) <= s.len(),
        first_newline(s) < s.len() ==> s[first_newline(s) as int] == '\n',
    decreases s.len(),
{
    if s.len() > 0 && s[0] != '\n' {
        lemma_first_newline(s.drop_first());
    }
}

proof fn lemma_joined_front(a: Seq<char>, rest: Seq<Seq<char>>)
    ensures
        joined(seq![a] + rest) == if rest.len() == 0 {
            a
        } else {
            a + seq!['\n'] + joined(rest)
        },
    decreases rest.len(),
{
    let whole = seq![a] + rest;
    if rest.len() == 0 {
        assert(whole =~= seq![a]);
    } else {
        lemma_joined_front(a, rest.drop_last());
        assert(whole.drop_last() =~= seq![a] + rest.drop_last());
        assert(whole.last() == rest.last());
        if rest.len() == 1 {
            assert(joined(rest) == rest[0]);
        } else {
            assert(a + seq!['\n'] + joined(rest.drop_last()) + seq!['\n'] + rest.last() =~= a + seq![
                '\n',
            ] + (joined(rest.drop_last()) + seq!['\n'] + rest.last()));
        }
    }
}

/// The lines of a text that holds no carriage return and does not end with a line
/// feed, joined with line feeds, are the text.
pub proof fn lemma_plain_lines_join(s: Seq<char>)
    requires
        forall|i: int| 0 <= i < s.len() ==> s[i] != '\r',
        s.len() > 0 ==> s.last() != '\n',
    ensures
        joined(lines(s)) == s,
    decreases s.len(),
{
    if s.len() > 0 {
        lemma_first_newline(s);
        let i = first_newline(s) as int;
        if i < s.len() {
            let head = s.take(i);
            let tail = s.skip(i + 1);
            if i > 0 {
                assert(head.last() == s[i - 1]);
            }
            assert(strip_cr(head) == head);
            assert(tail.len() > 0);
            assert(tail.last() == s.last());
            assert forall|k: int| 0 <= k < tail.len() implies tail[k] != '\r' by {
                assert(tail[k] == s[i + 1 + k]);
            }
            lemma_plain_lines_join(tail);
            lemma_joined_front(head, lines(tail));
            assert(lines(tail).len() > 0);
            assert(head + seq!['\n'] + tail =~= s);
        }
    }
}

} // verus!
