//! Time-stamped lyrics: reading the line-tagged text into a timeline, and finding the
//! line that is sung at a given moment.

use crate::text::{
    chars_of, decimal, find_char, first_index, lemma_trim_len, parse_decimal, string_of, trim,
    trimmed,
};
use vstd::prelude::*;
use vstd::slice::slice_subrange;

verus! {

/// What a lyric line says: when it starts, in milliseconds, and its text.
pub struct Cue {
    pub offset_ms: nat,
    pub text: Seq<char>,
}

/// One line of lyrics with the moment at which it starts.
#[derive(Debug)]
pub struct LyricLine {
    time_ms: u64,
    text: String,
}

impl View for LyricLine {
    type V = Cue;

    closed spec fn view(&self) -> Cue {
        Cue { offset_ms: self.time_ms as nat, text: self.text@ }
    }
}

impl Clone for LyricLine {
    fn clone(&self) -> (copy: Self)
        ensures
            copy@ == self@,
    {
        LyricLine { time_ms: self.time_ms, text: self.text.clone() }
    }
}

impl LyricLine {
    /// A line with the text `text` that starts `time_ms` milliseconds into the song.
    pub fn new(time_ms: u64, text: String) -> (line: LyricLine)
        ensures
            line@ == (Cue { offset_ms: time_ms as nat, text: text@ }),
    {
        LyricLine { time_ms, text }
    }

    /// The moment at which the line starts, in milliseconds.
    pub fn time_ms(&self) -> (t: u64)
        ensures
            t == self@.offset_ms,
    {
        self.time_ms
    }

    /// The words of the line.
    pub fn text(&self) -> (t: &str)
        ensures
            t@ == self@.text,
    {
        self.text.as_str()
    }
}

/// The cues of a sequence of lines.
pub open spec fn cues(lines: Seq<LyricLine>) -> Seq<Cue> {
    lines.map_values(|l: LyricLine| l@)
}

/// Whether every offset of `cues` fits in 64 bits.
pub open spec fn offsets_fit(cues: Seq<Cue>) -> bool {
    forall|i: int| 0 <= i < cues.len() ==> (#[trigger] cues[i]).offset_ms <= u64::MAX
}

/// The offsets of lines fit in 64 bits.
pub proof fn lemma_offsets_fit(lines: Seq<LyricLine>)
    ensures
        offsets_fit(cues(lines)),
{
}

/// The number that a field of a time tag spells, white space around it set aside.
pub open spec fn field_value(field: Seq<char>) -> Option<nat> {
    decimal(trim(field))
}

/// The hundredths of a time tag: 0 where the tag has no fraction or an empty one.
pub open spec fn fraction_value(field: Option<Seq<char>>) -> Option<nat> {
    match field {
        None => Some(0),
        Some(f) => if trim(f).len() == 0 {
            Some(0)
        } else {
            decimal(trim(f))
        },
    }
}

/// What follows the minutes of a time tag, split into seconds and fraction: at the
/// first `.`, else at the first `:`, else not at all.
pub open spec fn split_seconds(part: Seq<char>) -> (Seq<char>, Option<Seq<char>>) {
    let dot = first_index(part, '.') as int;
    let colon = first_index(part, ':') as int;
    if dot < part.len() {
        (part.take(dot), Some(part.skip(dot + 1)))
    } else if colon < part.len() {
        (part.take(colon), Some(part.skip(colon + 1)))
    } else {
        (part, None)
    }
}

/// Milliseconds of `minutes` minutes, `seconds` seconds and `centis` hundredths.
pub open spec fn offset_of(minutes: nat, seconds: nat, centis: nat) -> nat {
    minutes * 60_000 + seconds * 1_000 + centis * 10
}

/// The offset that a tag `minutes:seconds`, `minutes:seconds.fraction` or
/// `minutes:seconds:fraction` stands for. `None` where the tag has no `:`, where a
/// field is no decimal number, or where the offset does not fit in 64 bits: such a
/// tag is no time stamp.
pub open spec fn time_tag(tag: Seq<char>) -> Option<u64> {
    let colon = first_index(tag, ':') as int;
    if colon >= tag.len() {
        None
    } else {
        let (seconds, fraction) = split_seconds(tag.skip(colon + 1));
        match (field_value(tag.take(colon)), field_value(seconds), fraction_value(fraction)) {
            (Some(m), Some(s), Some(c)) => if offset_of(m, s, c) <= u64::MAX {
                Some(offset_of(m, s, c) as u64)
            } else {
                None
            },
            _ => None,
        }
    }
}

/// The number in a field of a time tag, where it fits in 64 bits.
fn parse_field(field: &[char]) -> (r: Option<u64>)
    ensures
        match r {
            Some(v) => field_value(field@) == Some(v as nat),
            None => field_value(field@) is None || field_value(field@).unwrap() > u64::MAX,
        },
{
    parse_decimal(trimmed(field))
}

/// The hundredths in the fraction of a time tag, where they fit in 64 bits.
fn parse_fraction(field: Option<&[char]>) -> (r: Option<u64>)
    ensures
        match r {
            Some(v) => fraction_value(seq_of(field)) == Some(v as nat),
            None => fraction_value(seq_of(field)) is None || fraction_value(
                seq_of(field),
            ).unwrap() > u64::MAX,
        },
{
    match field {
        None => Some(0),
        Some(f) => {
            let t = trimmed(f);
            if t.len() == 0 {
                Some(0)
            } else {
                parse_decimal(t)
            }
        },
    }
}

/// The characters of an optional slice.
pub open spec fn seq_of(field: Option<&[char]>) -> Option<Seq<char>> {
    match field {
        None => None,
        Some(f) => Some(f@),
    }
}

/// Splits what follows the minutes of a time tag into seconds and fraction.
fn seconds_and_fraction(part: &[char]) -> (r: (&[char], Option<&[char]>))
    ensures
        (r.0@, seq_of(r.1)) == split_seconds(part@),
{
    let n: usize = part.len();
    let dot: usize = find_char(part, '.');
    if dot < n {
        assert(part@.subrange(dot + 1, n as int) == part@.skip(dot + 1));
        return (slice_subrange(part, 0, dot), Some(slice_subrange(part, dot + 1, n)));
    }
    let colon: usize = find_char(part, ':');
    if colon < n {
        assert(part@.subrange(colon + 1, n as int) == part@.skip(colon + 1));
        return (slice_subrange(part, 0, colon), Some(slice_subrange(part, colon + 1, n)));
    }
    assert(part@.subrange(0, n as int) == part@);
    (slice_subrange(part, 0, n), None)
}

/// The offset that the characters of a tag stand for.
pub fn time_of_tag(tag: &[char]) -> (r: Option<u64>)
    ensures
        r == time_tag(tag@),
{
    let n: usize = tag.len();
    let colon: usize = find_char(tag, ':');
    if colon >= n {
        return None;
    }
    assert(tag@.subrange(colon + 1, n as int) == tag@.skip(colon + 1));
    let (seconds_field, fraction_field) = seconds_and_fraction(slice_subrange(tag, colon + 1, n));
    let minutes: u64 = match parse_field(slice_subrange(tag, 0, colon)) {
        Some(v) => v,
        None => {
            return None;
        },
    };
    let seconds: u64 = match parse_field(seconds_field) {
        Some(v) => v,
        None => {
            return None;
        },
    };
    let centis: u64 = match parse_fraction(fraction_field) {
        Some(v) => v,
        None => {
            return None;
        },
    };
    let from_minutes: u64 = match minutes.checked_mul(60_000) {
        Some(v) => v,
        None => {
            return None;
        },
    };
    let from_seconds: u64 = match seconds.checked_mul(1_000) {
        Some(v) => v,
        None => {
            return None;
        },
    };
    let from_centis: u64 = match centis.checked_mul(10) {
        Some(v) => v,
        None => {
            return None;
        },
    };
    let whole: u64 = match from_minutes.checked_add(from_seconds) {
        Some(v) => v,
        None => {
            return None;
        },
    };
    whole.checked_add(from_centis)
}

/// The offset that a tag stands for, the brackets around it left out: `01:05.04` is
/// 65040 milliseconds.
pub fn parse_time_tag(tag: &str) -> (r: Option<u64>)
    ensures
        r == time_tag(tag@),
{
    let chars = chars_of(tag);
    time_of_tag(chars.as_slice())
}

/// The cue of a trimmed line. Bracketed tags are taken off its start, one by one, up
/// to the first that is a time stamp: the text is what follows that tag, trimmed.
/// Tags before it are dropped. `None` where no time stamp is met before the line
/// stops starting with `[`, or where a `[` has no `]` after it.
pub open spec fn tagged_line(rest: Seq<char>) -> Option<Cue>
    decreases rest.len(),
    via tagged_line_shrinks
{
    let close = first_index(rest, ']') as int;
    if rest.len() == 0 || rest[0] != '[' || close >= rest.len() {
        None
    } else {
        let after = trim(rest.skip(close + 1));
        match time_tag(rest.subrange(1, close)) {
            Some(ms) => Some(Cue { offset_ms: ms as nat, text: after }),
            None => tagged_line(after),
        }
    }
}

#[via_fn]
proof fn tagged_line_shrinks(rest: Seq<char>) {
    let close = first_index(rest, ']') as int;
    if !(rest.len() == 0 || rest[0] != '[' || close >= rest.len()) {
        lemma_trim_len(rest.skip(close + 1));
    }
}

/// The cue that one line of the text contributes, if any.
pub open spec fn line_cue(line: Seq<char>) -> Option<Cue> {
    tagged_line(trim(line))
}

/// Whether a cue is kept: one without text is dropped where `strip_empty_lines` is set.
pub open spec fn kept(cue: Cue, strip_empty_lines: bool) -> bool {
    !(strip_empty_lines && cue.text.len() == 0)
}

/// The cues that one line of the text contributes: one or none.
pub open spec fn line_cues(line: Seq<char>, strip_empty_lines: bool) -> Seq<Cue> {
    match line_cue(line) {
        Some(cue) => if kept(cue, strip_empty_lines) {
            seq![cue]
        } else {
            Seq::empty()
        },
        None => Seq::empty(),
    }
}

/// The cues of `content`, line by line, in the order in which they are met. Lines end
/// at `\n`.
pub open spec fn collected_cues(content: Seq<char>, strip_empty_lines: bool) -> Seq<Cue>
    decreases content.len(),
{
    let end = first_index(content, '\n') as int;
    let head = line_cues(content.take(end), strip_empty_lines);
    if end < content.len() {
        head + collected_cues(content.skip(end + 1), strip_empty_lines)
    } else {
        head
    }
}

/// The offset and the text of a line, where it has a time stamp.
fn timed_text(line: &[char]) -> (r: Option<(u64, &[char])>)
    ensures
        match r {
            Some((ms, text)) => line_cue(line@) == Some(
                Cue { offset_ms: ms as nat, text: text@ },
            ),
            None => line_cue(line@) is None,
        },
{
    let mut rest: &[char] = trimmed(line);
    loop
        invariant
            tagged_line(rest@) == line_cue(line@),
        decreases rest@.len(),
    {
        let n: usize = rest.len();
        if n == 0 || rest[0] != '[' {
            return None;
        }
        let close: usize = find_char(rest, ']');
        if close >= n {
            return None;
        }
        proof {
            assert(rest@.subrange(close + 1, n as int) == rest@.skip(close + 1));
            lemma_trim_len(rest@.skip(close + 1));
        }
        let after: &[char] = trimmed(slice_subrange(rest, close + 1, n));
        match time_of_tag(slice_subrange(rest, 1, close)) {
            Some(ms) => {
                return Some((ms, after));
            },
            None => {
                rest = after;
            },
        }
    }
}

/// Whether the offsets of `cues` never fall from one cue to the next.
pub open spec fn is_sorted(cues: Seq<Cue>) -> bool {
    forall|i: int, j: int| 0 <= i <= j < cues.len() ==> cues[i].offset_ms <= cues[j].offset_ms
}

/// The cues of `cues` that start at `t`, in the order in which `cues` holds them.
pub open spec fn with_offset(cues: Seq<Cue>, t: nat) -> Seq<Cue> {
    cues.filter(|c: Cue| c.offset_ms == t)
}

/// Whether `sorted` is `source` put in ascending order of offset, cues of one offset
/// staying in the order that they have in `source`.
pub open spec fn is_stable_sort_of(sorted: Seq<Cue>, source: Seq<Cue>) -> bool {
    &&& is_sorted(sorted)
    &&& forall|t: nat| #[trigger] with_offset(sorted, t) == with_offset(source, t)
}

/// No cue of `cues` starts at `t` where none has that offset.
pub proof fn lemma_with_offset_none(cues: Seq<Cue>, t: nat)
    requires
        forall|i: int| 0 <= i < cues.len() ==> (#[trigger] cues[i]).offset_ms != t,
    ensures
        with_offset(cues, t) == Seq::<Cue>::empty(),
    decreases cues.len(),
{
    reveal(Seq::filter);
    if cues.len() > 0 {
        let front = cues.drop_last();
        assert forall|i: int| 0 <= i < front.len() implies (#[trigger] front[i]).offset_ms
            != t by {
            assert(front[i] == cues[i]);
        }
        lemma_with_offset_none(front, t);
    }
}

/// The cues at `t` of a sequence with a cue put in front of it.
pub proof fn lemma_with_offset_first(x: Cue, cues: Seq<Cue>, t: nat)
    ensures
        with_offset(seq![x] + cues, t) == if x.offset_ms == t {
            seq![x] + with_offset(cues, t)
        } else {
            with_offset(cues, t)
        },
{
    reveal_with_fuel(Seq::filter, 2);
    let pred = |c: Cue| c.offset_ms == t;
    Seq::filter_distributes_over_add(seq![x], cues, pred);
    assert(seq![x].drop_last() == Seq::<Cue>::empty());
    assert(seq![x].last() == x);
    if x.offset_ms == t {
        assert(seq![x].filter(pred) == seq![x]);
    } else {
        assert(seq![x].filter(pred) == Seq::<Cue>::empty());
        assert(Seq::<Cue>::empty() + with_offset(cues, t) == with_offset(cues, t));
    }
}

/// The cues at `t` after a cue is put behind all cues that start before it.
proof fn lemma_with_offset_insert(cues: Seq<Cue>, at: int, x: Cue, t: nat)
    requires
        0 <= at <= cues.len(),
        forall|i: int| 0 <= i < at ==> (#[trigger] cues[i]).offset_ms < x.offset_ms,
    ensures
        with_offset(cues.insert(at, x), t) == if x.offset_ms == t {
            seq![x] + with_offset(cues, t)
        } else {
            with_offset(cues, t)
        },
{
    let pred = |c: Cue| c.offset_ms == t;
    let front = cues.take(at);
    let back = cues.skip(at);
    assert(cues == front + back);
    assert(cues.insert(at, x) == front + (seq![x] + back));
    Seq::filter_distributes_over_add(front, back, pred);
    Seq::filter_distributes_over_add(front, seq![x] + back, pred);
    lemma_with_offset_first(x, back, t);
    if x.offset_ms == t {
        lemma_with_offset_none(front, t);
        assert(Seq::<Cue>::empty() + with_offset(back, t) == with_offset(back, t));
        assert(Seq::<Cue>::empty() + (seq![x] + with_offset(back, t)) == seq![x] + with_offset(
            back,
            t,
        ));
    }
}

/// The first position of `sorted` whose line starts at `time_ms` or later.
fn insertion_point(sorted: &Vec<LyricLine>, time_ms: u64) -> (at: usize)
    ensures
        at <= sorted@.len(),
        forall|k: int| 0 <= k < at ==> (#[trigger] sorted@[k])@.offset_ms < time_ms,
        at < sorted@.len() ==> sorted@[at as int]@.offset_ms >= time_ms,
{
    let n: usize = sorted.len();
    let mut at: usize = 0;
    while at < n && sorted[at].time_ms < time_ms
        invariant
            n == sorted@.len(),
            at <= n,
            forall|k: int| 0 <= k < at ==> (#[trigger] sorted@[k])@.offset_ms < time_ms,
        decreases n - at,
    {
        at += 1;
    }
    at
}

/// Puts `lines` in ascending order of offset; lines of one offset keep their order.
pub fn sort_lines(lines: Vec<LyricLine>) -> (sorted: Vec<LyricLine>)
    ensures
        is_stable_sort_of(cues(sorted@), cues(lines@)),
{
    let ghost source = cues(lines@);
    let mut rest: Vec<LyricLine> = lines;
    let mut sorted: Vec<LyricLine> = Vec::new();
    assert(source.skip(source.len() as int) == Seq::<Cue>::empty());
    assert(cues(sorted@) == Seq::<Cue>::empty());
    while rest.len() > 0
        invariant
            rest@.len() <= source.len(),
            cues(rest@) == source.take(rest@.len() as int),
            is_sorted(cues(sorted@)),
            forall|t: nat| #[trigger]
                with_offset(cues(sorted@), t) == with_offset(source.skip(rest@.len() as int), t),
        decreases rest@.len(),
    {
        let ghost before = cues(sorted@);
        let ghost k = rest@.len() as int;
        let line: LyricLine = rest.pop().unwrap();
        let ghost x = line@;
        let at: usize = insertion_point(&sorted, line.time_ms);
        sorted.insert(at, line);
        proof {
            assert(x == source.take(k)[k - 1]);
            assert(cues(rest@) == source.take(k - 1));
            assert(cues(sorted@) == before.insert(at as int, x));
            assert forall|i: int| 0 <= i < at implies (#[trigger] before[i]).offset_ms
                < x.offset_ms by {}
            assert forall|i: int| at <= i < before.len() implies (#[trigger] before[i]).offset_ms
                >= x.offset_ms by {
                assert(before[at as int].offset_ms <= before[i].offset_ms);
            }
            assert(source.skip(k - 1) == seq![x] + source.skip(k));
            assert forall|t: nat| #[trigger]
                with_offset(cues(sorted@), t) == with_offset(source.skip(k - 1), t) by {
                lemma_with_offset_insert(before, at as int, x, t);
                lemma_with_offset_first(x, source.skip(k), t);
                assert(with_offset(before, t) == with_offset(source.skip(k), t));
            }
        }
    }
    assert(source.skip(0) == source);
    sorted
}

/// Reads time-stamped lyrics. Each line of `content` that starts, after tags that are
/// no time stamps, with a time stamp in square brackets gives one lyric line; every
/// other line is passed over. With `strip_empty_lines`, lines without text are left
/// out. The lines come back in ascending order of offset, lines of one offset in the
/// order of `content`.
pub fn parse_lrc(content: &str, strip_empty_lines: bool) -> (lines: Vec<LyricLine>)
    ensures
        is_stable_sort_of(cues(lines@), collected_cues(content@, strip_empty_lines)),
{
    let chars: Vec<char> = chars_of(content);
    let all: &[char] = chars.as_slice();
    let n: usize = all.len();
    let mut lines: Vec<LyricLine> = Vec::new();
    let mut pos: usize = 0;
    assert(all@.skip(0) == all@);
    assert(cues(lines@) == Seq::<Cue>::empty());
    loop
        invariant_except_break
            pos <= n,
            cues(lines@) + collected_cues(all@.skip(pos as int), strip_empty_lines)
                == collected_cues(all@, strip_empty_lines),
        invariant
            n == all@.len(),
            all@ == content@,
        ensures
            cues(lines@) == collected_cues(all@, strip_empty_lines),
        decreases n - pos,
    {
        let rest: &[char] = slice_subrange(all, pos, n);
        let end: usize = find_char(rest, '\n');
        let line: &[char] = slice_subrange(rest, 0, end);
        let ghost before = cues(lines@);
        assert(rest@ == all@.skip(pos as int));
        assert(line@ == rest@.take(end as int));
        match timed_text(line) {
            Some((ms, text)) => {
                if !(strip_empty_lines && text.len() == 0) {
                    lines.push(LyricLine::new(ms, string_of(text)));
                }
            },
            None => {},
        }
        assert(cues(lines@) == before + line_cues(line@, strip_empty_lines));
        if end >= rest.len() {
            break ;
        }
        proof {
            assert(rest@.skip(end + 1) == all@.skip(pos + end + 1));
            let tail = collected_cues(rest@.skip(end + 1), strip_empty_lines);
            assert(before + (line_cues(line@, strip_empty_lines) + tail) == (before + line_cues(
                line@,
                strip_empty_lines,
            )) + tail);
        }
        pos = pos + end + 1;
    }
    sort_lines(lines)
}

/// Where playback stands among the lines of a timeline.
#[derive(PartialEq, Eq, Debug, Clone, Copy, Structural)]
pub enum LyricPosition {
    /// Before the first line starts.
    BeforeStart,
    /// At the line with this index.
    Line(usize),
    /// At or past the start of the last line.
    AfterEnd,
}

/// How many cues at the start of `cues` have begun at `elapsed_ms`: the position of
/// the first cue that starts later, or the length where none does.
pub open spec fn begun(cues: Seq<Cue>, elapsed_ms: nat) -> nat
    decreases cues.len(),
{
    if cues.len() > 0 && cues[0].offset_ms <= elapsed_ms {
        1 + begun(cues.drop_first(), elapsed_ms)
    } else {
        0
    }
}

/// The position at `elapsed_ms`: before the start where the first cue has not begun
/// (or there is none), after the end where every cue has begun, else at the last cue
/// before the first that has not begun.
pub open spec fn position_at(cues: Seq<Cue>, elapsed_ms: nat) -> LyricPosition {
    let k = begun(cues, elapsed_ms);
    if k == 0 {
        LyricPosition::BeforeStart
    } else if k == cues.len() {
        LyricPosition::AfterEnd
    } else {
        LyricPosition::Line((k - 1) as usize)
    }
}

/// `begun` is the least position whose cue starts after `elapsed_ms`.
pub proof fn lemma_begun(cues: Seq<Cue>, elapsed_ms: nat)
    ensures
        begun(cues, elapsed_ms) <= cues.len(),
        forall|i: int| 0 <= i < begun(cues, elapsed_ms) ==> (#[trigger] cues[i]).offset_ms
            <= elapsed_ms,
        begun(cues, elapsed_ms) < cues.len() ==> cues[begun(cues, elapsed_ms) as int].offset_ms
            > elapsed_ms,
    decreases cues.len(),
{
    if cues.len() > 0 && cues[0].offset_ms <= elapsed_ms {
        let rest = cues.drop_first();
        lemma_begun(rest, elapsed_ms);
        assert forall|i: int| 0 <= i < begun(cues, elapsed_ms) implies (#[trigger] cues[i]).offset_ms
            <= elapsed_ms by {
            if i > 0 {
                assert(cues[i] == rest[i - 1]);
            }
        }
        if begun(cues, elapsed_ms) < cues.len() {
            assert(cues[begun(cues, elapsed_ms) as int] == rest[begun(rest, elapsed_ms) as int]);
        }
    }
}

/// The least position whose cue starts after `elapsed_ms`, or the length, is `begun`.
pub proof fn lemma_begun_is(cues: Seq<Cue>, elapsed_ms: nat, n: int)
    requires
        0 <= n <= cues.len(),
        forall|i: int| 0 <= i < n ==> (#[trigger] cues[i]).offset_ms <= elapsed_ms,
        n < cues.len() ==> cues[n].offset_ms > elapsed_ms,
    ensures
        begun(cues, elapsed_ms) == n,
    decreases cues.len(),
{
    if n > 0 {
        let rest = cues.drop_first();
        assert(cues[0].offset_ms <= elapsed_ms);
        assert forall|i: int| 0 <= i < n - 1 implies (#[trigger] rest[i]).offset_ms
            <= elapsed_ms by {
            assert(rest[i] == cues[i + 1]);
        }
        lemma_begun_is(rest, elapsed_ms, n - 1);
    }
}

/// Finds the line that is sung `elapsed_ms` milliseconds into the song.
pub fn find_current_index(lyrics: &[LyricLine], elapsed_ms: u64) -> (position: LyricPosition)
    ensures
        position == position_at(cues(lyrics@), elapsed_ms as nat),
        lyrics@.len() == 0 ==> position == LyricPosition::BeforeStart,
        position matches LyricPosition::Line(i) ==> i + 1 < lyrics@.len(),
{
    let n: usize = lyrics.len();
    let mut i: usize = 0;
    while i < n && lyrics[i].time_ms <= elapsed_ms
        invariant
            n == lyrics@.len(),
            i <= n,
            forall|k: int| 0 <= k < i ==> (#[trigger] cues(lyrics@)[k]).offset_ms <= elapsed_ms,
        decreases n - i,
    {
        i += 1;
    }
    proof {
        lemma_begun_is(cues(lyrics@), elapsed_ms as nat, i as int);
    }
    if i == 0 {
        LyricPosition::BeforeStart
    } else if i == n {
        LyricPosition::AfterEnd
    } else {
        LyricPosition::Line(i - 1)
    }
}

/// A timeline: the lines of a song in ascending order of offset. It does not change
/// once it is made.
#[derive(Debug)]
pub struct SongLyrics {
    synced_lyrics: Vec<LyricLine>,
}

impl View for SongLyrics {
    type V = Seq<Cue>;

    closed spec fn view(&self) -> Seq<Cue> {
        cues(self.synced_lyrics@)
    }
}

impl Clone for SongLyrics {
    fn clone(&self) -> (copy: Self)
        ensures
            copy@ == self@,
    {
        proof {
            use_type_invariant(self);
        }
        let n: usize = self.synced_lyrics.len();
        let mut lines: Vec<LyricLine> = Vec::new();
        let mut i: usize = 0;
        while i < n
            invariant
                n == self.synced_lyrics@.len(),
                i <= n,
                cues(lines@) == cues(self.synced_lyrics@).take(i as int),
            decreases n - i,
        {
            let ghost before = cues(lines@);
            let line: LyricLine = self.synced_lyrics[i].clone();
            lines.push(line);
            assert(cues(lines@) == before.push(line@));
            assert(cues(self.synced_lyrics@).take(i + 1) == before.push(line@));
            i += 1;
        }
        assert(cues(self.synced_lyrics@).take(n as int) == cues(self.synced_lyrics@));
        SongLyrics { synced_lyrics: lines }
    }
}

impl SongLyrics {
    #[verifier::type_invariant]
    spec fn in_order(self) -> bool {
        is_sorted(cues(self.synced_lyrics@))
    }

    /// The timeline of `lines`: they are put in ascending order of offset, lines of
    /// one offset keeping their order.
    pub fn new(lines: Vec<LyricLine>) -> (lyrics: SongLyrics)
        ensures
            is_stable_sort_of(lyrics@, cues(lines@)),
    {
        SongLyrics { synced_lyrics: sort_lines(lines) }
    }

    /// The timeline that `content` holds, read as `parse_lrc` reads it.
    pub fn parse(content: &str, strip_empty_lines: bool) -> (lyrics: SongLyrics)
        ensures
            is_stable_sort_of(lyrics@, collected_cues(content@, strip_empty_lines)),
    {
        SongLyrics { synced_lyrics: parse_lrc(content, strip_empty_lines) }
    }

    /// The lines, in ascending order of offset.
    pub fn synced_lyrics(&self) -> (lines: &[LyricLine])
        ensures
            cues(lines@) == self@,
            is_sorted(self@),
    {
        proof {
            use_type_invariant(self);
        }
        self.synced_lyrics.as_slice()
    }

    /// How many lines the timeline has.
    pub fn len(&self) -> (n: usize)
        ensures
            n == self@.len(),
    {
        self.synced_lyrics.len()
    }

    /// Finds the line that is sung when the last report of playback said
    /// `progress_ms` and `since_poll_ms` milliseconds have passed since: playback is
    /// taken to have run on for that long.
    pub fn position_after(&self, progress_ms: u64, since_poll_ms: u64) -> (position:
        LyricPosition)
        ensures
            position == position_at(self@, (progress_ms + since_poll_ms) as nat),
    {
        let elapsed_ms: u64 = progress_ms.saturating_add(since_poll_ms);
        proof {
            lemma_offsets_fit(self.synced_lyrics@);
            lemma_begun(self@, elapsed_ms as nat);
            lemma_begun_is(
                self@,
                (progress_ms + since_poll_ms) as nat,
                begun(self@, elapsed_ms as nat) as int,
            );
        }
        self.find_current_index(elapsed_ms)
    }

    /// Finds the line that is sung `elapsed_ms` milliseconds into the song: none
    /// before the first line begins, none from the moment the last line begins, and
    /// in between the one line that has begun while the next has not.
    pub fn find_current_index(&self, elapsed_ms: u64) -> (position: LyricPosition)
        ensures
            is_sorted(self@),
            position == position_at(self@, elapsed_ms as nat),
            self@.len() == 0 ==> position == LyricPosition::BeforeStart,
    {
        proof {
            use_type_invariant(self);
        }
        find_current_index(self.synced_lyrics.as_slice(), elapsed_ms)
    }
}

} // verus!
