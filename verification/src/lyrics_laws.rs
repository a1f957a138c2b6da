//! What holds of every timeline that the parser gives, and of every position in one.

use crate::lyrics_parser::{
    begun, collected_cues, is_sorted, is_stable_sort_of, lemma_begun, lemma_with_offset_first,
    lemma_with_offset_none, line_cue, line_cues, offset_of, position_at, time_tag, with_offset,
    Cue, LyricPosition,
};
use crate::text::{
    all_digits, decimal, digits_value, first_index, is_digit, is_space, leading_spaces,
    lemma_first_index_is, lemma_leading_spaces, lemma_leading_spaces_is, lemma_trailing_spaces,
    lemma_trailing_spaces_is, trailing_spaces, trim,
};
use vstd::prelude::*;

verus! {

/// The cues of `cues` that have text, in the order in which `cues` holds them.
pub open spec fn with_text(cues: Seq<Cue>) -> Seq<Cue> {
    cues.filter(|c: Cue| c.text.len() > 0)
}

/// A sequence that holds a cue at `t` has a first cue at `t`.
proof fn lemma_with_offset_some(cues: Seq<Cue>, t: nat)
    requires
        with_offset(cues, t).len() > 0,
    ensures
        exists|i: int| 0 <= i < cues.len() && (#[trigger] cues[i]).offset_ms == t,
{
    if forall|i: int| 0 <= i < cues.len() ==> (#[trigger] cues[i]).offset_ms != t {
        lemma_with_offset_none(cues, t);
    }
}

/// Two sorted sequences that hold, for each offset, the same cues in the same order
/// are one sequence.
proof fn lemma_sorted_same_groups(a: Seq<Cue>, b: Seq<Cue>)
    requires
        is_sorted(a),
        is_sorted(b),
        forall|t: nat| #[trigger] with_offset(a, t) == with_offset(b, t),
    ensures
        a == b,
    decreases a.len(),
{
    if a.len() == 0 {
        if b.len() > 0 {
            let t = b[0].offset_ms;
            assert(b == seq![b[0]] + b.drop_first());
            lemma_with_offset_first(b[0], b.drop_first(), t);
            lemma_with_offset_none(a, t);
            assert(with_offset(a, t) == with_offset(b, t));
        }
    } else {
        let x = a[0];
        let rest_a = a.drop_first();
        assert(a == seq![x] + rest_a);
        lemma_with_offset_first(x, rest_a, x.offset_ms);
        assert(with_offset(a, x.offset_ms) == with_offset(b, x.offset_ms));
        lemma_with_offset_some(b, x.offset_ms);
        let y = b[0];
        let rest_b = b.drop_first();
        assert(b == seq![y] + rest_b);
        lemma_with_offset_first(y, rest_b, y.offset_ms);
        assert(with_offset(a, y.offset_ms) == with_offset(b, y.offset_ms));
        lemma_with_offset_some(a, y.offset_ms);
        assert(x.offset_ms == y.offset_ms);
        assert(with_offset(a, x.offset_ms)[0] == x);
        assert(with_offset(b, x.offset_ms)[0] == y);
        assert(x == y);
        assert forall|t: nat| #[trigger] with_offset(rest_a, t) == with_offset(rest_b, t) by {
            lemma_with_offset_first(x, rest_a, t);
            lemma_with_offset_first(y, rest_b, t);
            assert(with_offset(a, t) == with_offset(b, t));
            if x.offset_ms == t {
                assert((seq![x] + with_offset(rest_a, t)).drop_first() == with_offset(rest_a, t));
                assert((seq![x] + with_offset(rest_b, t)).drop_first() == with_offset(rest_b, t));
            }
        }
        assert(is_sorted(rest_a)) by {
            assert forall|i: int, j: int| 0 <= i <= j < rest_a.len() implies rest_a[i].offset_ms
                <= rest_a[j].offset_ms by {
                assert(rest_a[i] == a[i + 1] && rest_a[j] == a[j + 1]);
            }
        }
        assert(is_sorted(rest_b)) by {
            assert forall|i: int, j: int| 0 <= i <= j < rest_b.len() implies rest_b[i].offset_ms
                <= rest_b[j].offset_ms by {
                assert(rest_b[i] == b[i + 1] && rest_b[j] == b[j + 1]);
            }
        }
        lemma_sorted_same_groups(rest_a, rest_b);
    }
}

/// A sequence has one stable sort by offset and no other: the contract of the parser
/// leaves nothing open.
pub proof fn lemma_stable_sort_unique(a: Seq<Cue>, b: Seq<Cue>, source: Seq<Cue>)
    requires
        is_stable_sort_of(a, source),
        is_stable_sort_of(b, source),
    ensures
        a == b,
{
    assert forall|t: nat| #[trigger] with_offset(a, t) == with_offset(b, t) by {
        assert(with_offset(a, t) == with_offset(source, t));
        assert(with_offset(b, t) == with_offset(source, t));
    }
    lemma_sorted_same_groups(a, b);
}

/// What a filter keeps of a sequence with one more cue at its end.
proof fn lemma_filter_push(cues: Seq<Cue>, x: Cue, pred: spec_fn(Cue) -> bool)
    ensures
        cues.push(x).filter(pred) == if pred(x) {
            cues.filter(pred).push(x)
        } else {
            cues.filter(pred)
        },
{
    reveal(Seq::filter);
    assert(cues.push(x).drop_last() == cues);
}

/// Filtering by one condition and then by another keeps what the other order keeps.
proof fn lemma_filter_commutes(cues: Seq<Cue>, p: spec_fn(Cue) -> bool, q: spec_fn(Cue) -> bool)
    ensures
        cues.filter(p).filter(q) == cues.filter(q).filter(p),
    decreases cues.len(),
{
    reveal(Seq::filter);
    if cues.len() > 0 {
        let front = cues.drop_last();
        let x = cues.last();
        assert(cues == front.push(x));
        lemma_filter_commutes(front, p, q);
        lemma_filter_push(front, x, p);
        lemma_filter_push(front, x, q);
        lemma_filter_push(front.filter(p), x, q);
        lemma_filter_push(front.filter(q), x, p);
    }
}

/// A filter keeps no cue that starts later than every cue of the sequence may.
proof fn lemma_filter_bounded(cues: Seq<Cue>, pred: spec_fn(Cue) -> bool, bound: nat)
    requires
        forall|i: int| 0 <= i < cues.len() ==> (#[trigger] cues[i]).offset_ms <= bound,
    ensures
        forall|i: int|
            0 <= i < cues.filter(pred).len() ==> (#[trigger] cues.filter(pred)[i]).offset_ms
                <= bound,
    decreases cues.len(),
{
    reveal(Seq::filter);
    if cues.len() > 0 {
        let front = cues.drop_last();
        assert forall|i: int| 0 <= i < front.len() implies (#[trigger] front[i]).offset_ms
            <= bound by {
            assert(front[i] == cues[i]);
        }
        lemma_filter_bounded(front, pred, bound);
        let kept = cues.filter(pred);
        assert forall|i: int| 0 <= i < kept.len() implies (#[trigger] kept[i]).offset_ms
            <= bound by {
            if i < front.filter(pred).len() {
                assert(kept[i] == front.filter(pred)[i]);
            } else {
                assert(kept[i] == cues.last());
            }
        }
    }
}

/// What a filter keeps of a sorted sequence is sorted.
proof fn lemma_filter_sorted(cues: Seq<Cue>, pred: spec_fn(Cue) -> bool)
    requires
        is_sorted(cues),
    ensures
        is_sorted(cues.filter(pred)),
    decreases cues.len(),
{
    reveal(Seq::filter);
    if cues.len() > 0 {
        let front = cues.drop_last();
        let x = cues.last();
        assert(is_sorted(front)) by {
            assert forall|i: int, j: int| 0 <= i <= j < front.len() implies front[i].offset_ms
                <= front[j].offset_ms by {
                assert(front[i] == cues[i] && front[j] == cues[j]);
            }
        }
        lemma_filter_sorted(front, pred);
        assert forall|i: int| 0 <= i < front.len() implies (#[trigger] front[i]).offset_ms
            <= x.offset_ms by {
            assert(front[i] == cues[i]);
        }
        lemma_filter_bounded(front, pred, x.offset_ms);
    }
}

/// With `strip_empty_lines`, the cues collected are those collected without it that
/// have text.
pub proof fn lemma_collected_with_text(content: Seq<char>)
    ensures
        collected_cues(content, true) == with_text(collected_cues(content, false)),
    decreases content.len(),
{
    reveal_with_fuel(Seq::filter, 2);
    let pred = |c: Cue| c.text.len() > 0;
    let end = first_index(content, '\n') as int;
    let line = content.take(end);
    let head = line_cues(line, false);
    assert(line_cues(line, true) == head.filter(pred)) by {
        if head.len() > 0 {
            assert(head.drop_last() == Seq::<Cue>::empty());
        }
    }
    if end < content.len() {
        let tail = content.skip(end + 1);
        lemma_collected_with_text(tail);
        Seq::filter_distributes_over_add(head, collected_cues(tail, false), pred);
    }
}

/// `strip_empty_lines` takes away exactly the lines without text and changes nothing
/// else: what the parser gives with it is what it gives without it, less those
/// lines, so never more lines.
pub proof fn lemma_strip_drops_lines_without_text(
    content: Seq<char>,
    all: Seq<Cue>,
    stripped: Seq<Cue>,
)
    requires
        is_stable_sort_of(all, collected_cues(content, false)),
        is_stable_sort_of(stripped, collected_cues(content, true)),
    ensures
        stripped == with_text(all),
        stripped.len() <= all.len(),
{
    let pred = |c: Cue| c.text.len() > 0;
    let source = collected_cues(content, false);
    lemma_collected_with_text(content);
    lemma_filter_sorted(all, pred);
    assert forall|t: nat| #[trigger] with_offset(with_text(all), t) == with_offset(stripped, t) by {
        let at = |c: Cue| c.offset_ms == t;
        lemma_filter_commutes(all, pred, at);
        lemma_filter_commutes(source, pred, at);
        assert(with_offset(all, t) == with_offset(source, t));
        assert(with_offset(stripped, t) == with_offset(with_text(source), t));
    }
    lemma_sorted_same_groups(with_text(all), stripped);
    all.lemma_filter_len(pred);
}

/// An empty timeline has no line to show: the position is before the start.
pub proof fn lemma_empty_timeline(elapsed_ms: nat)
    ensures
        position_at(Seq::<Cue>::empty(), elapsed_ms) == LyricPosition::BeforeStart,
{
}

/// In a timeline in ascending order the position is before the start until the
/// first line begins, after the end from the moment the last line begins, and in
/// between at the one line that has begun while the next has not.
pub proof fn lemma_position_in_sorted(cues: Seq<Cue>, elapsed_ms: nat)
    requires
        is_sorted(cues),
        0 < cues.len() <= usize::MAX,
    ensures
        elapsed_ms < cues[0].offset_ms ==> position_at(cues, elapsed_ms)
            == LyricPosition::BeforeStart,
        elapsed_ms >= cues.last().offset_ms ==> position_at(cues, elapsed_ms)
            == LyricPosition::AfterEnd,
        cues[0].offset_ms <= elapsed_ms < cues.last().offset_ms ==> exists|i: int|
            0 <= i < cues.len() - 1 && position_at(cues, elapsed_ms) == LyricPosition::Line(
                i as usize,
            ) && cues[i].offset_ms <= elapsed_ms < (#[trigger] cues[i + 1]).offset_ms,
{
    lemma_begun(cues, elapsed_ms);
    let k = begun(cues, elapsed_ms) as int;
    if elapsed_ms >= cues.last().offset_ms {
        if k < cues.len() {
            assert(cues[k].offset_ms <= cues[cues.len() - 1].offset_ms);
        }
    } else if cues[0].offset_ms <= elapsed_ms {
        assert(0 < k < cues.len());
        assert(cues[k - 1].offset_ms <= elapsed_ms);
        assert(cues[k - 1 + 1].offset_ms > elapsed_ms);
    }
}

/// A sequence of digits is its own trimmed form and spells its value.
proof fn lemma_digits_field(digits: Seq<char>)
    requires
        digits.len() > 0,
        all_digits(digits),
    ensures
        trim(digits) == digits,
        decimal(digits) == Some(digits_value(digits)),
{
    assert(is_digit(digits[0]));
    assert(is_digit(digits[digits.len() - 1]));
    lemma_leading_spaces_is(digits, 0);
    assert(digits.skip(0) == digits);
    lemma_trailing_spaces_is(digits, 0);
    assert(digits.take(digits.len() as int) == digits);
}

/// The tag `mm:ss.cc`, each field written in digits, stands for
/// `mm * 60000 + ss * 1000 + cc * 10` milliseconds, wherever that fits in 64 bits.
pub proof fn lemma_time_tag_value(minutes: Seq<char>, seconds: Seq<char>, centis: Seq<char>)
    requires
        minutes.len() > 0 && all_digits(minutes),
        seconds.len() > 0 && all_digits(seconds),
        centis.len() > 0 && all_digits(centis),
        offset_of(digits_value(minutes), digits_value(seconds), digits_value(centis)) <= u64::MAX,
    ensures
        time_tag(minutes + seq![':'] + seconds + seq!['.'] + centis) == Some(
            offset_of(digits_value(minutes), digits_value(seconds), digits_value(centis)) as u64,
        ),
{
    let tag = minutes + seq![':'] + seconds + seq!['.'] + centis;
    let part = seconds + seq!['.'] + centis;
    lemma_digits_field(minutes);
    lemma_digits_field(seconds);
    lemma_digits_field(centis);
    assert forall|i: int| 0 <= i < minutes.len() implies #[trigger] tag[i] != ':' by {
        assert(tag[i] == minutes[i]);
        assert(is_digit(minutes[i]));
    }
    assert(tag[minutes.len() as int] == ':');
    lemma_first_index_is(tag, ':', minutes.len() as int);
    assert(tag.take(minutes.len() as int) == minutes);
    assert(tag.skip(minutes.len() as int + 1) == part);
    assert forall|i: int| 0 <= i < seconds.len() implies #[trigger] part[i] != '.' by {
        assert(part[i] == seconds[i]);
        assert(is_digit(seconds[i]));
    }
    assert(part[seconds.len() as int] == '.');
    lemma_first_index_is(part, '.', seconds.len() as int);
    assert(part.take(seconds.len() as int) == seconds);
    assert(part.skip(seconds.len() as int + 1) == centis);
}

/// Trimming leaves what lies between the white space at the two ends.
proof fn lemma_trim_is(s: Seq<char>, a: int, b: int)
    requires
        0 <= a <= b <= s.len(),
        forall|i: int| 0 <= i < a ==> is_space(#[trigger] s[i]),
        forall|i: int| b <= i < s.len() ==> is_space(#[trigger] s[i]),
        a < b ==> !is_space(s[a]) && !is_space(s[b - 1]),
    ensures
        trim(s) == s.subrange(a, b),
{
    if a < b {
        lemma_leading_spaces_is(s, a);
        let rest = s.skip(a);
        assert forall|i: int| rest.len() - (s.len() - b) <= i < rest.len() implies is_space(
            #[trigger] rest[i],
        ) by {
            assert(rest[i] == s[i + a]);
        }
        assert(rest[rest.len() - (s.len() - b) - 1] == s[b - 1]);
        lemma_trailing_spaces_is(rest, s.len() - b);
        assert(rest.take(rest.len() - (s.len() - b)) == s.subrange(a, b));
    } else {
        lemma_leading_spaces_is(s, s.len() as int);
        let rest = s.skip(s.len() as int);
        lemma_trailing_spaces_is(rest, 0);
        assert(rest.take(0) == s.subrange(a, b));
    }
}

/// The ends between which the trimmed form of `s` lies.
proof fn lemma_trim_ends(s: Seq<char>) -> (ends: (int, int))
    ensures
        0 <= ends.0 <= ends.1 <= s.len(),
        forall|i: int| 0 <= i < ends.0 ==> is_space(#[trigger] s[i]),
        forall|i: int| ends.1 <= i < s.len() ==> is_space(#[trigger] s[i]),
        ends.0 < ends.1 ==> !is_space(s[ends.0]) && !is_space(s[ends.1 - 1]),
        ends.0 == ends.1 ==> ends.0 == 0,
        trim(s) == s.subrange(ends.0, ends.1),
{
    lemma_leading_spaces(s);
    lemma_trailing_spaces(s);
    let a = leading_spaces(s) as int;
    let b = s.len() - trailing_spaces(s);
    if a < s.len() {
        assert(a < b) by {
            if b <= a {
                assert(is_space(s[a]));
            }
        }
        lemma_trim_is(s, a, b);
        (a, b)
    } else {
        lemma_trim_is(s, 0, 0);
        (0, 0)
    }
}

/// A line that is a time stamp in square brackets and then some text gives the cue
/// with the offset of the time stamp and the text, trimmed.
pub proof fn lemma_stamped_line(tag: Seq<char>, text: Seq<char>)
    requires
        time_tag(tag) is Some,
        forall|i: int| 0 <= i < tag.len() ==> #[trigger] tag[i] != ']',
    ensures
        line_cue(seq!['['] + tag + seq![']'] + text) == Some(
            Cue { offset_ms: time_tag(tag).unwrap() as nat, text: trim(text) },
        ),
{
    let head = seq!['['] + tag + seq![']'];
    let line = head + text;
    let ends = lemma_trim_ends(text);
    let b = if ends.0 < ends.1 {
        head.len() + ends.1
    } else {
        head.len() as int
    };
    assert(line[0] == '[');
    assert(head[head.len() - 1] == ']');
    assert forall|i: int| b <= i < line.len() implies is_space(#[trigger] line[i]) by {
        assert(line[i] == text[i - head.len()]);
    }
    if ends.0 < ends.1 {
        assert(line[b - 1] == text[ends.1 - 1]);
    } else {
        assert(line[b - 1] == ']');
    }
    lemma_trim_is(line, 0, b);
    let rest = trim(line);
    let kept = text.take(b - head.len());
    assert(rest == head + kept);
    let close = tag.len() as int + 1;
    assert forall|i: int| 0 <= i < close implies #[trigger] rest[i] != ']' by {
        if i > 0 {
            assert(rest[i] == tag[i - 1]);
        }
    }
    assert(rest[close] == ']');
    lemma_first_index_is(rest, ']', close);
    assert(rest.subrange(1, close) == tag);
    assert(rest.skip(close + 1) == kept);
    if ends.0 < ends.1 {
        assert forall|i: int| 0 <= i < ends.0 implies is_space(#[trigger] kept[i]) by {
            assert(kept[i] == text[i]);
        }
        assert(kept[ends.0] == text[ends.0]);
        assert(kept[ends.1 - 1] == text[ends.1 - 1]);
        lemma_trim_is(kept, ends.0, ends.1);
        assert(kept.subrange(ends.0, ends.1) == text.subrange(ends.0, ends.1));
    } else {
        lemma_trim_is(kept, 0, 0);
        assert(kept.subrange(0, 0) == text.subrange(ends.0, ends.1));
    }
}

/// A text without a line end is one line.
pub proof fn lemma_one_line(line: Seq<char>, strip_empty_lines: bool)
    requires
        forall|i: int| 0 <= i < line.len() ==> #[trigger] line[i] != '\n',
    ensures
        collected_cues(line, strip_empty_lines) == line_cues(line, strip_empty_lines),
{
    lemma_first_index_is(line, '\n', line.len() as int);
    assert(line.take(line.len() as int) == line);
}

/// For every time stamp `mm:ss.cc` written in digits, the parser gives for the one
/// line `[mm:ss.cc]text` one lyric line, at `mm * 60000 + ss * 1000 + cc * 10`
/// milliseconds, unless the text is empty and such lines are stripped.
pub proof fn lemma_parse_stamped_line(
    minutes: Seq<char>,
    seconds: Seq<char>,
    centis: Seq<char>,
    text: Seq<char>,
    strip_empty_lines: bool,
    parsed: Seq<Cue>,
)
    requires
        minutes.len() > 0 && all_digits(minutes),
        seconds.len() > 0 && all_digits(seconds),
        centis.len() > 0 && all_digits(centis),
        offset_of(digits_value(minutes), digits_value(seconds), digits_value(centis)) <= u64::MAX,
        forall|i: int| 0 <= i < text.len() ==> #[trigger] text[i] != '\n',
        !(strip_empty_lines && trim(text).len() == 0),
        is_stable_sort_of(
            parsed,
            collected_cues(
                seq!['['] + (minutes + seq![':'] + seconds + seq!['.'] + centis) + seq![']'] + text,
                strip_empty_lines,
            ),
        ),
    ensures
        parsed == seq![
            Cue {
                offset_ms: offset_of(
                    digits_value(minutes),
                    digits_value(seconds),
                    digits_value(centis),
                ),
                text: trim(text),
            },
        ],
{
    let tag = minutes + seq![':'] + seconds + seq!['.'] + centis;
    let line = seq!['['] + tag + seq![']'] + text;
    lemma_time_tag_value(minutes, seconds, centis);
    assert forall|i: int| 0 <= i < tag.len() implies #[trigger] tag[i] != ']' && tag[i]
        != '\n' by {
        if i < minutes.len() {
            assert(tag[i] == minutes[i]);
            assert(is_digit(minutes[i]));
        } else if i == minutes.len() {
        } else if i < minutes.len() + 1 + seconds.len() {
            assert(tag[i] == seconds[i - minutes.len() - 1]);
            assert(is_digit(seconds[i - minutes.len() - 1]));
        } else if i == minutes.len() + 1 + seconds.len() {
        } else {
            assert(tag[i] == centis[i - minutes.len() - seconds.len() - 2]);
            assert(is_digit(centis[i - minutes.len() - seconds.len() - 2]));
        }
    }
    lemma_stamped_line(tag, text);
    assert forall|i: int| 0 <= i < line.len() implies #[trigger] line[i] != '\n' by {
        if i == 0 {
        } else if i <= tag.len() {
            assert(line[i] == tag[i - 1]);
        } else if i == tag.len() + 1 {
        } else {
            assert(line[i] == text[i - tag.len() - 2]);
        }
    }
    lemma_one_line(line, strip_empty_lines);
    let cue = Cue {
        offset_ms: offset_of(digits_value(minutes), digits_value(seconds), digits_value(centis)),
        text: trim(text),
    };
    assert(collected_cues(line, strip_empty_lines) == seq![cue]);
    assert(is_sorted(seq![cue]));
    lemma_stable_sort_unique(parsed, seq![cue], seq![cue]);
}

} // verus!
