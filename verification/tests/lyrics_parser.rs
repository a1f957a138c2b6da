use lyrics_overlay::lyrics_parser::{find_current_index, parse_lrc, parse_time_tag, LyricPosition};

#[test]
fn parse_rick() {
        let rick: String = "[00:18.92] We're no strangers to love
[00:22.59] You know the rules and so do I (do I)
[00:26.93] A full commitment's what I'm thinking of
[00:31.35] You wouldn't get this from any other guy
[00:35.14] I just wanna tell you how I'm feeling
[00:40.28] Gotta make you understand
[00:42.83] Never gonna give you up
[00:45.22] Never gonna let you down
[00:47.14] Never gonna run around and desert you
[00:51.40] Never gonna make you cry
[00:53.88] Never gonna say goodbye
[00:55.67] Never gonna tell a lie and hurt you
[01:00.52] We've known each other for so long
[01:05.04] Your heart's been aching, but you're too shy to say it (say it)
[01:09.42] Inside, we both know what's been going on (going on)
[01:13.11] We know the game and we're gonna play it
[01:17.29] And if you ask me how I'm feeling
[01:22.51] Don't tell me you're too blind to see
[01:25.33] Never gonna give you up
[01:27.47] Never gonna let you down
[01:29.65] Never gonna run around and desert you
[01:33.42] Never gonna make you cry
[01:35.82] Never gonna say goodbye
[01:37.78] Never gonna tell a lie and hurt you
[01:41.99] Never gonna give you up
[01:44.10] Never gonna let you down
[01:46.43] Never gonna run around and desert you
[01:50.26] Never gonna make you cry
[01:52.56] Never gonna say goodbye
[01:54.79] Never gonna tell a lie and hurt you
[01:59.22] (Ooh, give you up)
[02:02.98] (Ooh, give you up)
[02:07.08] (Ooh) Never gonna give, never gonna give (give you up)
[02:11.26] (Ooh) Never gonna give, never gonna give (give you up)
[02:16.13] We've known each other for so long
[02:20.53] Your heart's been aching, but you're too shy to say it (to say it)
[02:24.65] Inside, we both know what's been going on (going on)
[02:28.87] We know the game and we're gonna play it
[02:32.55] I just wanna tell you how I'm feeling
[02:37.79] Gotta make you understand
[02:40.88] Never gonna give you up
[02:42.94] Never gonna let you down
[02:45.16] Never gonna run around and desert you
[02:49.00] Never gonna make you cry
[02:51.17] Never gonna say goodbye
[02:53.78] Never gonna tell a lie and hurt you
[02:57.61] Never gonna give you up
[02:59.47] Never gonna let you down
[03:02.00] Never gonna run around and desert you
[03:05.95] Never gonna make you cry
[03:08.34] Never gonna say goodbye
[03:10.45] Never gonna tell a lie and hurt you
[03:14.37] Never gonna give you up
[03:16.37] Never gonna let you down
[03:18.84] Never gonna run around and desert you
[03:23.07] Never gonna make you cry
[03:25.17] Never gonna say goodbye
[03:27.38] Never gonna tell a lie and hurt you
[03:30.57]"
            .into();

        let rick_parsed = parse_lrc(&rick, false);
        assert_eq!(rick_parsed.len(), 59);

        let rick_parsed_strip = parse_lrc(&rick, true);
        assert_eq!(rick_parsed_strip.len(), 58);

        assert_eq!(
            find_current_index(&rick_parsed, 19111),
            LyricPosition::Line(0)
        );

        assert_eq!(
            find_current_index(&rick_parsed, 1),
            LyricPosition::BeforeStart
        );

        assert_eq!(
            find_current_index(&rick_parsed, 1_111_111_111),
            LyricPosition::AfterEnd
        );
}

#[test]
fn time_tag_with_hundredths() {
    assert_eq!(parse_time_tag("01:05.04"), Some(65040));
}

fn offsets(content: &str, strip: bool) -> Vec<u64> {
    parse_lrc(content, strip).iter().map(|l| l.time_ms()).collect()
}

fn texts(content: &str, strip: bool) -> Vec<String> {
    parse_lrc(content, strip).iter().map(|l| l.text().to_string()).collect()
}

#[test]
fn time_tag_formula() {
    assert_eq!(parse_time_tag("00:00.00"), Some(0));
    assert_eq!(parse_time_tag("00:18.92"), Some(18_920));
    assert_eq!(parse_time_tag("03:30.57"), Some(210_570));
    assert_eq!(parse_time_tag("12:34.56"), Some(12 * 60_000 + 34 * 1_000 + 56 * 10));
    assert_eq!(parse_time_tag("100:00.00"), Some(6_000_000));
}

#[test]
fn time_tag_without_fraction() {
    assert_eq!(parse_time_tag("01:05"), Some(65_000));
    assert_eq!(parse_time_tag("01:05."), Some(65_000));
    assert_eq!(parse_time_tag("01:05:"), Some(65_000));
    assert_eq!(parse_time_tag("01:05.  "), Some(65_000));
}

#[test]
fn time_tag_with_colon_before_fraction() {
    assert_eq!(parse_time_tag("01:05:04"), Some(65_040));
    assert_eq!(parse_time_tag("00:00:01"), Some(10));
}

#[test]
fn time_tag_fraction_counts_hundredths_whatever_its_length() {
    assert_eq!(parse_time_tag("00:01.5"), Some(1_050));
    assert_eq!(parse_time_tag("00:01.123"), Some(2_230));
}

#[test]
fn time_tag_fields_may_have_white_space_and_a_plus() {
    assert_eq!(parse_time_tag(" 01 : 05 . 04 "), Some(65_040));
    assert_eq!(parse_time_tag("+1:+5.+4"), Some(65_040));
    assert_eq!(parse_time_tag("\t2:\u{a0}3"), Some(123_000));
}

#[test]
fn time_tag_seconds_are_not_bounded() {
    assert_eq!(parse_time_tag("00:75.00"), Some(75_000));
    assert_eq!(parse_time_tag("0:3600"), Some(3_600_000));
}

#[test]
fn tags_that_are_no_time_stamps() {
    assert_eq!(parse_time_tag(""), None);
    assert_eq!(parse_time_tag("0105"), None);
    assert_eq!(parse_time_tag("ar:Rick Astley"), None);
    assert_eq!(parse_time_tag("length:03:33"), None);
    assert_eq!(parse_time_tag(":05.04"), None);
    assert_eq!(parse_time_tag("01:.04"), None);
    assert_eq!(parse_time_tag("01:"), None);
    assert_eq!(parse_time_tag("-1:05.04"), None);
    assert_eq!(parse_time_tag("01:-5.04"), None);
    assert_eq!(parse_time_tag("0x1:05"), None);
    assert_eq!(parse_time_tag("1 0:05"), None);
    assert_eq!(parse_time_tag("01:05:04.5"), None);
    assert_eq!(parse_time_tag("01:05.04.5"), None);
    assert_eq!(parse_time_tag("+:05"), None);
    assert_eq!(parse_time_tag("\u{661}:05"), None);
}

#[test]
fn time_tag_with_a_fraction_that_is_no_number_is_no_time_stamp() {
    assert_eq!(parse_time_tag("01:05.xx"), None);
    assert_eq!(parse_time_tag("01:05.4a"), None);
    assert_eq!(parse_time_tag("01:05:-4"), None);
}

#[test]
fn time_tag_that_does_not_fit_is_no_time_stamp() {
    // 18446744073709551615 is the largest offset.
    assert_eq!(parse_time_tag("0:0.1844674407370955161"), Some(18_446_744_073_709_551_610));
    assert_eq!(parse_time_tag("0:18446744073709551"), Some(18_446_744_073_709_551_000));
    assert_eq!(parse_time_tag("0:18446744073709551.61"), Some(18_446_744_073_709_551_610));
    assert_eq!(parse_time_tag("0:18446744073709551.62"), None);
    assert_eq!(parse_time_tag("0:0.1844674407370955162"), None);
    assert_eq!(parse_time_tag("307445734561825:51.61"), Some(18_446_744_073_709_551_610));
    assert_eq!(parse_time_tag("307445734561825:52"), None);
    assert_eq!(parse_time_tag("18446744073709551616:00"), None);
    assert_eq!(parse_time_tag("0:18446744073709551616"), None);
    assert_eq!(parse_time_tag("0:0.18446744073709551616"), None);
    assert_eq!(parse_time_tag("99999999999999999999999999:00.00"), None);
}

#[test]
fn one_line() {
    let lines = parse_lrc("[01:05.04] Your heart's been aching", false);
    assert_eq!(lines.len(), 1);
    assert_eq!(lines[0].time_ms(), 65_040);
    assert_eq!(lines[0].text(), "Your heart's been aching");
}

#[test]
fn empty_and_tagless_input_gives_no_lines() {
    assert_eq!(parse_lrc("", false).len(), 0);
    assert_eq!(parse_lrc("\n\n\n", true).len(), 0);
    assert_eq!(parse_lrc("   \t  ", false).len(), 0);
    assert_eq!(parse_lrc("just words\nmore words", false).len(), 0);
    assert_eq!(parse_lrc("[ar:Rick Astley]\n[ti:Never Gonna Give You Up]\n[length:03:33]x", false).len(), 0);
}

#[test]
fn lines_without_a_leading_time_stamp_are_dropped() {
    let content = "words [00:01.00] later\n[00:02.00] kept\n(00:03.00) no\n";
    assert_eq!(offsets(content, false), vec![2_000]);
    assert_eq!(texts(content, false), vec!["kept".to_string()]);
}

#[test]
fn tags_before_the_time_stamp_are_dropped() {
    let content = "[ar:Someone][00:01.50]first\n[x] [y]  [00:02.00]  second  \n[by:me]";
    assert_eq!(offsets(content, false), vec![1_500, 2_000]);
    assert_eq!(texts(content, false), vec!["first".to_string(), "second".to_string()]);
}

#[test]
fn only_the_first_time_stamp_is_read() {
    let lines = parse_lrc("[00:01.00][00:02.00]twice", false);
    assert_eq!(lines.len(), 1);
    assert_eq!(lines[0].time_ms(), 1_000);
    assert_eq!(lines[0].text(), "[00:02.00]twice");
}

#[test]
fn a_bracket_that_is_not_closed_ends_the_line() {
    assert_eq!(parse_lrc("[00:01.00 words", false).len(), 0);
    assert_eq!(parse_lrc("[ar:x][00:01.00 words", false).len(), 0);
    let lines = parse_lrc("[00:01.00][still open", false);
    assert_eq!(lines.len(), 1);
    assert_eq!(lines[0].text(), "[still open");
}

#[test]
fn text_is_trimmed() {
    let lines = parse_lrc("  \t[00:01.00] \u{3000} hello  world \u{2003}\r\n", false);
    assert_eq!(lines.len(), 1);
    assert_eq!(lines[0].text(), "hello  world");
}

#[test]
fn line_ends() {
    let content = "[00:01.00]a\r\n[00:02.00]b\n\r\n[00:03.00]c\r[00:04.00]d";
    assert_eq!(offsets(content, false), vec![1_000, 2_000, 3_000]);
    assert_eq!(
        texts(content, false),
        vec!["a".to_string(), "b".to_string(), "c\r[00:04.00]d".to_string()]
    );
}

#[test]
fn output_is_sorted_whatever_the_order_of_the_input() {
    let content = "[00:03.00]c\n[00:01.00]a\n[00:02.00]b\n[00:00.50]z";
    assert_eq!(offsets(content, false), vec![500, 1_000, 2_000, 3_000]);
    assert_eq!(
        texts(content, false),
        vec!["z".to_string(), "a".to_string(), "b".to_string(), "c".to_string()]
    );
}

#[test]
fn lines_of_one_offset_keep_their_order() {
    let content = "[00:02.00]late\n[00:01.00]first\n[00:01.00]second\n[00:00.00]start\n[0:1]third";
    assert_eq!(
        texts(content, false),
        vec![
            "start".to_string(),
            "first".to_string(),
            "second".to_string(),
            "third".to_string(),
            "late".to_string()
        ]
    );
}

#[test]
fn strip_removes_exactly_the_lines_without_text() {
    let content = "[00:01.00]\n[00:02.00]words\n[00:00.50]   \n[00:03.00][x]\n[00:04.00]\u{a0}\n[00:01.50]more";
    let all = parse_lrc(content, false);
    let stripped = parse_lrc(content, true);
    assert_eq!(all.len(), 6);
    assert_eq!(stripped.len(), 3);
    let kept: Vec<(u64, String)> = all
        .iter()
        .filter(|l| !l.text().is_empty())
        .map(|l| (l.time_ms(), l.text().to_string()))
        .collect();
    let got: Vec<(u64, String)> = stripped.iter().map(|l| (l.time_ms(), l.text().to_string())).collect();
    assert_eq!(got, kept);
    assert_eq!(
        got,
        vec![(1_500, "more".to_string()), (2_000, "words".to_string()), (3_000, "[x]".to_string())]
    );
}

#[test]
fn locate_in_an_empty_timeline() {
    let none: Vec<lyrics_overlay::lyrics_parser::LyricLine> = Vec::new();
    assert_eq!(find_current_index(&none, 0), LyricPosition::BeforeStart);
    assert_eq!(find_current_index(&none, u64::MAX), LyricPosition::BeforeStart);
}

#[test]
fn locate_in_a_sorted_timeline() {
    let lines = parse_lrc("[00:01.00]a\n[00:02.00]b\n[00:02.00]b2\n[00:04.00]c", false);
    assert_eq!(find_current_index(&lines, 0), LyricPosition::BeforeStart);
    assert_eq!(find_current_index(&lines, 999), LyricPosition::BeforeStart);
    assert_eq!(find_current_index(&lines, 1_000), LyricPosition::Line(0));
    assert_eq!(find_current_index(&lines, 1_999), LyricPosition::Line(0));
    assert_eq!(find_current_index(&lines, 2_000), LyricPosition::Line(2));
    assert_eq!(find_current_index(&lines, 3_999), LyricPosition::Line(2));
    assert_eq!(find_current_index(&lines, 4_000), LyricPosition::AfterEnd);
    assert_eq!(find_current_index(&lines, u64::MAX), LyricPosition::AfterEnd);
}

#[test]
fn locate_with_one_line() {
    let lines = parse_lrc("[00:01.00]only", false);
    assert_eq!(find_current_index(&lines, 999), LyricPosition::BeforeStart);
    assert_eq!(find_current_index(&lines, 1_000), LyricPosition::AfterEnd);
}

#[test]
fn locate_stops_at_the_first_line_that_has_not_begun() {
    let lines = vec![
        lyrics_overlay::lyrics_parser::LyricLine::new(5_000, "late".to_string()),
        lyrics_overlay::lyrics_parser::LyricLine::new(1_000, "early".to_string()),
    ];
    assert_eq!(find_current_index(&lines, 2_000), LyricPosition::BeforeStart);
    assert_eq!(find_current_index(&lines, 5_000), LyricPosition::AfterEnd);
}

#[test]
fn lines_can_be_copied() {
    let line = lyrics_overlay::lyrics_parser::LyricLine::new(7, "seven".to_string());
    let copy = line.clone();
    assert_eq!(copy.time_ms(), 7);
    assert_eq!(copy.text(), "seven");
}
