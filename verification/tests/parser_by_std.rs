use lyrics_overlay::lyrics_parser::{parse_lrc, parse_time_tag};

// The grammar of the lyrics, written once more with the string functions of std.

fn field(s: &str) -> Option<u64> {
    s.trim().parse().ok()
}

fn time_tag_by_std(tag: &str) -> Option<u64> {
    let parts: Vec<&str> = tag.splitn(2, ':').collect();
    if parts.len() != 2 {
        return None;
    }
    let sec_part = parts[1];
    let (secs_str, centis_str) = if let Some(dot) = sec_part.find('.') {
        (&sec_part[..dot], Some(&sec_part[dot + 1..]))
    } else if let Some(colon) = sec_part.find(':') {
        (&sec_part[..colon], Some(&sec_part[colon + 1..]))
    } else {
        (sec_part, None)
    };
    let centis = match centis_str {
        Some(c) if !c.trim().is_empty() => c.trim().parse::<u128>().ok(),
        _ => Some(0),
    };
    let minutes = parts[0].trim().parse::<u128>().ok();
    let secs = secs_str.trim().parse::<u128>().ok();
    let total = minutes?
        .checked_mul(60_000)?
        .checked_add(secs?.checked_mul(1_000)?)?
        .checked_add(centis?.checked_mul(10)?)?;
    u64::try_from(total).ok()
}

fn parse_by_std(content: &str, strip_empty_lines: bool) -> Vec<(u64, String)> {
    let mut lines: Vec<(u64, String)> = Vec::new();
    for raw in content.lines() {
        let raw = raw.trim();
        if raw.is_empty() {
            continue;
        }
        let mut rest = raw;
        while rest.starts_with('[') {
            if let Some(close) = rest.find(']') {
                let tag = &rest[1..close];
                rest = rest[close + 1..].trim();
                if let Some(ms) = time_tag_by_std(tag) {
                    let text = rest.to_string();
                    if strip_empty_lines && text.is_empty() {
                        break;
                    }
                    lines.push((ms, text));
                    break;
                }
            } else {
                break;
            }
        }
    }
    lines.sort_by_key(|l| l.0);
    lines
}

struct Dice(u64);

impl Dice {
    fn roll(&mut self, sides: usize) -> usize {
        self.0 = self.0.wrapping_mul(6364136223846793005).wrapping_add(1442695040888963407);
        ((self.0 >> 33) as usize) % sides
    }
}

const PIECES: [&str; 40] = [
    "[", "]", ":", ".", "0", "1", "2", "5", "9", "00", "01", "59", "60", "99", " ", "  ", "\t",
    "\n", "\r\n", "\r", "+", "-", "a", "la la", "[ar:x]", "[00:01.00]", "[00:01]", "[1:2:3]",
    "[00:00.50]", "[01:05.04]", "\u{a0}", "\u{3000}", "\u{e9}", "18446744073709551", "307445734561825",
    "[x", "x]", "]]", "[[", "\u{1f3b5}",
];

fn random_text(dice: &mut Dice, pieces: usize) -> String {
    let mut s = String::new();
    for _ in 0..dice.roll(pieces + 1) {
        s.push_str(PIECES[dice.roll(PIECES.len())]);
    }
    s
}

#[test]
fn time_tags_are_read_as_with_std() {
    let mut dice = Dice(0x5eed_0001);
    for _ in 0..40_000 {
        let tag = random_text(&mut dice, 7);
        assert_eq!(parse_time_tag(&tag), time_tag_by_std(&tag), "{:?}", tag);
    }
}

#[test]
fn field_values_are_those_of_std() {
    for s in ["7", " 7", "7 ", "\t+7\r", "1 7", "", " ", "+ 7"] {
        let tag = format!("{}:0", s);
        assert_eq!(parse_time_tag(&tag), field(s).map(|m| m * 60_000), "{:?}", s);
    }
}

#[test]
fn lyrics_are_read_as_with_std() {
    let mut dice = Dice(0x5eed_0002);
    for round in 0..6_000 {
        let content = random_text(&mut dice, 30);
        for strip in [false, true] {
            let got: Vec<(u64, String)> = parse_lrc(&content, strip)
                .iter()
                .map(|l| (l.time_ms(), l.text().to_string()))
                .collect();
            assert_eq!(got, parse_by_std(&content, strip), "round {} {:?}", round, content);
        }
    }
}

#[test]
fn stripping_never_gives_more_lines() {
    let mut dice = Dice(0x5eed_0003);
    for _ in 0..2_000 {
        let content = random_text(&mut dice, 30);
        let all = parse_lrc(&content, false);
        let stripped = parse_lrc(&content, true);
        assert!(stripped.len() <= all.len());
        let kept: Vec<(u64, &str)> =
            all.iter().filter(|l| !l.text().is_empty()).map(|l| (l.time_ms(), l.text())).collect();
        let got: Vec<(u64, &str)> = stripped.iter().map(|l| (l.time_ms(), l.text())).collect();
        assert_eq!(got, kept);
        assert!(all.windows(2).all(|w| w[0].time_ms() <= w[1].time_ms()));
    }
}
