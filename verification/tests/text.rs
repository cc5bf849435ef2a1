use local_private_llm::files::{lines, tool_read_file};
use local_private_llm::listing::name_le;
use local_private_llm::text::{
    before_first, contains_chars, contains_str, is_space_char, join_chars, lowercase_chars,
    occurs_at, replace_chars, replace_str, split_chars, starts_with_str, strip_chars, trim_bounds,
    trim_chars, CharClass,
};

fn chars(s: &str) -> Vec<char> {
    s.chars().collect()
}

fn text(v: &[char]) -> String {
    v.iter().collect()
}

const SAMPLES: [&str; 16] = [
    "",
    " ",
    "a",
    "  a  ",
    "\t\n a b \r\n",
    "a && b && c",
    "&& &&",
    "aaa",
    "aaaa",
    "..",
    "a..b",
    "x\\y\\\\z",
    "\u{a0}é\u{3000}",
    "line\r\nline\n\nlast",
    "ends\n",
    "\r",
];

#[test]
fn white_space_is_what_the_standard_library_calls_white_space() {
    for code in 0..=0x10FFFFu32 {
        if let Some(c) = char::from_u32(code) {
            assert_eq!(is_space_char(c), c.is_whitespace(), "U+{:04X}", code);
        }
    }
}

#[test]
fn trimming_agrees_with_the_standard_library() {
    for s in SAMPLES {
        let v = chars(s);
        assert_eq!(text(&trim_chars(&v)), s.trim(), "{:?}", s);
        let (a, b) = trim_bounds(&v);
        assert_eq!(text(&v[a..b]), s.trim(), "{:?}", s);
    }
    assert_eq!(text(&strip_chars(&chars("?.,france,.?"), CharClass::StopMark)), "france");
    assert_eq!(text(&strip_chars(&chars(" .x. "), CharClass::StopMark)), " .x. ");
    assert_eq!(text(&strip_chars(&chars("..."), CharClass::StopMark)), "");
}

#[test]
fn searching_agrees_with_the_standard_library() {
    for s in SAMPLES {
        for p in SAMPLES {
            let v = chars(s);
            assert_eq!(contains_chars(&v, &chars(p)), s.contains(p), "{:?} in {:?}", p, s);
            assert_eq!(contains_str(&v, p), s.contains(p), "{:?} in {:?}", p, s);
            assert_eq!(starts_with_str(&v, p), s.starts_with(p), "{:?} starts {:?}", p, s);
        }
    }
    let v = chars("abcabc");
    assert!(occurs_at(&v, 3, &chars("abc")));
    assert!(!occurs_at(&v, 4, &chars("abc")));
    assert!(occurs_at(&v, 6, &chars("")));
    assert!(!occurs_at(&v, 7, &chars("")));
}

#[test]
fn replacing_agrees_with_the_standard_library() {
    let patterns = [" && ", "a", "aa", "..", "\\", "\n", "&&", "line"];
    let replacements = ["", "; ", "/", "aa", "a"];
    for s in SAMPLES {
        for from in patterns {
            for to in replacements {
                let v = chars(s);
                assert_eq!(
                    text(&replace_str(&v, from, to)),
                    s.replace(from, to),
                    "{:?} {:?} {:?}",
                    s,
                    from,
                    to
                );
            }
        }
    }
    assert_eq!(text(&replace_chars(&chars("abc"), &chars(""), &chars("x"))), "abc");
}

#[test]
fn splitting_and_joining_agree_with_the_standard_library() {
    for s in SAMPLES {
        for c in ['\n', '/', 'a', ' '] {
            let pieces: Vec<String> = split_chars(&chars(s), c).iter().map(|p| text(p)).collect();
            let expected: Vec<String> = s.split(c).map(|p| p.to_string()).collect();
            assert_eq!(pieces, expected, "{:?} by {:?}", s, c);
            let parts: Vec<Vec<char>> = expected.iter().map(|p| chars(p)).collect();
            assert_eq!(text(&join_chars(&parts, ", ")), expected.join(", "));
        }
        let first = s.split('\n').next().unwrap_or("");
        assert_eq!(text(&before_first(&chars(s), '\n')), first, "{:?}", s);
    }
    assert_eq!(text(&join_chars(&vec![], ", ")), "");
}

#[test]
fn lines_agree_with_the_standard_library() {
    for s in SAMPLES {
        let ours: Vec<String> = lines(&chars(s)).iter().map(|l| text(l)).collect();
        let theirs: Vec<String> = s.lines().map(|l| l.to_string()).collect();
        assert_eq!(ours, theirs, "{:?}", s);
        assert_eq!(tool_read_file(s, Some(2000), None), theirs.join("\n"), "{:?}", s);
        assert_eq!(tool_read_file(s, None, Some(2000)), theirs.join("\n"), "{:?}", s);
        assert_eq!(tool_read_file(s, None, None), s);
    }
}

#[test]
fn names_are_ordered_as_strings_are() {
    let names = ["", "a", "A", "ab", "b", "é", "e", "a10", "a2", "z", "\u{10000}", "\u{ffff}", "~"];
    for a in names {
        for b in names {
            assert_eq!(name_le(&chars(a), &chars(b)), a <= b, "{:?} {:?}", a, b);
        }
    }
}

#[test]
fn lower_case_is_the_standard_library_form() {
    for s in ["ShutDown", "ÉCOLE", "İstanbul", "ΟΔΟΣ", "already lower", ""] {
        assert_eq!(text(&lowercase_chars(s)), s.to_lowercase(), "{:?}", s);
    }
}
