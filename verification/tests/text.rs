use mukduk::text::{
    any_is, chars_of, contains, find_first, is_whitespace, replace_char, same_text, slice_of,
    split, stands_at, string_of, trim, trim_end, trim_start,
};

fn chars(s: &str) -> Vec<char> {
    s.chars().collect()
}

fn pieces(s: &str, sep: char) -> Vec<String> {
    split(&chars(s), sep).iter().map(string_of).collect()
}

#[test]
fn a_string_and_its_characters_go_both_ways() {
    assert_eq!(chars_of("héllo ✓"), chars("héllo ✓"));
    assert_eq!(chars_of(""), Vec::<char>::new());
    assert_eq!(string_of(&chars("héllo ✓")), "héllo ✓");
    assert_eq!(string_of(&Vec::new()), "");
}

#[test]
fn splitting_agrees_with_the_standard_library() {
    for text in ["", "a", "a\nb", "a\n", "\na", "\n", "\n\n", "a\n\nb\n", "no separator here"] {
        let expected: Vec<String> = text.split('\n').map(|p| p.to_string()).collect();
        assert_eq!(pieces(text, '\n'), expected, "splitting {text:?}");
    }
    assert_eq!(pieces("a:b:c", ':'), vec!["a", "b", "c"]);
}

#[test]
fn trimming_agrees_with_the_standard_library() {
    for text in ["", " ", "a", "  a  ", "\n\ta b\r\n", "a \u{a0}\u{2003}", "\u{3000}x", "x\u{200b}"] {
        assert_eq!(string_of(&trim_end(&chars(text))), text.trim_end(), "trim_end of {text:?}");
        assert_eq!(string_of(&trim_start(&chars(text))), text.trim_start(), "trim_start of {text:?}");
        assert_eq!(string_of(&trim(&chars(text))), text.trim(), "trim of {text:?}");
    }
}

#[test]
fn replacing_touches_every_occurrence_and_nothing_else() {
    assert_eq!(string_of(&replace_char(&chars("a.b..c."), '.', '_')), "a_b__c_");
    assert_eq!(string_of(&replace_char(&chars("abc"), '.', '_')), "abc");
    assert_eq!(string_of(&replace_char(&chars(""), '.', '_')), "");
    assert_eq!(string_of(&replace_char(&chars("_._"), '.', '_')), "___");
}

#[test]
fn a_slice_is_the_part_between_two_positions() {
    let text = chars("abcdef");
    assert_eq!(string_of(&slice_of(&text, 1, 4)), "bcd");
    assert_eq!(string_of(&slice_of(&text, 0, 6)), "abcdef");
    assert_eq!(string_of(&slice_of(&text, 3, 3)), "");
}

#[test]
fn the_first_occurrence_is_found_or_the_length() {
    assert_eq!(find_first(&chars("ab:cd:e"), ':'), 2);
    assert_eq!(find_first(&chars(":x"), ':'), 0);
    assert_eq!(find_first(&chars("abc"), ':'), 3);
    assert_eq!(find_first(&chars(""), ':'), 0);
}

#[test]
fn a_text_is_found_where_it_stands() {
    let hay = chars("No active zellij sessions found.");
    assert!(contains(&hay, &chars("zellij")));
    assert!(contains(&hay, &chars("No ")));
    assert!(contains(&hay, &chars("found.")));
    assert!(contains(&hay, &chars("")));
    assert!(contains(&hay, &hay));
    assert!(!contains(&hay, &chars("tmux")));
    assert!(!contains(&hay, &chars("found..")));
    assert!(!contains(&chars(""), &chars("a")));
    assert!(contains(&chars(""), &chars("")));
    assert!(contains(&chars("aab"), &chars("ab")));
    assert!(stands_at(&hay, &chars("active"), 3));
    assert!(!stands_at(&hay, &chars("active"), 2));
}

#[test]
fn texts_are_the_same_when_every_character_is() {
    assert!(same_text(&chars("abc"), &chars("abc")));
    assert!(same_text(&chars(""), &chars("")));
    assert!(!same_text(&chars("abc"), &chars("abd")));
    assert!(!same_text(&chars("abc"), &chars("ab")));
    let lines = vec![chars("one"), chars("two"), chars("")];
    assert!(any_is(&lines, &chars("two")));
    assert!(any_is(&lines, &chars("")));
    assert!(!any_is(&lines, &chars("tw")));
    assert!(!any_is(&Vec::new(), &chars("")));
}

#[test]
fn white_space_is_what_the_standard_library_takes_for_it() {
    let mut count = 0;
    for code in 0u32..=0x10FFFF {
        if let Some(c) = char::from_u32(code) {
            assert_eq!(is_whitespace(c), c.is_whitespace(), "U+{code:04X}");
            if is_whitespace(c) {
                count += 1;
            }
        }
    }
    assert_eq!(count, 25);
    assert!(is_whitespace(' ') && is_whitespace('\n') && is_whitespace('\u{3000}'));
    assert!(!is_whitespace('a') && !is_whitespace('\u{200b}') && !is_whitespace('\u{180e}'));
}
