use project_launcher::services::platform::Platform;
use project_launcher::services::shortcut_manager::{
    accepts_trigger, centered_position, combine, expand_part, expand_platform_modifier,
    generate_shortcut_variants, is_modifier_name, key_part, key_parts_of, names_modifier,
    registration_outcome, variants_from_parts, Attempt, KeyPart, DEBOUNCE_MS,
};
use project_launcher::text::{
    chars_of, contains_text, copy_list, copy_opt, first_word_of, join_texts, list_contains,
    replace_text, same_text, space_char, split_text, strip_prefix_text, trim_text,
};

fn lowered_part(name: &str, lowered: &str) -> KeyPart {
    KeyPart { name: name.to_string(), lowered: lowered.to_string() }
}

fn strings(items: &[&str]) -> Vec<String> {
    items.iter().map(|s| s.to_string()).collect()
}

#[test]
fn text_comparison_and_membership() {
    assert!(same_text("a b", "a b"));
    assert!(!same_text("a", "A"));
    assert!(same_text("", ""));
    let list = strings(&["x", "yz"]);
    assert!(list_contains(&list, "yz"));
    assert!(!list_contains(&list, "y"));
    assert!(!list_contains(&vec![], ""));
    assert_eq!(copy_list(&list), list);
    assert_eq!(copy_opt(&Some("s".to_string())), Some("s".to_string()));
    assert_eq!(copy_opt(&None), None);
}

#[test]
fn containment_is_by_contiguous_characters() {
    assert!(contains_text("requirements: fastapi==1", "fastapi"));
    assert!(contains_text("abc", ""));
    assert!(contains_text("", ""));
    assert!(contains_text("abc", "abc"));
    assert!(contains_text("aab", "ab"));
    assert!(contains_text("wörld", "ör"));
    assert!(!contains_text("abc", "abcd"));
    assert!(!contains_text("abc", "ac"));
    assert!(!contains_text("", "a"));
    assert!(!contains_text("Flask", "flask"));
    for (hay, needle) in [("sdk: flutter", "flutter"), ("xyz", "zy"), ("ababab", "bab")] {
        assert_eq!(contains_text(hay, needle), hay.contains(needle));
    }
    assert_eq!(chars_of("aé越"), vec!['a', 'é', '越']);
    assert!(chars_of("").is_empty());
}

#[test]
fn white_space_is_the_unicode_property() {
    for code in 0u32..0x11_0000 {
        if let Some(c) = char::from_u32(code) {
            assert_eq!(space_char(c), c.is_whitespace());
        }
    }
}

#[test]
fn replacing_scans_from_the_left() {
    assert_eq!(replace_text("a{p}b{p}", "{p}", "XY"), "aXYbXY");
    assert_eq!(replace_text("aaa", "aa", "b"), "ba");
    assert_eq!(replace_text("abc", "", "x"), "abc");
    assert_eq!(replace_text("", "a", "x"), "");
    assert_eq!(replace_text("ab", "abc", "x"), "ab");
    assert_eq!(replace_text("héllo wörld", "ö", "oe"), "héllo woerld");
    assert_eq!(replace_text("xx", "x", "xx"), "xxxx");
}

#[test]
fn splitting_and_joining() {
    assert_eq!(split_text("a+b+c", '+'), strings(&["a", "b", "c"]));
    assert_eq!(split_text("abc", '+'), strings(&["abc"]));
    assert_eq!(split_text("", '+'), strings(&[""]));
    assert_eq!(split_text("+a++", '+'), strings(&["", "a", "", ""]));
    assert_eq!(split_text("α+β", '+'), strings(&["α", "β"]));
    assert_eq!(join_texts(&strings(&["a", "b", "c"]), "+"), "a+b+c");
    assert_eq!(join_texts(&strings(&["a"]), "+"), "a");
    assert_eq!(join_texts(&strings(&[]), "+"), "");
    assert_eq!(join_texts(&strings(&["", ""]), ", "), ", ");
    for s in ["a+b", "", "++", "Ctrl+Shift+P"] {
        assert_eq!(split_text(s, '+'), s.split('+').map(|p| p.to_string()).collect::<Vec<_>>());
    }
}

#[test]
fn trimming_and_words() {
    assert_eq!(trim_text("  a b \t\n"), "a b");
    assert_eq!(trim_text(""), "");
    assert_eq!(trim_text(" \u{3000} "), "");
    assert_eq!(trim_text("x"), "x");
    assert_eq!(first_word_of("  code  --new"), Some("code".to_string()));
    assert_eq!(first_word_of("code"), Some("code".to_string()));
    assert_eq!(first_word_of("   "), None);
    assert_eq!(first_word_of(""), None);
    assert_eq!(strip_prefix_text("ababc", "ab"), "c");
    assert_eq!(strip_prefix_text("abc", "b"), "abc");
    assert_eq!(strip_prefix_text("abc", ""), "abc");
    assert_eq!(strip_prefix_text("aaa", "a"), "");
    for s in ["  a b ", "x", "", "\t"] {
        assert_eq!(trim_text(s), s.trim());
        assert_eq!(trim_text(&format!("\u{2003}{}\u{85}", s)), s.trim());
        assert_eq!(first_word_of(s), s.split_whitespace().next().map(|w| w.to_string()));
    }
    assert_eq!(strip_prefix_text("xxy", "x"), "xxy".trim_start_matches("x"));
}

#[test]
fn modifier_names_ignore_case() {
    for name in ["CommandOrControl", "CmdOrCtrl", "Command", "Cmd", "Control", "Ctrl", "Shift", "Alt", "Option", "Super", "Meta", "SHIFT", "ctrl"] {
        assert!(names_modifier(name));
    }
    for name in ["O", "F1", "", "Space", "Ctrl "] {
        assert!(!names_modifier(name));
    }
}

#[test]
fn modifiers_are_told_by_the_lowercase_form_given() {
    assert!(is_modifier_name("shift"));
    assert!(is_modifier_name("cmdorctrl"));
    assert!(!is_modifier_name("Shift"));
    assert!(!is_modifier_name("k"));
    assert!(!is_modifier_name(""));
    assert_eq!(expand_part(&lowered_part("X", "commandorcontrol"), Platform::MacOs), "Command");
    assert_eq!(expand_part(&lowered_part("X", "cmdorctrl"), Platform::Linux), "Ctrl");
    assert_eq!(expand_part(&lowered_part("X", "shift"), Platform::Linux), "X");
    assert_eq!(expand_part(&lowered_part("CmdOrCtrl", "CmdOrCtrl"), Platform::Linux), "CmdOrCtrl");
    let part = key_part("CmdOrCtrl");
    assert_eq!((part.name.as_str(), part.lowered.as_str()), ("CmdOrCtrl", "cmdorctrl"));
    let parts = key_parts_of("Ctrl+Shift++K");
    let seen: Vec<(&str, &str)> =
        parts.iter().map(|p| (p.name.as_str(), p.lowered.as_str())).collect();
    assert_eq!(seen, vec![("Ctrl", "ctrl"), ("Shift", "shift"), ("", ""), ("K", "k")]);
}

#[test]
fn variants_follow_from_the_parts_given() {
    let parts = vec![lowered_part("A", "alt"), lowered_part("B", "shift"), lowered_part("K", "k")];
    assert_eq!(variants_from_parts("raw", &parts, Platform::Linux), strings(&["A+B+K", "B+A+K"]));
    let parts = vec![lowered_part("Alt", "x"), lowered_part("K", "k")];
    assert_eq!(variants_from_parts("raw", &parts, Platform::Linux), strings(&["+K"]));
    let parts = vec![lowered_part("P", "cmdorctrl"), lowered_part("Q", "meta")];
    assert_eq!(variants_from_parts("raw", &parts, Platform::MacOs), strings(&["raw"]));
    assert_eq!(variants_from_parts("raw", &vec![lowered_part("K", "k")], Platform::MacOs), strings(&["raw"]));
    assert_eq!(variants_from_parts("raw", &vec![], Platform::MacOs), strings(&["raw"]));
    let parts = vec![
        lowered_part("P", "cmdorctrl"),
        lowered_part("k", "k"),
        lowered_part("S", "shift"),
        lowered_part("A", "alt"),
    ];
    assert_eq!(
        variants_from_parts("raw", &parts, Platform::MacOs),
        strings(&[
            "Command+S+A+k",
            "Command+A+S+k",
            "S+Command+A+k",
            "S+A+Command+k",
            "A+Command+S+k",
            "A+S+Command+k",
        ])
    );
}

#[test]
fn portable_modifiers_expand_per_platform() {
    assert_eq!(expand_platform_modifier("CommandOrControl", Platform::MacOs), "Command");
    assert_eq!(expand_platform_modifier("cmdorctrl", Platform::MacOs), "Command");
    assert_eq!(expand_platform_modifier("CommandOrControl", Platform::Windows), "Ctrl");
    assert_eq!(expand_platform_modifier("CmdOrCtrl", Platform::Linux), "Ctrl");
    assert_eq!(expand_platform_modifier("Shift", Platform::MacOs), "Shift");
    assert_eq!(expand_platform_modifier("alt", Platform::Linux), "alt");
}

#[test]
fn variants_of_two_modifiers() {
    assert_eq!(
        generate_shortcut_variants("CommandOrControl+Shift+O", Platform::MacOs),
        strings(&["Command+Shift+O", "Shift+Command+O"])
    );
    assert_eq!(
        generate_shortcut_variants("CommandOrControl+Shift+O", Platform::Linux),
        strings(&["Ctrl+Shift+O", "Shift+Ctrl+O"])
    );
}

#[test]
fn variants_of_three_modifiers() {
    assert_eq!(
        generate_shortcut_variants("Ctrl+Alt+Shift+K", Platform::Windows),
        strings(&[
            "Ctrl+Alt+Shift+K",
            "Ctrl+Shift+Alt+K",
            "Alt+Ctrl+Shift+K",
            "Alt+Shift+Ctrl+K",
            "Shift+Ctrl+Alt+K",
            "Shift+Alt+Ctrl+K",
        ])
    );
}

#[test]
fn variants_of_other_shapes() {
    assert_eq!(generate_shortcut_variants("F5", Platform::Linux), strings(&["F5"]));
    assert_eq!(generate_shortcut_variants("", Platform::Linux), strings(&[""]));
    assert_eq!(generate_shortcut_variants("Ctrl+Shift", Platform::Linux), strings(&["Ctrl+Shift"]));
    assert_eq!(generate_shortcut_variants("cmdorctrl+p", Platform::MacOs), strings(&["Command+p"]));
    assert_eq!(generate_shortcut_variants("A+B", Platform::Linux), strings(&["+B"]));
    assert_eq!(generate_shortcut_variants("K+Ctrl", Platform::Linux), strings(&["Ctrl+K"]));
    assert_eq!(
        generate_shortcut_variants("Ctrl+Alt+Shift+Meta+K", Platform::Linux),
        strings(&["Ctrl+Alt+Shift+Meta+K"])
    );
    assert_eq!(combine(&strings(&["Ctrl", "Alt"]), "X"), "Ctrl+Alt+X");
    assert_eq!(combine(&vec![], "X"), "+X");
}

#[test]
fn a_round_succeeds_if_any_spelling_was_taken() {
    let attempts = vec![Attempt::Rejected("busy".to_string()), Attempt::Invalid, Attempt::Registered];
    assert_eq!(registration_outcome("Ctrl+K", &attempts), Ok(()));
    let attempts = vec![Attempt::Invalid, Attempt::Rejected("busy".to_string()), Attempt::Rejected("later".to_string())];
    assert_eq!(
        registration_outcome("Ctrl+K", &attempts),
        Err("快捷键注册失败 [Ctrl+K]: busy".to_string())
    );
    assert_eq!(
        registration_outcome("Ctrl+K", &vec![Attempt::Invalid]),
        Err("快捷键注册失败 [Ctrl+K]: 未知错误".to_string())
    );
    assert_eq!(
        registration_outcome("", &vec![]),
        Err("快捷键注册失败 []: 未知错误".to_string())
    );
}

#[test]
fn triggers_are_debounced() {
    assert_eq!(DEBOUNCE_MS, 200);
    assert!(accepts_trigger(None));
    assert!(!accepts_trigger(Some(0)));
    assert!(!accepts_trigger(Some(199)));
    assert!(accepts_trigger(Some(200)));
    assert!(accepts_trigger(Some(u128::MAX)));
}

#[test]
fn window_is_centred_a_third_down() {
    assert_eq!(centered_position(1920, 1080, 800, 680), (560, 133));
    assert_eq!(centered_position(800, 600, 800, 600), (0, 0));
    assert_eq!(centered_position(800, 600, 801, 605), (0, -1));
    assert_eq!(centered_position(100, 100, 105, 106), (-2, -2));
    assert_eq!(centered_position(u32::MAX, u32::MAX, 0, 0), (i32::MAX, 1431655765));
    assert_eq!(centered_position(0, 0, u32::MAX, u32::MAX), (-i32::MAX, -1431655765));
}
