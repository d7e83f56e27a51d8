use sqllib::case::{initcap_, lower_, upper_};
use sqllib::pattern::{like2__, like3___, like_escaped, rlike__};
use sqllib::search::{position__, replace___, split1_, split2__};
use sqllib::text::{
    ascii_, char_length_, char_length_ref, chr_, concat_s_s, left__, overlay3___, overlay4____,
    repeat__, substring2__, substring3___, trim_both_s_s, trim_leading_s_s, trim_trailing_s_s,
};

fn s(x: &str) -> String {
    x.to_string()
}

#[test]
fn substring_selects_from_one_based_start() {
    assert_eq!(substring3___(s("hello"), 2, 3), "ell");
}

#[test]
fn substring_negative_count_is_empty() {
    assert_eq!(substring3___(s("hello"), 2, -1), "");
}

#[test]
fn substring_start_clamps_to_first_character() {
    assert_eq!(substring3___(s("hello"), -5, 3), "hel");
    assert_eq!(substring3___(s("hello"), 0, 2), "he");
}

#[test]
fn substring_past_end_gives_available_suffix() {
    assert_eq!(substring3___(s("hello"), 4, 10), "lo");
    assert_eq!(substring3___(s("hello"), 9, 2), "");
    assert_eq!(substring3___(s("héllo"), 2, 2), "él");
}

#[test]
fn substring_without_count() {
    assert_eq!(substring2__(s("hello"), 3), "llo");
    assert_eq!(substring2__(s("hello"), -1), "hello");
    assert_eq!(substring2__(s("hello"), 7), "");
}

#[test]
fn left_takes_prefix() {
    assert_eq!(left__(s("hello"), 2), "he");
    assert_eq!(left__(s("hello"), -2), "");
}

#[test]
fn overlay_splices() {
    assert_eq!(overlay4____(s("hello"), s("XY"), 2, 1), "hXYllo");
}

#[test]
fn overlay_edge_positions() {
    assert_eq!(overlay4____(s("hello"), s("XY"), 0, 1), "hello");
    assert_eq!(overlay4____(s("hello"), s("XY"), 6, 1), "helloXY");
    assert_eq!(overlay4____(s("hello"), s("XY"), 2, -3), "hXYello");
    assert_eq!(overlay4____(s("hello"), s("XY"), 4, 10), "helXY");
    assert_eq!(overlay3___(s("hello"), s("XY"), 2), "hXYlo");
}

#[test]
fn initcap_resets_at_punctuation() {
    assert_eq!(initcap_(s("mc donald's 3rd")), "Mc Donald'S 3rd");
    assert_eq!(initcap_(s("HELLO wORLD")), "Hello World");
    assert_eq!(initcap_(s("")), "");
}

#[test]
fn lower_and_upper() {
    assert_eq!(lower_(s("AbC")), "abc");
    assert_eq!(upper_(s("AbC")), "ABC");
}

#[test]
fn split_keeps_empty_pieces() {
    assert_eq!(split2__(s("a,b,,c"), s(",")), vec![s("a"), s("b"), s(""), s("c")]);
}

#[test]
fn split_edge_cases() {
    assert_eq!(split2__(s(""), s(",")), vec![s("")]);
    assert_eq!(split2__(s("a--b"), s("--")), vec![s("a"), s("b")]);
    assert_eq!(split2__(s("ab"), s("")), vec![s(""), s("a"), s("b"), s("")]);
    assert_eq!(split1_(s("x,y")), vec![s("x"), s("y")]);
}

#[test]
fn position_is_one_based() {
    assert_eq!(position__(s("ll"), s("hello")), 3);
    assert_eq!(position__(s("z"), s("hello")), 0);
    assert_eq!(position__(s(""), s("hello")), 1);
    assert_eq!(position__(s("lo"), s("héllo")), 4);
}

#[test]
fn chr_of_code_points() {
    assert_eq!(chr_(65), "A");
    assert_eq!(chr_(-1), "");
    assert_eq!(chr_(0xD800), "");
    assert_eq!(chr_(0x110000), "");
}

#[test]
fn ascii_of_first_character() {
    assert_eq!(ascii_(s("")), 0);
    assert_eq!(ascii_(s("Abc")), 65);
    assert_eq!(ascii_(s("é")), 233);
}

#[test]
fn char_length_counts_characters() {
    assert_eq!(char_length_(s("héllo")), 5);
    assert_eq!(char_length_ref("abc"), 3);
}

#[test]
fn repeat_and_concat() {
    assert_eq!(repeat__(s("ab"), 3), "ababab");
    assert_eq!(repeat__(s("ab"), 0), "");
    assert_eq!(repeat__(s("ab"), -2), "");
    assert_eq!(concat_s_s(s("ab"), s("cd")), "abcd");
}

#[test]
fn trims_remove_runs_of_first_character() {
    assert_eq!(trim_both_s_s(s("x"), s("xxaxx")), "a");
    assert_eq!(trim_leading_s_s(s("x"), s("xxaxx")), "axx");
    assert_eq!(trim_trailing_s_s(s("x"), s("xxaxx")), "xxa");
    assert_eq!(trim_both_s_s(s("xy"), s("xxxx")), "");
}

#[test]
fn replace_all_occurrences() {
    assert_eq!(replace___(s("hello"), s("l"), s("L")), "heLLo");
    assert_eq!(replace___(s("aaa"), s("aa"), s("b")), "ba");
    assert_eq!(replace___(s("ab"), s(""), s("-")), "-a-b-");
}

#[test]
fn like_patterns() {
    assert!(like2__(s("hello"), s("h%o")));
    assert!(like2__(s("hello"), s("h_llo")));
    assert!(!like2__(s("hello"), s("h_o")));
}

#[test]
fn like_with_escape() {
    assert!(like3___(s("a%b"), s("a!%b"), s("!")));
    assert!(!like3___(s("axb"), s("a!%b"), s("!")));
    assert!(!like3___(s("ab"), s("ab"), s("!!")));
    assert!(!like_escaped("ab", None));
}

#[test]
fn rlike_patterns() {
    assert!(rlike__(s("hello"), s("^h.*o$")));
    assert!(!rlike__(s("hello"), s("^x")));
    assert!(!rlike__(s("hello"), s("(")));
}

#[test]
fn repeated_calls_agree() {
    assert_eq!(initcap_(s("ab cd")), initcap_(s("ab cd")));
    assert_eq!(substring3___(s("hello"), 2, 3), substring3___(s("hello"), 2, 3));
    assert_eq!(split2__(s("a,b"), s(",")), split2__(s("a,b"), s(",")));
}
