use str_overlap::{overlap, string_overlap_index, Overlap};

#[test]
fn partial_overlap_start() {
    assert_eq!("bcd".overlap_start("abc"), "bc");
}

#[test]
fn partial_overlap_end() {
    assert_eq!("abc".overlap_end("bcd"), "bc");
}

#[test]
fn full_overlap_start() {
    assert_eq!("abc".overlap_start("abc"), "abc");
}

#[test]
fn full_overlap_end() {
    assert_eq!("abc".overlap_end("abc"), "abc");
}

#[test]
fn no_overlap_start() {
    assert_eq!("abc".overlap_start("def"), "");
}

#[test]
fn no_overlap_end() {
    assert_eq!("abc".overlap_end("def"), "");
}

#[test]
fn other_substring_of_self_start() {
    assert_eq!("abcd".overlap_start("abc"), "abc");
}

#[test]
fn other_substring_of_self_end() {
    assert_eq!("abcd".overlap_end("bcd"), "bcd");
}

#[test]
fn self_substring_of_other_start() {
    assert_eq!("bcd".overlap_start("abcd"), "bcd");
}

#[test]
fn self_substring_other_end() {
    assert_eq!("abc".overlap_end("abcd"), "abc");
}

#[test]
fn only_checks_overlap_one_way_start() {
    assert_eq!("abc".overlap_start("bcd"), "");
}

#[test]
fn only_checks_overlap_one_way_end() {
    assert_eq!("bcd".overlap_end("abc"), "");
}

#[test]
fn self_empty_start() {
    assert_eq!("".overlap_start("abc"), "");
}

#[test]
fn self_empty_end() {
    assert_eq!("".overlap_end("abc"), "");
}

#[test]
fn other_empty_start() {
    assert_eq!("abc".overlap_start(""), "");
}

#[test]
fn other_empty_end() {
    assert_eq!("abc".overlap_end(""), "");
}

#[test]
fn all_empty_start() {
    assert_eq!("".overlap_end(""), "");
}

#[test]
fn all_empty_end() {
    assert_eq!("".overlap_start(""), "");
}

#[test]
fn multi_byte_start() {
    assert_eq!("語a日bc本".overlap_start("b日本語a"), "語a");
}

#[test]
fn multi_byte_end() {
    assert_eq!("b日本語a".overlap_end("語a日bc本"), "語a");
}

#[test]
fn overlap_partial() {
    assert_eq!(overlap("abc", "bcd"), "bc");
}

#[test]
fn overlap_identical() {
    assert_eq!(overlap("abc", "abc"), "abc");
}

#[test]
fn overlap_disjoint() {
    assert_eq!(overlap("abc", "def"), "");
}

#[test]
fn overlap_right_is_suffix_of_left() {
    assert_eq!(overlap("abcd", "bcd"), "bcd");
}

#[test]
fn overlap_multi_byte() {
    assert_eq!(overlap("b日本語a", "語a日bc本"), "語a");
}

#[test]
fn overlap_each_direction() {
    assert_eq!(overlap("abcd", "cdab"), "cd");
    assert_eq!(overlap("cdab", "abcd"), "ab");
}

#[test]
fn overlap_prefers_longest() {
    assert_eq!(overlap("aaaa", "aaab"), "aaa");
    assert_eq!(overlap("abab", "ababx"), "abab");
}

#[test]
fn overlap_of_self_is_whole() {
    for s in ["", "a", "abc", "b日本語a", "ééé"] {
        assert_eq!(overlap(s, s), s);
        assert_eq!(s.overlap_start(s), s);
    }
}

#[test]
fn overlap_with_empty_is_empty() {
    for s in ["", "a", "語a"] {
        assert_eq!(overlap("", s), "");
        assert_eq!(overlap(s, ""), "");
    }
}

#[test]
fn overlap_is_bounded_suffix_and_prefix() {
    let pairs = [("abc", "bcd"), ("xyzab", "abx"), ("b日本語a", "語a日bc本"), ("aa", "aaaa")];
    for (l, r) in pairs {
        let o = overlap(l, r);
        assert!(o.len() <= l.len() && o.len() <= r.len());
        assert!(l.ends_with(o));
        assert!(r.starts_with(o));
    }
}

#[test]
fn index_of_partial_overlap() {
    assert_eq!(string_overlap_index("abc", "bcd"), 1);
}

#[test]
fn index_without_overlap_is_length() {
    assert_eq!(string_overlap_index("abc", "def"), 3);
    assert_eq!(string_overlap_index("", "def"), 0);
    assert_eq!(string_overlap_index("abc", ""), 3);
}

#[test]
fn index_counts_scalar_values() {
    assert_eq!(string_overlap_index("b日本語a", "語a日bc本"), 3);
    assert_eq!(string_overlap_index("日本", "本日"), 1);
}

#[test]
fn views_lie_inside_self() {
    let a = "xx語ab";
    let b = "abyy";
    let end = a.overlap_end(b);
    assert_eq!(end, "ab");
    let a_start = a.as_ptr() as usize;
    let a_stop = a_start + a.len();
    let e_start = end.as_ptr() as usize;
    assert!(a_start <= e_start && e_start + end.len() == a_stop);

    let c = "abzz";
    let d = "yyab";
    let start = c.overlap_start(d);
    assert_eq!(start, "ab");
    assert_eq!(start.as_ptr() as usize, c.as_ptr() as usize);
}

#[test]
fn multi_byte_views_are_whole_characters() {
    let l = "aé日本";
    let r = "é日本b";
    let o = overlap(l, r);
    assert_eq!(o, "é日本");
    assert!(std::str::from_utf8(o.as_bytes()).is_ok());
    assert_eq!(r.overlap_start(l), "é日本");
}

#[test]
fn works_through_string_deref() {
    let s = String::from("hello wor");
    let t = String::from("world");
    assert_eq!(s.overlap_end(&t), "wor");
    assert_eq!(t.overlap_start(&s), "wor");
}
