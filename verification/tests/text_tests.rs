use pslinkb::text::{
    chars_of, digits_only, equals_ignore_case, find_in, find_str, parse_i64_range, parse_u64_range, push_i64, push_u64,
    split_ranges, split_str_ranges, starts_with, strip_range, trim_range,
};

fn cs(s: &str) -> Vec<char> {
    chars_of(s)
}

fn pieces(s: &str, r: &[(usize, usize)]) -> Vec<String> {
    let v: Vec<char> = s.chars().collect();
    r.iter().map(|&(a, b)| v[a..b].iter().collect()).collect()
}

#[test]
fn decimal_writing() {
    let mut s = String::from("n=");
    push_u64(&mut s, 0);
    push_u64(&mut s, 1234567890);
    assert_eq!(s, "n=01234567890");
    let mut t = String::new();
    push_i64(&mut t, i64::MIN);
    assert_eq!(t, i64::MIN.to_string());
    let mut u = String::new();
    push_u64(&mut u, u64::MAX);
    assert_eq!(u, u64::MAX.to_string());
}

#[test]
fn integer_reading_matches_std() {
    for s in ["0", "42", "-7", "+5", "", "-", "12a", "18446744073709551615", "18446744073709551616", "-9223372036854775808", "9223372036854775808"] {
        let v = cs(s);
        assert_eq!(parse_u64_range(&v, 0, v.len()), s.parse::<u64>().ok(), "u64 {s}");
        assert_eq!(parse_i64_range(&v, 0, v.len()), s.parse::<i64>().ok(), "i64 {s}");
    }
}

#[test]
fn splitting_and_trimming() {
    let s = "a;;b;";
    assert_eq!(pieces(s, &split_ranges(&cs(s), ';')), vec!["a", "", "b", ""]);
    let t = "x; y; z";
    assert_eq!(pieces(t, &split_str_ranges(&cs(t), "; ")), vec!["x", "y", "z"]);
    let w = "  mid dle \t";
    let (a, b) = trim_range(&cs(w), 0, w.chars().count());
    assert_eq!(pieces(w, &[(a, b)]), vec!["mid dle"]);
    let q = "''\"v\"''";
    let (a, b) = strip_range(&cs(q), '\'', 0, q.chars().count());
    assert_eq!(pieces(q, &[(a, b)]), vec!["\"v\""]);
}

#[test]
fn searching() {
    let v = cs("key=value=x");
    assert_eq!(find_in(&v, '=', 0, v.len()), 3);
    assert_eq!(find_in(&v, '#', 0, v.len()), v.len());
    assert_eq!(find_str(&v, "value"), Some(4));
    assert_eq!(find_str(&v, "nope"), None);
    assert!(starts_with(&v, "key"));
    assert!(!starts_with(&v, "value"));
    assert!(digits_only(&cs("0123"), 0, 4));
    assert!(!digits_only(&cs("01a3"), 0, 4));
    assert!(equals_ignore_case(&cs("MaNuAl"), "manual"));
    assert!(!equals_ignore_case(&cs("manua"), "manual"));
}
