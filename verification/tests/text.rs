use shortwave::text::parse_u32;

fn parse(s: &str) -> Option<u32> {
    let v: Vec<char> = s.chars().collect();
    parse_u32(&v, 0, v.len())
}

#[test]
fn parses_like_str_parse() {
    for s in ["0", "007", "+12", "4294967295", "4294967296", "", "+", "-1", "1 2", "12a", " 1"] {
        assert_eq!(parse(s), s.parse::<u32>().ok(), "{:?}", s);
    }
}

#[test]
fn parses_a_slice() {
    let v: Vec<char> = "pid=42;".chars().collect();
    assert_eq!(parse_u32(&v, 4, 6), Some(42));
    assert_eq!(parse_u32(&v, 3, 6), None);
}
