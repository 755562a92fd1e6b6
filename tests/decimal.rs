use quickpg::decimal::{parse_decimal, parse_digits, render_decimal};

fn chars(s: &str) -> Vec<char> {
    s.chars().collect()
}

#[test]
fn render_decimal_values() {
    for (n, text) in [(0u32, "0"), (7, "7"), (10, "10"), (5432, "5432"), (u32::MAX, "4294967295")] {
        let mut out = vec!['x'];
        render_decimal(n, &mut out);
        let s: String = out.iter().collect();
        assert_eq!(s, format!("x{}", text));
    }
}

#[test]
fn parse_decimal_values() {
    let s = chars("a5432b");
    assert_eq!(parse_decimal(&s, 1, 5), Some(5432));
    assert_eq!(parse_decimal(&s, 1, 1), None);
    assert_eq!(parse_decimal(&s, 0, 5), None);
    assert_eq!(parse_decimal(&chars("0"), 0, 1), Some(0));
    assert_eq!(parse_decimal(&chars("012"), 0, 3), None);
    assert_eq!(parse_digits(&chars("012"), 0, 3), Some(12));
    assert_eq!(parse_decimal(&chars("4294967295"), 0, 10), Some(u32::MAX));
    assert_eq!(parse_decimal(&chars("4294967296"), 0, 10), None);
    assert_eq!(parse_digits(&chars("99999999999999999999"), 0, 20), None);
}
