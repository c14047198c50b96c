use dms_config::domain::text::{i64_to_text, is_blank_str, join2, parse_u64, pop_char, push_char, trim, u64_to_text};
use dms_config::ui::popup::{centered_rect, Area};

#[test]
fn trimming_follows_unicode_whitespace() {
    assert_eq!(trim("  a b \t\n"), "a b");
    assert_eq!(trim("\u{3000}x\u{00A0}"), "x");
    assert_eq!(trim("   "), "");
    assert!(is_blank_str(" \t "));
    assert!(!is_blank_str(" x "));
}

#[test]
fn unsigned_parsing_matches_std() {
    for s in ["0", "42", "+7", "007", "18446744073709551615", "18446744073709551616", "", "+", "-1", "1_000", " 1"] {
        assert_eq!(parse_u64(s), s.parse::<u64>().ok(), "parsing {:?}", s);
    }
}

#[test]
fn decimal_rendering_matches_std() {
    for n in [0u64, 9, 10, 12345, u64::MAX] {
        assert_eq!(u64_to_text(n), n.to_string());
    }
    for n in [0i64, -1, 42, i64::MIN, i64::MAX] {
        assert_eq!(i64_to_text(n), n.to_string());
    }
}

#[test]
fn editing_a_string() {
    let mut s = join2("ab", "c");
    assert_eq!(s, "abc");
    push_char(&mut s, 'é');
    assert_eq!(s, "abcé");
    assert_eq!(pop_char(&mut s), Some('é'));
    assert_eq!(pop_char(&mut s), Some('c'));
    assert_eq!(s, "ab");
    let mut e = String::new();
    assert_eq!(pop_char(&mut e), None);
}

#[test]
fn popups_are_centred() {
    let screen = Area { x: 0, y: 0, width: 100, height: 50 };
    assert_eq!(centered_rect(60, 20, screen), Area { x: 20, y: 20, width: 60, height: 10 });
    let whole = centered_rect(100, 100, screen);
    assert_eq!(whole, screen);
    // Sides of (100 - 75) / 2 = 12 and (100 - 27) / 2 = 36 percent, rounded
    // to cells: 33 * 12 / 100 = 3.96, 33 * 87 / 100 = 28.71; 17 * 36 / 100 =
    // 6.12, 17 * 63 / 100 = 10.71.
    assert_eq!(
        centered_rect(75, 27, Area { x: 0, y: 0, width: 33, height: 17 }),
        Area { x: 4, y: 6, width: 25, height: 5 }
    );
    assert_eq!(
        centered_rect(50, 50, Area { x: 10, y: 2, width: 80, height: 40 }),
        Area { x: 30, y: 12, width: 40, height: 20 }
    );
    let small = Area { x: 3, y: 4, width: 7, height: 5 };
    let c = centered_rect(75, 27, small);
    assert!(c.x >= 3 && c.x + c.width <= 10 && c.y >= 4 && c.y + c.height <= 9);
}
