use shortlink::ident::{new_owner_secret, new_slug, OWNER_SECRET_LEN, SLUG_LEN};

fn has_slug_shape(s: &str) -> bool {
    let chars: Vec<char> = s.chars().collect();
    if chars.len() != 36 {
        return false;
    }
    chars.iter().enumerate().all(|(i, c)| {
        if i == 8 || i == 13 || i == 18 || i == 23 {
            *c == '-'
        } else {
            c.is_ascii_digit() || ('a'..='f').contains(c)
        }
    })
}

#[test]
fn slug_has_hyphenated_hex_shape() {
    for _ in 0..50 {
        let s = new_slug();
        assert_eq!(s.len(), SLUG_LEN);
        assert!(has_slug_shape(&s), "bad slug {}", s);
    }
}

#[test]
fn slug_is_version_four() {
    let s = new_slug();
    assert_eq!(s.chars().nth(14), Some('4'));
}

#[test]
fn owner_secret_is_32_alphanumerics() {
    for _ in 0..50 {
        let s = new_owner_secret();
        assert_eq!(OWNER_SECRET_LEN, 32);
        assert_eq!(s.chars().count(), 32);
        assert!(s.chars().all(|c| c.is_ascii_alphanumeric()), "bad secret {}", s);
    }
}

#[test]
fn minted_values_differ_between_calls() {
    assert_ne!(new_slug(), new_slug());
    assert_ne!(new_owner_secret(), new_owner_secret());
}
