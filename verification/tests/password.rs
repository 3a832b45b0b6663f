use passcodec::{Password, PasswordChar, PasswordParseError};

fn chars_of(p: &Password) -> Vec<PasswordChar> {
    p.to_chars()
}

#[test]
fn test_password_new() {
    let p = Password::new(&[PasswordChar::A]).unwrap();
    assert_eq!(chars_of(&p), vec![PasswordChar::A]);

    let p = Password::new(&[PasswordChar::Po; 38]).unwrap();
    assert_eq!(chars_of(&p), vec![PasswordChar::Po; 38]);

    assert!(Password::new(&[]).is_none());
    assert!(Password::new(&[PasswordChar::A; 39]).is_none());
}

#[test]
fn test_password_parse() {
    let p = Password::parse("ふ").unwrap();
    assert_eq!(chars_of(&p), vec![PasswordChar::Hu]);

    let p = Password::parse("おにのばか").unwrap();
    assert_eq!(
        chars_of(&p),
        vec![
            PasswordChar::O,
            PasswordChar::Ni,
            PasswordChar::No,
            PasswordChar::Ba,
            PasswordChar::Ka,
        ]
    );

    assert_eq!(Password::parse(""), Err(PasswordParseError::InvalidLength));
    assert_eq!(
        Password::parse(&"あ".repeat(39)),
        Err(PasswordParseError::InvalidLength)
    );
    assert_eq!(
        Password::parse("あいう?えお"),
        Err(PasswordParseError::InvalidChar { pos: 3, ch: '?' })
    );
}

#[test]
fn test_password_display() {
    assert_eq!(
        Password::new(&[PasswordChar::A, PasswordChar::Ba, PasswordChar::Po])
            .unwrap()
            .display(),
        "あばぽ"
    );
}

#[test]
fn test_password_display_pretty() {
    assert_eq!(Password::parse("あ").unwrap().display_pretty(), "あ");
    assert_eq!(
        Password::parse("あああああ").unwrap().display_pretty(),
        "あああああ"
    );
    assert_eq!(
        Password::parse("あああああいいいいいいい")
            .unwrap()
            .display_pretty(),
        "あああああ いいいいいいい"
    );
    assert_eq!(
        Password::parse("あああああいいいいいいいううううう")
            .unwrap()
            .display_pretty(),
        "あああああ いいいいいいい ううううう"
    );
    assert_eq!(
        Password::parse("あああああいいいいいいいうううううえええええええ")
            .unwrap()
            .display_pretty(),
        "あああああ いいいいいいい ううううう えええええええ"
    );
    assert_eq!(
        Password::parse("あああああいいいいいいいうううううえええええええおおおおおおお")
            .unwrap()
            .display_pretty(),
        "あああああ いいいいいいい ううううう えええええええ おおおおおおお"
    );
    assert_eq!(
        Password::parse(
            "あああああいいいいいいいうううううえええええええおおおおおおおかかかかかかか"
        )
        .unwrap()
        .display_pretty(),
        "あああああ いいいいいいい ううううう えええええええ おおおおおおお かかかかかかか"
    );
}

#[test]
fn test_password_display_hex() {
    assert_eq!(Password::parse("あばぽ").unwrap().display_hex(), "00 36 3F");
}

#[test]
fn test_password_is_invalid_second_char() {
    for pc0 in PasswordChar::all() {
        for pc1 in PasswordChar::all() {
            let password = Password::new(&[pc0, pc1]).unwrap();
            let bytes = passcodec::SerializedBytes::from_password(&password);
            let checksum = bytes.checksum_embed();
            let naive = (checksum.sum_add().get() % 2) != (checksum.sum_xor().get() % 2);
            assert_eq!(Password::is_invalid_second_char(pc1), naive);
        }
    }
}

#[test]
fn test_password_is_special() {
    assert!(Password::parse("す").unwrap().is_special());
    assert!(Password::parse("すべてのき").unwrap().is_special());
    assert!(Password::parse("すべてのきよくがききたいな").unwrap().is_special());
    assert!(Password::parse("すべてのてき").unwrap().is_special());
    assert!(Password::parse("すべてのてきがみたいな").unwrap().is_special());

    assert!(!Password::parse("あ").unwrap().is_special());
    assert!(!Password::parse("すべてのきよくがききたいなあ").unwrap().is_special());
    assert!(!Password::parse("すべてのてきがみたいなあ").unwrap().is_special());
}

#[test]
fn alphabet_bijection() {
    let all = PasswordChar::all();
    assert_eq!(all.len(), 64);
    for (i, pc) in all.iter().enumerate() {
        assert_eq!(pc.to_inner(), i as u8);
        assert_eq!(PasswordChar::from_char(pc.to_char()), Some(*pc));
        assert_eq!(PasswordChar::from_inner(pc.to_inner()), Some(*pc));
    }
    assert_eq!(PasswordChar::from_inner(64), None);
    assert_eq!(PasswordChar::from_char('?'), None);
}
