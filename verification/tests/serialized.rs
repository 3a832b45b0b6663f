use passcodec::{
    Accessory0Index, Accessory1Index, Accessory2Index, Accessory3Index, ArmorIndex, Bookmarks,
    Deposit, Equipment, Events, HelmIndex, Inventory, ItemId, Minions, Password, RespawnId,
    Savedata, SerializedByte, SerializedBytes, ShoesIndex, Spells, Treasures, WeaponIndex,
};

fn bytes_of(b: &SerializedBytes) -> Vec<u8> {
    let mut out = Vec::new();
    let mut i = 0;
    while i < b.len() {
        out.push(b.byte_at(i));
        i += 1;
    }
    out
}

#[test]
fn test_bytes_new() {
    let min = SerializedByte::new_unchecked(0);
    let max = SerializedByte::new_unchecked(0x3F);

    let b = SerializedBytes::new(&[min]).unwrap();
    assert_eq!(bytes_of(&b), vec![0]);

    let b = SerializedBytes::new(&[min, max]).unwrap();
    assert_eq!(bytes_of(&b), vec![0, 0x3F]);

    let b = SerializedBytes::new(&[min; 38]).unwrap();
    assert_eq!(bytes_of(&b), vec![0; 38]);

    assert!(SerializedBytes::new(&[]).is_none());
    assert!(SerializedBytes::new(&[min; 39]).is_none());
}

#[test]
fn test_bytes_password_roundtrip() {
    for s in ["あ", "す", "ふ", "おにのばか", "すべてのてきがみたいな"] {
        let password_orig = Password::parse(s).unwrap();
        let bytes = SerializedBytes::from_password(&password_orig);
        let password = bytes.to_password();
        assert_eq!(password, password_orig);
    }
}

#[test]
fn buffer_cipher_roundtrip() {
    let raw: Vec<SerializedByte> = [0u8, 63, 17, 4, 59, 30, 1]
        .iter()
        .map(|&v| SerializedByte::new_unchecked(v))
        .collect();
    let bytes = SerializedBytes::new(&raw).unwrap();
    let password = bytes.to_password();
    let back = SerializedBytes::from_password(&password);
    assert_eq!(back, bytes);
}

#[test]
fn test_bytes_checksum() {
    let f = |s: &str| SerializedBytes::from_password(&Password::parse(s).unwrap());

    assert!(f("ふ").checksum_is_ok());
    assert!(f("おにのばか").checksum_is_ok());

    assert!(!f("あ").checksum_is_ok());
    assert!(!f("ああああ").checksum_is_ok());
}

fn full_inventory() -> Inventory {
    let mut inventory = Inventory::new();
    for _ in 0..8 {
        inventory.push(ItemId::new_unchecked(0x3F));
    }
    inventory
}

#[test]
fn test_load_fu() {
    let bytes = SerializedBytes::from_password(&Password::parse("ふ").unwrap());
    let savedata = bytes.to_savedata().unwrap();

    assert_eq!(
        savedata,
        Savedata {
            xp: 0xFFFF,
            purse: 0xFFFF,
            deposit: Deposit::new_unchecked(0x3F),
            age: 0xFF,
            age_timer_hi: 0xFF,
            spells: Spells::all(),
            events: Events::all(),
            treasures: Treasures::all(),
            minions: Minions::all(),
            bookmarks: Bookmarks::all(),
            respawn: RespawnId::new_unchecked(0xF),
            equipment: Equipment {
                helm: HelmIndex::new_unchecked(3),
                weapon: WeaponIndex::new_unchecked(0xF),
                armor: ArmorIndex::new_unchecked(0xF),
                shoes: ShoesIndex::new_unchecked(7),
                accessory0: Accessory0Index::new_unchecked(3),
                accessory1: Accessory1Index::new_unchecked(3),
                accessory2: Accessory2Index::new_unchecked(1),
                accessory3: Accessory3Index::new_unchecked(1),
            },
            inventory: full_inventory(),
        }
    );
}

#[test]
fn test_load_various_len() {
    assert!(
        SerializedBytes::from_password(&Password::parse("いいいいいいいいいいあえす").unwrap())
            .to_savedata()
            .is_some()
    );
    assert!(SerializedBytes::from_password(
        &Password::parse(
            "いいいいいいいいいいいいいいいいいいいいいいいいいいいいいいいいいいいえいた",
        )
        .unwrap(),
    )
    .to_savedata()
    .is_some());
}

#[test]
fn test_save() {
    let bytes = SerializedBytes::from_password(&Password::parse("ふ").unwrap());
    let savedata = bytes.to_savedata().unwrap().normalize();
    let bytes = SerializedBytes::from_savedata(&savedata);
    let password = bytes.to_password();

    assert_eq!(
        password.display(),
        "おしぼひまきびねとしぼひまきびねとひげがけちめいかほがすざ"
    );
}

#[test]
fn save_display_pretty_groups() {
    let bytes = SerializedBytes::from_password(&Password::parse("ふ").unwrap());
    let savedata = bytes.to_savedata().unwrap().normalize();
    let password = SerializedBytes::from_savedata(&savedata).to_password();

    assert_eq!(
        password.display_pretty(),
        "おしぼひま きびねとしぼひ まきびねと ひげがけちめい かほがすざ"
    );
}

#[test]
fn savedata_roundtrip_short_inventory() {
    let mut inventory = Inventory::new();
    inventory.push(ItemId::new_unchecked(5));
    inventory.push(ItemId::new_unchecked(20));

    let savedata = Savedata {
        xp: 1234,
        purse: 0xABCD,
        deposit: Deposit::new_unchecked(21),
        age: 18,
        age_timer_hi: 7,
        spells: Spells {
            hien: true,
            ..Spells::none()
        },
        events: Events {
            netaro: true,
            hohoemi: true,
            ..Events::none()
        },
        treasures: Treasures::none(),
        minions: Minions {
            dog: true,
            ..Minions::none()
        },
        bookmarks: Bookmarks {
            tabidachi: true,
            hien: true,
            ..Bookmarks::none()
        },
        respawn: RespawnId::new_unchecked(9),
        equipment: Equipment {
            helm: HelmIndex::new_unchecked(1),
            weapon: WeaponIndex::new_unchecked(4),
            armor: ArmorIndex::new_unchecked(2),
            shoes: ShoesIndex::new_unchecked(3),
            accessory0: Accessory0Index::new_unchecked(0),
            accessory1: Accessory1Index::new_unchecked(2),
            accessory2: Accessory2Index::new_unchecked(1),
            accessory3: Accessory3Index::new_unchecked(0),
        },
        inventory,
    };

    let bytes = SerializedBytes::from_savedata(&savedata);
    assert!(bytes.checksum_is_ok());
    let back = bytes.to_savedata().unwrap();
    assert_eq!(back, savedata);

    let password = bytes.to_password();
    let reparsed = Password::parse(&password.display()).unwrap();
    let decoded = SerializedBytes::from_password(&reparsed).to_savedata().unwrap();
    assert_eq!(decoded, savedata);
}

#[test]
fn even_second_symbol_fails_validation() {
    // Second glyph あ has symbol value 0, which is even: no extension of
    // such a prefix is ever checksum-valid.
    for tail in ["", "か", "かき", "かきくけこ"] {
        let text = format!("すあ{tail}");
        let password = Password::parse(&text).unwrap();
        assert!(!password.is_valid());
    }
    assert!(Password::is_invalid_second_char(passcodec::PasswordChar::A));
}
