use passcodec::{
    Accessory0Index, Accessory1Index, Accessory2Index, Accessory3Index, ArmorIndex, Equipment,
    HelmIndex, ShoesIndex, WeaponIndex,
};

fn equip(values: [u8; 8]) -> Equipment {
    Equipment {
        helm: HelmIndex::new_unchecked(values[0]),
        weapon: WeaponIndex::new_unchecked(values[1]),
        armor: ArmorIndex::new_unchecked(values[2]),
        shoes: ShoesIndex::new_unchecked(values[3]),
        accessory0: Accessory0Index::new_unchecked(values[4]),
        accessory1: Accessory1Index::new_unchecked(values[5]),
        accessory2: Accessory2Index::new_unchecked(values[6]),
        accessory3: Accessory3Index::new_unchecked(values[7]),
    }
}

#[test]
fn normalize_keeps_in_range_indices() {
    let e = equip([2, 10, 9, 4, 2, 2, 1, 1]);
    assert_eq!(e.normalize(), e);
}

#[test]
fn normalize_clears_dead_zones() {
    let e = equip([3, 11, 10, 5, 3, 3, 0, 1]);
    assert_eq!(e.normalize(), equip([0, 0, 0, 0, 0, 0, 0, 1]));
    let e = equip([3, 12, 11, 6, 3, 3, 1, 0]);
    assert_eq!(e.normalize(), equip([0, 0, 0, 0, 0, 0, 1, 0]));
}

#[test]
fn normalize_aliases_into_later_categories() {
    // Weapon 13..=15 writes armor = value - 12.
    let e = equip([0, 14, 10, 5, 3, 3, 0, 0]);
    assert_eq!(e.normalize(), equip([0, 0, 2, 0, 0, 0, 0, 0]));
    // Armor 12..=15 writes shoes = value - 11.
    let e = equip([0, 11, 15, 5, 3, 3, 0, 0]);
    assert_eq!(e.normalize(), equip([0, 0, 0, 4, 0, 0, 0, 0]));
    // Shoes 7 writes accessory0 = 1.
    let e = equip([0, 11, 10, 7, 3, 3, 0, 0]);
    assert_eq!(e.normalize(), equip([0, 0, 0, 0, 1, 0, 0, 0]));
}

#[test]
fn normalize_later_rule_overwrites_alias() {
    // Weapon aliases into armor, but armor's own keep zone overwrites it.
    let e = equip([0, 15, 9, 5, 3, 3, 0, 0]);
    assert_eq!(e.normalize(), equip([0, 0, 9, 0, 0, 0, 0, 0]));
    // Armor's clear zone leaves the weapon alias in place.
    let e = equip([0, 15, 10, 5, 3, 3, 0, 0]);
    assert_eq!(e.normalize(), equip([0, 0, 3, 0, 0, 0, 0, 0]));
}

#[test]
fn normalize_is_idempotent() {
    let samples = [
        [3, 15, 15, 7, 3, 3, 1, 1],
        [2, 13, 12, 6, 0, 1, 0, 0],
        [1, 11, 10, 5, 3, 2, 1, 0],
        [0, 0, 0, 0, 0, 0, 0, 0],
    ];
    for values in samples {
        let once = equip(values).normalize();
        assert_eq!(once.normalize(), once);
    }
}
