//! The structured game state that a password records, and the post-decode
//! normalization of its equipment indices.

use crate::bounded::BoundedU8;
use crate::storage::item_seq;
use crate::storage::items_get;
use crate::storage::items_len;
use crate::storage::items_new;
use crate::storage::items_push;
use vstd::prelude::*;

verus! {

/// Bank deposit (6 bits).
pub type Deposit = BoundedU8<0, 0x3F>;

/// Respawn point id (4 bits).
pub type RespawnId = BoundedU8<0, 0xF>;

/// Helm index (2 bits).
pub type HelmIndex = BoundedU8<0, 3>;

/// Weapon index (4 bits).
pub type WeaponIndex = BoundedU8<0, 0xF>;

/// Armor index (4 bits).
pub type ArmorIndex = BoundedU8<0, 0xF>;

/// Shoes index (3 bits).
pub type ShoesIndex = BoundedU8<0, 7>;

/// First accessory index (2 bits).
pub type Accessory0Index = BoundedU8<0, 3>;

/// Second accessory index (2 bits).
pub type Accessory1Index = BoundedU8<0, 3>;

/// Third accessory index (1 bit).
pub type Accessory2Index = BoundedU8<0, 1>;

/// Fourth accessory index (1 bit).
pub type Accessory3Index = BoundedU8<0, 1>;

/// Item id (nonzero, 6 bits).
pub type ItemId = BoundedU8<1, 0x3F>;

/// Which spells have been learned.
#[derive(Clone, Copy, Debug, PartialEq, Eq)]
pub struct Spells {
    pub kintan: bool,
    pub rokkaku: bool,
    pub inazuma: bool,
    pub hien: bool,
    pub mankintan: bool,
    pub fuyuu: bool,
    pub dadadidi: bool,
    pub houhi: bool,
}

impl Spells {
    /// The state with no spell learned.
    pub fn none() -> (r: Self)
        ensures
            r == (Spells {
                kintan: false,
                rokkaku: false,
                inazuma: false,
                hien: false,
                mankintan: false,
                fuyuu: false,
                dadadidi: false,
                houhi: false,
            }),
    {
        Spells {
            kintan: false,
            rokkaku: false,
            inazuma: false,
            hien: false,
            mankintan: false,
            fuyuu: false,
            dadadidi: false,
            houhi: false,
        }
    }

    /// The state with every spell learned.
    pub fn all() -> (r: Self)
        ensures
            r == (Spells {
                kintan: true,
                rokkaku: true,
                inazuma: true,
                hien: true,
                mankintan: true,
                fuyuu: true,
                dadadidi: true,
                houhi: true,
            }),
    {
        Spells {
            kintan: true,
            rokkaku: true,
            inazuma: true,
            hien: true,
            mankintan: true,
            fuyuu: true,
            dadadidi: true,
            houhi: true,
        }
    }
}

/// Which story events have been completed.
#[derive(Clone, Copy, Debug, PartialEq, Eq)]
pub struct Events {
    pub hanasaka: bool,
    pub kintaro: bool,
    pub urashima: bool,
    pub netaro: bool,
    pub murata: bool,
    pub sarukani: bool,
    pub dragon: bool,
    pub hohoemi: bool,
}

impl Events {
    /// The state with no event completed.
    pub fn none() -> (r: Self)
        ensures
            r == (Events {
                hanasaka: false,
                kintaro: false,
                urashima: false,
                netaro: false,
                murata: false,
                sarukani: false,
                dragon: false,
                hohoemi: false,
            }),
    {
        Events {
            hanasaka: false,
            kintaro: false,
            urashima: false,
            netaro: false,
            murata: false,
            sarukani: false,
            dragon: false,
            hohoemi: false,
        }
    }

    /// The state with every event completed.
    pub fn all() -> (r: Self)
        ensures
            r == (Events {
                hanasaka: true,
                kintaro: true,
                urashima: true,
                netaro: true,
                murata: true,
                sarukani: true,
                dragon: true,
                hohoemi: true,
            }),
    {
        Events {
            hanasaka: true,
            kintaro: true,
            urashima: true,
            netaro: true,
            murata: true,
            sarukani: true,
            dragon: true,
            hohoemi: true,
        }
    }
}

/// Which treasures are held.
#[derive(Clone, Copy, Debug, PartialEq, Eq)]
pub struct Treasures {
    pub dragon: bool,
    pub fur: bool,
    pub hotoke: bool,
    pub hourai: bool,
    pub swallow: bool,
}

impl Treasures {
    /// The state with no treasure held.
    pub fn none() -> (r: Self)
        ensures
            r == (Treasures {
                dragon: false,
                fur: false,
                hotoke: false,
                hourai: false,
                swallow: false,
            }),
    {
        Treasures { dragon: false, fur: false, hotoke: false, hourai: false, swallow: false }
    }

    /// The state with every treasure held.
    pub fn all() -> (r: Self)
        ensures
            r == (Treasures {
                dragon: true,
                fur: true,
                hotoke: true,
                hourai: true,
                swallow: true,
            }),
    {
        Treasures { dragon: true, fur: true, hotoke: true, hourai: true, swallow: true }
    }
}

/// Which minions accompany the hero.
#[derive(Clone, Copy, Debug, PartialEq, Eq)]
pub struct Minions {
    pub dog: bool,
    pub pheasant: bool,
    pub monkey: bool,
}

impl Minions {
    /// The state with no minion present.
    pub fn none() -> (r: Self)
        ensures
            r == (Minions { dog: false, pheasant: false, monkey: false }),
    {
        Minions { dog: false, pheasant: false, monkey: false }
    }

    /// The state with every minion present.
    pub fn all() -> (r: Self)
        ensures
            r == (Minions { dog: true, pheasant: true, monkey: true }),
    {
        Minions { dog: true, pheasant: true, monkey: true }
    }
}

/// Which places are bookmarked for the flight spell.
#[derive(Clone, Copy, Debug, PartialEq, Eq)]
pub struct Bookmarks {
    pub tabidachi: bool,
    pub hanasaka: bool,
    pub kintaro: bool,
    pub urashima: bool,
    pub netaro: bool,
    pub kibou: bool,
    pub sarukani: bool,
    pub taketori: bool,
    pub hohoemi: bool,
    pub hien: bool,
}

impl Bookmarks {
    /// The state with no place bookmarked.
    pub fn none() -> (r: Self)
        ensures
            r == (Bookmarks {
                tabidachi: false,
                hanasaka: false,
                kintaro: false,
                urashima: false,
                netaro: false,
                kibou: false,
                sarukani: false,
                taketori: false,
                hohoemi: false,
                hien: false,
            }),
    {
        Bookmarks {
            tabidachi: false,
            hanasaka: false,
            kintaro: false,
            urashima: false,
            netaro: false,
            kibou: false,
            sarukani: false,
            taketori: false,
            hohoemi: false,
            hien: false,
        }
    }

    /// The state with every place bookmarked.
    pub fn all() -> (r: Self)
        ensures
            r == (Bookmarks {
                tabidachi: true,
                hanasaka: true,
                kintaro: true,
                urashima: true,
                netaro: true,
                kibou: true,
                sarukani: true,
                taketori: true,
                hohoemi: true,
                hien: true,
            }),
    {
        Bookmarks {
            tabidachi: true,
            hanasaka: true,
            kintaro: true,
            urashima: true,
            netaro: true,
            kibou: true,
            sarukani: true,
            taketori: true,
            hohoemi: true,
            hien: true,
        }
    }
}

/// The equipment indices as plain values, for contracts.
pub ghost struct EquipmentView {
    pub helm: u8,
    pub weapon: u8,
    pub armor: u8,
    pub shoes: u8,
    pub accessory0: u8,
    pub accessory1: u8,
    pub accessory2: u8,
    pub accessory3: u8,
}

impl EquipmentView {
    /// Every index fits its declared bit width.
    pub open spec fn wf(self) -> bool {
        &&& self.helm <= 3
        &&& self.weapon <= 0xF
        &&& self.armor <= 0xF
        &&& self.shoes <= 7
        &&& self.accessory0 <= 3
        &&& self.accessory1 <= 3
        &&& self.accessory2 <= 1
        &&& self.accessory3 <= 1
    }

    /// The normalization cascade that the game applies when it loads the
    /// decoded equipment. Categories run in the fixed order helm, weapon,
    /// armor, shoes, accessory0, accessory1 over an output that starts all
    /// zero: a value in its keep zone is copied, a value in its clear zone
    /// leaves the output field as previously set, and an alias value
    /// overwrites a later category's output field; that later category's
    /// own rule still runs afterwards and may overwrite the alias.
    pub open spec fn normalize(self) -> EquipmentView {
        let r = EquipmentView {
            helm: 0,
            weapon: 0,
            armor: 0,
            shoes: 0,
            accessory0: 0,
            accessory1: 0,
            accessory2: self.accessory2,
            accessory3: self.accessory3,
        };
        let r = if self.helm <= 2 {
            EquipmentView { helm: self.helm, ..r }
        } else {
            r
        };
        let r = if self.weapon <= 10 {
            EquipmentView { weapon: self.weapon, ..r }
        } else if 13 <= self.weapon {
            EquipmentView { armor: (self.weapon - 12) as u8, ..r }
        } else {
            r
        };
        let r = if self.armor <= 9 {
            EquipmentView { armor: self.armor, ..r }
        } else if 12 <= self.armor {
            EquipmentView { shoes: (self.armor - 11) as u8, ..r }
        } else {
            r
        };
        let r = if self.shoes <= 4 {
            EquipmentView { shoes: self.shoes, ..r }
        } else if self.shoes == 7 {
            EquipmentView { accessory0: 1, ..r }
        } else {
            r
        };
        let r = if self.accessory0 <= 2 {
            EquipmentView { accessory0: self.accessory0, ..r }
        } else {
            r
        };
        let r = if self.accessory1 <= 2 {
            EquipmentView { accessory1: self.accessory1, ..r }
        } else {
            r
        };
        r
    }

    /// Normalization is a projection: applying it twice gives the same
    /// state as applying it once.
    pub proof fn lemma_normalize_idempotent(self)
        requires
            self.wf(),
        ensures
            self.normalize().normalize() == self.normalize(),
            self.normalize().wf(),
    {
    }
}

/// The equipped items, one index per category.
#[derive(Clone, Copy, Debug, PartialEq, Eq)]
pub struct Equipment {
    pub helm: HelmIndex,
    pub weapon: WeaponIndex,
    pub armor: ArmorIndex,
    pub shoes: ShoesIndex,
    pub accessory0: Accessory0Index,
    pub accessory1: Accessory1Index,
    pub accessory2: Accessory2Index,
    pub accessory3: Accessory3Index,
}

impl View for Equipment {
    type V = EquipmentView;

    open spec fn view(&self) -> EquipmentView {
        EquipmentView {
            helm: self.helm.spec_get(),
            weapon: self.weapon.spec_get(),
            armor: self.armor.spec_get(),
            shoes: self.shoes.spec_get(),
            accessory0: self.accessory0.spec_get(),
            accessory1: self.accessory1.spec_get(),
            accessory2: self.accessory2.spec_get(),
            accessory3: self.accessory3.spec_get(),
        }
    }
}

impl Equipment {
    /// Every index is within its declared range.
    pub open spec fn wf(self) -> bool {
        &&& self.helm.wf()
        &&& self.weapon.wf()
        &&& self.armor.wf()
        &&& self.shoes.wf()
        &&& self.accessory0.wf()
        &&& self.accessory1.wf()
        &&& self.accessory2.wf()
        &&& self.accessory3.wf()
    }

    /// Returns the equipment as the game loads it, with out-of-range
    /// indices cleared or aliased into other categories.
    pub fn normalize(&self) -> (r: Self)
        requires
            self.wf(),
        ensures
            r.wf(),
            r@ == self@.normalize(),
    {
        let mut res = Equipment {
            helm: HelmIndex::new_unchecked(0),
            weapon: WeaponIndex::new_unchecked(0),
            armor: ArmorIndex::new_unchecked(0),
            shoes: ShoesIndex::new_unchecked(0),
            accessory0: Accessory0Index::new_unchecked(0),
            accessory1: Accessory1Index::new_unchecked(0),
            accessory2: self.accessory2,
            accessory3: self.accessory3,
        };

        let helm = self.helm.get();
        if helm <= 2 {
            res.helm = self.helm;
        }

        let weapon = self.weapon.get();
        if weapon <= 10 {
            res.weapon = self.weapon;
        } else if 13 <= weapon {
            res.armor = ArmorIndex::new_unchecked(weapon - 12);
        }

        let armor = self.armor.get();
        if armor <= 9 {
            res.armor = self.armor;
        } else if 12 <= armor {
            res.shoes = ShoesIndex::new_unchecked(armor - 11);
        }

        let shoes = self.shoes.get();
        if shoes <= 4 {
            res.shoes = self.shoes;
        } else if shoes == 7 {
            res.accessory0 = Accessory0Index::new_unchecked(1);
        }

        let accessory0 = self.accessory0.get();
        if accessory0 <= 2 {
            res.accessory0 = self.accessory0;
        }

        let accessory1 = self.accessory1.get();
        if accessory1 <= 2 {
            res.accessory1 = self.accessory1;
        }

        res
    }
}

/// The held items: up to 8 nonzero six-bit ids, in held order. Its view
/// is the sequence of id values.
#[derive(Debug, PartialEq, Eq)]
pub struct Inventory {
    items: arrayvec::ArrayVec<u8, 8>,
}

impl View for Inventory {
    type V = Seq<u8>;

    closed spec fn view(&self) -> Seq<u8> {
        item_seq(self.items)
    }
}

impl Inventory {
    /// At most 8 items, each a nonzero six-bit id.
    pub open spec fn wf(self) -> bool {
        &&& self@.len() <= 8
        &&& forall|i: int| 0 <= i < self@.len() ==> 1 <= #[trigger] self@[i] <= 0x3F
    }

    /// Returns an empty inventory.
    pub fn new() -> (r: Self)
        ensures
            r.wf(),
            r@ == Seq::<u8>::empty(),
    {
        Inventory { items: items_new() }
    }

    /// Appends one item.
    pub fn push(&mut self, item: ItemId)
        requires
            old(self).wf(),
            old(self)@.len() < 8,
            item.wf(),
        ensures
            final(self).wf(),
            final(self)@ == old(self)@.push(item.spec_get()),
    {
        items_push(&mut self.items, item.get());
    }

    /// Returns the number of held items.
    pub fn len(&self) -> (r: usize)
        ensures
            r == self@.len(),
    {
        items_len(&self.items)
    }

    /// Returns whether all 8 slots are held.
    pub fn is_full(&self) -> (r: bool)
        ensures
            r == (self@.len() == 8),
    {
        self.len() == 8
    }

    /// Returns the id value at position `i`.
    pub fn item_at(&self, i: usize) -> (r: u8)
        requires
            i < self@.len(),
        ensures
            r == self@[i as int],
    {
        items_get(&self.items, i)
    }
}

impl Clone for Inventory {
    /// Returns an inventory holding the same ids in the same order.
    fn clone(&self) -> (r: Self)
        ensures
            r@ == self@,
    {
        let n = items_len(&self.items);
        let mut items = items_new();
        let mut i: usize = 0;
        while i < n
            invariant
                i <= n == self@.len() <= 8,
                item_seq(items) == self@.take(i as int),
            decreases n - i,
        {
            items_push(&mut items, items_get(&self.items, i));
            proof {
                assert(item_seq(items) =~= self@.take(i + 1));
            }
            i += 1;
        }
        proof {
            assert(self@.take(n as int) =~= self@);
        }
        Inventory { items }
    }
}

/// The whole game state as plain values, for contracts.
pub ghost struct SavedataView {
    pub xp: u16,
    pub purse: u16,
    pub deposit: u8,
    pub age: u8,
    pub age_timer_hi: u8,
    pub spells: Spells,
    pub events: Events,
    pub treasures: Treasures,
    pub minions: Minions,
    pub bookmarks: Bookmarks,
    pub respawn: u8,
    pub equipment: EquipmentView,
    pub inventory: Seq<u8>,
}

impl SavedataView {
    /// Every ranged field fits its declared bit width.
    pub open spec fn wf(self) -> bool {
        &&& self.deposit <= 0x3F
        &&& self.respawn <= 0xF
        &&& self.equipment.wf()
        &&& self.inventory.len() <= 8
        &&& forall|i: int| 0 <= i < self.inventory.len() ==> 1 <= #[trigger] self.inventory[i] <= 0x3F
    }

    /// The state as the game loads it: the equipment normalized, all
    /// other fields unchanged.
    pub open spec fn normalize(self) -> SavedataView {
        SavedataView { equipment: self.equipment.normalize(), ..self }
    }

    /// Normalization of the whole state is a projection: applying it
    /// twice gives the same state as applying it once.
    pub proof fn lemma_normalize_idempotent(self)
        requires
            self.wf(),
        ensures
            self.normalize().normalize() == self.normalize(),
            self.normalize().wf(),
    {
        self.equipment.lemma_normalize_idempotent();
    }
}

/// The game state that a password records.
#[derive(Debug, PartialEq, Eq)]
pub struct Savedata {
    /// Experience points.
    pub xp: u16,
    /// Money in the purse.
    pub purse: u16,
    /// Money in the bank.
    pub deposit: Deposit,
    /// The hero's age.
    pub age: u8,
    /// High byte of the aging timer.
    pub age_timer_hi: u8,
    /// Learned spells.
    pub spells: Spells,
    /// Completed story events.
    pub events: Events,
    /// Held treasures.
    pub treasures: Treasures,
    /// Accompanying minions.
    pub minions: Minions,
    /// Bookmarked places.
    pub bookmarks: Bookmarks,
    /// Respawn point id.
    pub respawn: RespawnId,
    /// Equipped items.
    pub equipment: Equipment,
    /// Held items.
    pub inventory: Inventory,
}

impl View for Savedata {
    type V = SavedataView;

    open spec fn view(&self) -> SavedataView {
        SavedataView {
            xp: self.xp,
            purse: self.purse,
            deposit: self.deposit.spec_get(),
            age: self.age,
            age_timer_hi: self.age_timer_hi,
            spells: self.spells,
            events: self.events,
            treasures: self.treasures,
            minions: self.minions,
            bookmarks: self.bookmarks,
            respawn: self.respawn.spec_get(),
            equipment: self.equipment@,
            inventory: self.inventory@,
        }
    }
}

impl Savedata {
    /// Every ranged field is within its declared range.
    pub open spec fn wf(self) -> bool {
        &&& self.deposit.wf()
        &&& self.respawn.wf()
        &&& self.equipment.wf()
        &&& self.inventory.wf()
    }

    /// Returns the state as the game loads it: out-of-range equipment
    /// indices are cleared or aliased, everything else is unchanged.
    pub fn normalize(&self) -> (r: Self)
        requires
            self.wf(),
        ensures
            r.wf(),
            r@ == self@.normalize(),
    {
        Savedata {
            xp: self.xp,
            purse: self.purse,
            deposit: self.deposit,
            age: self.age,
            age_timer_hi: self.age_timer_hi,
            spells: self.spells,
            events: self.events,
            treasures: self.treasures,
            minions: self.minions,
            bookmarks: self.bookmarks,
            respawn: self.respawn,
            equipment: self.equipment.normalize(),
            inventory: self.inventory.clone(),
        }
    }
}

} // verus!
