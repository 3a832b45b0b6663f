//! Codec for a legacy game's password save system: a 64-symbol syllabic
//! alphabet, a reversible cipher over symbol buffers, an additive/XOR
//! checksum, bit-level packing of the game state, and the post-decode
//! equipment normalization.

pub mod bits;
pub mod bounded;
pub mod checksum;
pub mod password;
pub mod savedata;
pub mod serialized;
mod storage;

pub use bits::SerializedBits;
pub use bounded::BoundedIntegerParseError;
pub use bounded::BoundedU8;
pub use checksum::Checksum;
pub use checksum::ChecksumAdd;
pub use checksum::ChecksumXor;
pub use password::Password;
pub use password::PasswordChar;
pub use password::PasswordParseError;
pub use savedata::Accessory0Index;
pub use savedata::Accessory1Index;
pub use savedata::Accessory2Index;
pub use savedata::Accessory3Index;
pub use savedata::ArmorIndex;
pub use savedata::Bookmarks;
pub use savedata::Deposit;
pub use savedata::Equipment;
pub use savedata::EquipmentView;
pub use savedata::Events;
pub use savedata::HelmIndex;
pub use savedata::Inventory;
pub use savedata::ItemId;
pub use savedata::Minions;
pub use savedata::RespawnId;
pub use savedata::Savedata;
pub use savedata::SavedataView;
pub use savedata::ShoesIndex;
pub use savedata::Spells;
pub use savedata::Treasures;
pub use savedata::WeaponIndex;
pub use serialized::SerializedByte;
pub use serialized::SerializedBytes;
