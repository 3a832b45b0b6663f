//! The deciphered symbol buffer: the reversible cipher between it and a
//! password, the checksum held in its first two symbols, and the bit-level
//! packing between it and the structured game state.

use crate::bits::be_bits;
use crate::bits::be_val;
use crate::bits::bit_of;
use crate::bits::ones;
use crate::bits::zeros;
use crate::bits::SerializedBits;
use crate::bounded::BoundedU8;
use crate::checksum::Checksum;
use crate::checksum::ChecksumAdd;
use crate::checksum::ChecksumXor;
use crate::password::Password;
use crate::savedata::Accessory0Index;
use crate::savedata::Accessory1Index;
use crate::savedata::Accessory2Index;
use crate::savedata::Accessory3Index;
use crate::savedata::ArmorIndex;
use crate::savedata::Bookmarks;
use crate::savedata::Deposit;
use crate::savedata::Equipment;
use crate::savedata::EquipmentView;
use crate::savedata::Events;
use crate::savedata::HelmIndex;
use crate::savedata::Inventory;
use crate::savedata::ItemId;
use crate::savedata::Minions;
use crate::savedata::RespawnId;
use crate::savedata::Savedata;
use crate::savedata::SavedataView;
use crate::savedata::ShoesIndex;
use crate::savedata::Spells;
use crate::savedata::Treasures;
use crate::savedata::WeaponIndex;
use crate::storage::buf_get;
use crate::storage::buf_len;
use crate::storage::buf_new;
use crate::storage::buf_push;
use crate::storage::buf_seq;
use crate::storage::buf_set;
use vstd::prelude::*;

verus! {

/// One element of a serialized buffer: a six-bit value.
pub type SerializedByte = BoundedU8<0, 0x3F>;

/// The cipher's additive table, indexed by buffer position mod 4.
pub open spec fn cipher_add(i: int) -> u8 {
    if i % 4 == 0 {
        0x05
    } else if i % 4 == 1 {
        0x19
    } else if i % 4 == 2 {
        0x32
    } else {
        0x21
    }
}

/// One symbol of the deciphered buffer: the password symbol XORed with its
/// predecessor (with 0x1F for the first symbol), then lowered by the table
/// value mod 64.
pub open spec fn decode_sym(p: Seq<u8>, i: int) -> u8
    recommends
        0 <= i < p.len(),
{
    let x = if i == 0 {
        p[0] ^ 0x1F
    } else {
        p[i] ^ p[i - 1]
    };
    ((x + 64 - cipher_add(i)) % 64) as u8
}

/// The whole deciphered buffer of a password: deciphering never fails and
/// keeps the length.
pub open spec fn spec_decode(p: Seq<u8>) -> Seq<u8> {
    Seq::new(p.len(), |i: int| decode_sym(p, i))
}

/// A buffer symbol raised by the table value mod 64, and XORed with 0x1F
/// at the first position: the enciphered symbol before the XOR chain.
pub open spec fn encode_pre(b: Seq<u8>, i: int) -> u8
    recommends
        0 <= i < b.len(),
{
    let a = (((b[i] + cipher_add(i)) % 64) as u8);
    if i == 0 {
        a ^ 0x1F
    } else {
        a
    }
}

/// One symbol of the enciphered password: the XOR chain folds each raised
/// symbol into its already-enciphered predecessor.
pub open spec fn encode_sym(b: Seq<u8>, i: int) -> u8
    recommends
        0 <= i < b.len(),
    decreases i,
{
    if i <= 0 {
        encode_pre(b, 0)
    } else {
        encode_pre(b, i) ^ encode_sym(b, i - 1)
    }
}

/// The whole enciphered password of a buffer: the exact inverse of
/// `spec_decode`, applied in reverse sub-step order.
pub open spec fn spec_encode(b: Seq<u8>) -> Seq<u8> {
    Seq::new(b.len(), |i: int| encode_sym(b, i))
}

/// The XOR of two six-bit values is a six-bit value.
proof fn lemma_xor_bound(a: u8, b: u8)
    requires
        a < 64,
        b < 64,
    ensures
        a ^ b < 64,
{
    assert(a < 64 && b < 64 ==> (a ^ b) < 64) by (bit_vector);
}

/// XOR by the same value twice returns the original value.
proof fn lemma_xor_cancel(a: u8, b: u8)
    ensures
        (a ^ b) ^ b == a,
{
    assert((a ^ b) ^ b == a) by (bit_vector);
}

/// XOR with zero returns the original value.
proof fn lemma_xor_zero(a: u8)
    ensures
        a ^ 0 == a,
{
    assert(a ^ 0 == a) by (bit_vector);
}

/// Lowering mod 64 inverts raising mod 64 on six-bit values, and the other
/// way round.
proof fn lemma_mod64_round_trip(x: u8, t: u8)
    requires
        x < 64,
        t < 64,
    ensures
        ((x + t) % 64 + 64 - t) % 64 == x,
        (((x + 64 - t) % 64) + t) % 64 == x,
{
    assert(((x + t) % 64 + 64 - t) % 64 == x) by (bit_vector)
        requires
            x < 64 && t < 64,
    ;
    assert((((x + 64 - t) % 64) + t) % 64 == x) by (bit_vector)
        requires
            x < 64 && t < 64,
    ;
}

/// Every symbol of a deciphered buffer is a six-bit value.
proof fn lemma_decode_sym_bound(p: Seq<u8>, i: int)
    requires
        0 <= i < p.len(),
    ensures
        decode_sym(p, i) < 64,
{
}

/// Every symbol of an enciphered password is a six-bit value.
proof fn lemma_encode_sym_bound(b: Seq<u8>, i: int)
    requires
        0 <= i < b.len(),
    ensures
        encode_sym(b, i) < 64,
    decreases i,
{
    if i <= 0 {
        lemma_xor_bound(((b[0] + cipher_add(0)) % 64) as u8, 0x1F);
    } else {
        lemma_encode_sym_bound(b, i - 1);
        lemma_xor_bound(encode_pre(b, i), encode_sym(b, i - 1));
    }
}

/// Enciphering the deciphered buffer restores each password symbol.
proof fn lemma_encode_sym_of_decode(p: Seq<u8>, i: int)
    requires
        0 <= i < p.len(),
        forall|j: int| 0 <= j < p.len() ==> p[j] < 64,
    ensures
        encode_sym(spec_decode(p), i) == p[i],
    decreases i,
{
    let d = spec_decode(p);
    if i == 0 {
        lemma_xor_bound(p[0], 0x1F);
        lemma_mod64_round_trip(p[0] ^ 0x1F, cipher_add(0));
        lemma_xor_cancel(p[0], 0x1F);
    } else {
        lemma_encode_sym_of_decode(p, i - 1);
        lemma_xor_bound(p[i], p[i - 1]);
        lemma_mod64_round_trip(p[i] ^ p[i - 1], cipher_add(i));
        lemma_xor_cancel(p[i], p[i - 1]);
    }
}

/// Deciphering the enciphered password restores each buffer symbol.
proof fn lemma_decode_sym_of_encode(b: Seq<u8>, i: int)
    requires
        0 <= i < b.len(),
        forall|j: int| 0 <= j < b.len() ==> b[j] < 64,
    ensures
        decode_sym(spec_encode(b), i) == b[i],
{
    let e = spec_encode(b);
    if i == 0 {
        lemma_xor_cancel(((b[0] + cipher_add(0)) % 64) as u8, 0x1F);
        lemma_mod64_round_trip(b[0], cipher_add(0));
    } else {
        assert(e[i] == encode_pre(b, i) ^ encode_sym(b, i - 1));
        lemma_xor_cancel(encode_pre(b, i), encode_sym(b, i - 1));
        lemma_mod64_round_trip(b[i], cipher_add(i));
    }
}

/// Round trip of the cipher, password side: deciphering a password and
/// enciphering the result gives back the password, whatever its symbols.
pub proof fn lemma_cipher_round_trip_password(p: Seq<u8>)
    requires
        forall|j: int| 0 <= j < p.len() ==> p[j] <= 0x3F,
    ensures
        spec_encode(spec_decode(p)) == p,
{
    assert forall|i: int| 0 <= i < p.len() implies spec_encode(spec_decode(p))[i] == p[i] by {
        lemma_encode_sym_of_decode(p, i);
    }
    assert(spec_encode(spec_decode(p)) =~= p);
}

/// Round trip of the cipher, buffer side: enciphering a buffer and
/// deciphering the result gives back the buffer, whatever its symbols.
pub proof fn lemma_cipher_round_trip_buffer(b: Seq<u8>)
    requires
        forall|j: int| 0 <= j < b.len() ==> b[j] <= 0x3F,
    ensures
        spec_decode(spec_encode(b)) == b,
{
    assert forall|i: int| 0 <= i < b.len() implies spec_decode(spec_encode(b))[i] == b[i] by {
        lemma_decode_sym_of_encode(b, i);
    }
    assert(spec_decode(spec_encode(b)) =~= b);
}


/// The additive checksum of a payload: the sum of its symbols mod 64.
pub open spec fn checksum_add(payload: Seq<u8>) -> u8
    decreases payload.len(),
{
    if payload.len() == 0 {
        0
    } else {
        (((checksum_add(payload.drop_last()) + payload.last()) % 64) as u8)
    }
}

/// The XOR checksum of a payload: the XOR of all its symbols.
pub open spec fn checksum_xor(payload: Seq<u8>) -> u8
    decreases payload.len(),
{
    if payload.len() == 0 {
        0
    } else {
        checksum_xor(payload.drop_last()) ^ payload.last()
    }
}

/// The checksum pair stored in a buffer's header: symbol 0 is the
/// additive part and symbol 1 the XOR part, read as the maximum value 63
/// when the buffer holds a single symbol.
pub open spec fn spec_embedded(buf: Seq<u8>) -> (u8, u8)
    recommends
        buf.len() >= 1,
{
    (
        buf[0],
        if buf.len() >= 2 {
            buf[1]
        } else {
            0x3F
        },
    )
}

/// The checksum pair computed over a buffer's payload, the symbols at
/// positions 2 and up; both parts read 63 when there is no payload.
pub open spec fn spec_calculated(buf: Seq<u8>) -> (u8, u8) {
    if buf.len() <= 2 {
        (0x3F, 0x3F)
    } else {
        (checksum_add(buf.skip(2)), checksum_xor(buf.skip(2)))
    }
}

/// Whether the stored checksum pair matches the computed one: only then
/// does the buffer deserialize to a game state.
pub open spec fn spec_checksum_ok(buf: Seq<u8>) -> bool {
    &&& spec_embedded(buf).0 == spec_calculated(buf).0
    &&& spec_embedded(buf).1 == spec_calculated(buf).1
}

/// Both checksum parts of any payload of six-bit symbols share their
/// parity: each symbol moves the additive sum and the XOR by the same
/// amount mod 2.
proof fn lemma_checksum_parity(payload: Seq<u8>)
    requires
        forall|j: int| 0 <= j < payload.len() ==> payload[j] < 64,
    ensures
        checksum_add(payload) < 64,
        checksum_xor(payload) < 64,
        checksum_add(payload) % 2 == checksum_xor(payload) % 2,
    decreases payload.len(),
{
    if payload.len() > 0 {
        lemma_checksum_parity(payload.drop_last());
        let s = checksum_add(payload.drop_last());
        let x = checksum_xor(payload.drop_last());
        let b = payload.last();
        let y = x ^ b;
        assert(((s + b) % 64) % 2 == ((s % 2) + (b % 2)) % 2) by (bit_vector)
            requires
                s < 64 && b < 64,
        ;
        assert(y % 2 == ((x % 2) + (b % 2)) % 2) by (bit_vector)
            requires
                y == x ^ b,
        ;
        assert(y < 64) by (bit_vector)
            requires
                y == x ^ b && x < 64 && b < 64,
        ;
    }
}

/// A password whose second symbol has an even value can never decode to a
/// checksum-valid buffer, whatever its length or its later symbols: such
/// a two-symbol prefix is dead for an exhaustive search.
pub proof fn lemma_even_second_symbol_never_valid(p: Seq<u8>)
    requires
        p.len() >= 2,
        forall|j: int| 0 <= j < p.len() ==> p[j] <= 0x3F,
        p[1] % 2 == 0,
    ensures
        !spec_checksum_ok(spec_decode(p)),
{
    let d = spec_decode(p);
    let p0 = p[0];
    let p1 = p[1];
    let a0 = p0 ^ 0x1F;
    let a1 = p1 ^ p0;
    assert(d[0] % 2 != d[1] % 2) by {
        assert(d[0] == ((a0 + 64 - 5) % 64) as u8);
        assert(d[1] == ((a1 + 64 - 0x19) % 64) as u8);
        assert(p1 % 2 == 0 ==> ((a0 + 64 - 5) % 64) % 2 != ((a1 + 64 - 0x19) % 64) % 2)
            by (bit_vector)
            requires
                a0 == p0 ^ 0x1F && a1 == p1 ^ p0 && p0 < 64 && p1 < 64,
        ;
    }
    if spec_checksum_ok(d) {
        if d.len() > 2 {
            let payload = d.skip(2);
            assert forall|j: int| 0 <= j < payload.len() implies payload[j] < 64 by {
                lemma_decode_sym_bound(p, j + 2);
            }
            lemma_checksum_parity(payload);
        }
        assert(false);
    }
}

/// The table value at buffer position `i`.
fn cipher_add_at(i: usize) -> (r: u8)
    ensures
        r == cipher_add(i as int),
        r < 64,
{
    let m = i % 4;
    if m == 0 {
        0x05
    } else if m == 1 {
        0x19
    } else if m == 2 {
        0x32
    } else {
        0x21
    }
}


/// The spell flags in packed order, first-listed flag first.
pub open spec fn spells_bits(s: Spells) -> Seq<bool> {
    seq![s.houhi, s.dadadidi, s.fuyuu, s.mankintan, s.hien, s.inazuma, s.rokkaku, s.kintan]
}

/// The event flags in packed order, first-listed flag first.
pub open spec fn events_bits(e: Events) -> Seq<bool> {
    seq![e.hohoemi, e.dragon, e.sarukani, e.murata, e.netaro, e.urashima, e.kintaro, e.hanasaka]
}

/// The treasure flags in packed order, first-listed flag first.
pub open spec fn treasures_bits(t: Treasures) -> Seq<bool> {
    seq![t.swallow, t.hourai, t.hotoke, t.fur, t.dragon]
}

/// The minion flags in packed order, first-listed flag first.
pub open spec fn minions_bits(m: Minions) -> Seq<bool> {
    seq![m.monkey, m.pheasant, m.dog]
}

/// The low bookmark group: eight of the ten bookmark flags, packed apart
/// from the high group.
pub open spec fn bookmarks_low_bits(b: Bookmarks) -> Seq<bool> {
    seq![b.taketori, b.sarukani, b.kibou, b.netaro, b.urashima, b.kintaro, b.hanasaka, b.tabidachi]
}

/// The high bookmark group: the two remaining bookmark flags, packed
/// before the low group at a non-adjacent position.
pub open spec fn bookmarks_high_bits(b: Bookmarks) -> Seq<bool> {
    seq![b.hien, b.hohoemi]
}

/// The equipment indices in packed order and their bit widths.
pub open spec fn equipment_bits(e: EquipmentView) -> Seq<bool> {
    be_bits(e.helm, 2) + be_bits(e.weapon, 4) + be_bits(e.armor, 4) + be_bits(e.shoes, 3)
        + be_bits(e.accessory0, 2) + be_bits(e.accessory1, 2) + be_bits(e.accessory2, 1) + be_bits(
        e.accessory3,
        1,
    )
}

/// The six-bit ids of a run of items, in held order.
pub open spec fn item_ids_bits(items: Seq<u8>) -> Seq<bool>
    decreases items.len(),
{
    if items.len() == 0 {
        Seq::empty()
    } else {
        item_ids_bits(items.drop_last()) + be_bits(items.last(), 6)
    }
}

/// The inventory ids, with one zero terminator after the last id when
/// fewer than eight items are held.
pub open spec fn inventory_bits(items: Seq<u8>) -> Seq<bool> {
    item_ids_bits(items) + if items.len() < 8 {
        be_bits(0, 6)
    } else {
        Seq::<bool>::empty()
    }
}

/// The whole payload of a game state as a flat bit stream: the fields in
/// packing order, each value written most significant bit first.
pub open spec fn payload_bits(v: SavedataView) -> Seq<bool> {
    be_bits(v.age_timer_hi, 8) + be_bits(((v.purse >> 8) as u8), 8) + be_bits(v.age, 8) + be_bits(
        ((v.purse & 0xFF) as u8),
        8,
    ) + be_bits(((v.xp & 0xFF) as u8), 8) + be_bits(v.deposit, 6) + be_bits(
        ((v.xp >> 8) as u8),
        8,
    ) + spells_bits(v.spells) + treasures_bits(v.treasures) + be_bits(v.respawn, 4)
        + bookmarks_high_bits(v.bookmarks) + minions_bits(v.minions) + bookmarks_low_bits(
        v.bookmarks,
    ) + events_bits(v.events) + equipment_bits(v.equipment) + inventory_bits(v.inventory)
}

/// The symbols of a bit stream whose length is a multiple of 6, one
/// symbol per six-bit group.
pub open spec fn symbols_of_bits(bits: Seq<bool>) -> Seq<u8>
    recommends
        bits.len() % 6 == 0,
{
    Seq::new(bits.len() / 6, |i: int| be_val(bits.subrange(6 * i, 6 * i + 6)) as u8)
}

/// The payload symbols of an encoded game state: its payload bits padded
/// with zeros up to a multiple of 6, six bits per symbol.
pub open spec fn encoded_payload_symbols(v: SavedataView) -> Seq<u8> {
    symbols_of_bits(
        payload_bits(v) + zeros(
            ((payload_bits(v).len() + 5) / 6 * 6 - payload_bits(v).len()) as nat,
        ),
    )
}

/// Appends the spell flags to the stream.
#[verifier::rlimit(40)]
fn push_spells(bits: &mut SerializedBits, s: Spells)
    requires
        old(bits).wf(),
        old(bits)@.len() + 8 <= 162,
    ensures
        final(bits).wf(),
        final(bits)@ == old(bits)@ + spells_bits(s),
{
    bits.push_bit(s.houhi);
    bits.push_bit(s.dadadidi);
    bits.push_bit(s.fuyuu);
    bits.push_bit(s.mankintan);
    bits.push_bit(s.hien);
    bits.push_bit(s.inazuma);
    bits.push_bit(s.rokkaku);
    bits.push_bit(s.kintan);
    proof {
        assert(bits@ =~= old(bits)@ + spells_bits(s));
    }
}

/// Appends the event flags to the stream.
#[verifier::rlimit(40)]
fn push_events(bits: &mut SerializedBits, e: Events)
    requires
        old(bits).wf(),
        old(bits)@.len() + 8 <= 162,
    ensures
        final(bits).wf(),
        final(bits)@ == old(bits)@ + events_bits(e),
{
    bits.push_bit(e.hohoemi);
    bits.push_bit(e.dragon);
    bits.push_bit(e.sarukani);
    bits.push_bit(e.murata);
    bits.push_bit(e.netaro);
    bits.push_bit(e.urashima);
    bits.push_bit(e.kintaro);
    bits.push_bit(e.hanasaka);
    proof {
        assert(bits@ =~= old(bits)@ + events_bits(e));
    }
}

/// Appends the treasure flags to the stream.
fn push_treasures(bits: &mut SerializedBits, t: Treasures)
    requires
        old(bits).wf(),
        old(bits)@.len() + 5 <= 162,
    ensures
        final(bits).wf(),
        final(bits)@ == old(bits)@ + treasures_bits(t),
{
    bits.push_bit(t.swallow);
    bits.push_bit(t.hourai);
    bits.push_bit(t.hotoke);
    bits.push_bit(t.fur);
    bits.push_bit(t.dragon);
    proof {
        assert(bits@ =~= old(bits)@ + treasures_bits(t));
    }
}

/// Appends the minion flags to the stream.
fn push_minions(bits: &mut SerializedBits, m: Minions)
    requires
        old(bits).wf(),
        old(bits)@.len() + 3 <= 162,
    ensures
        final(bits).wf(),
        final(bits)@ == old(bits)@ + minions_bits(m),
{
    bits.push_bit(m.monkey);
    bits.push_bit(m.pheasant);
    bits.push_bit(m.dog);
    proof {
        assert(bits@ =~= old(bits)@ + minions_bits(m));
    }
}

/// Appends the low bookmark group to the stream.
#[verifier::rlimit(40)]
fn push_bookmarks_low(bits: &mut SerializedBits, b: Bookmarks)
    requires
        old(bits).wf(),
        old(bits)@.len() + 8 <= 162,
    ensures
        final(bits).wf(),
        final(bits)@ == old(bits)@ + bookmarks_low_bits(b),
{
    bits.push_bit(b.taketori);
    bits.push_bit(b.sarukani);
    bits.push_bit(b.kibou);
    bits.push_bit(b.netaro);
    bits.push_bit(b.urashima);
    bits.push_bit(b.kintaro);
    bits.push_bit(b.hanasaka);
    bits.push_bit(b.tabidachi);
    proof {
        assert(bits@ =~= old(bits)@ + bookmarks_low_bits(b));
    }
}

/// Appends the high bookmark group to the stream.
fn push_bookmarks_high(bits: &mut SerializedBits, b: Bookmarks)
    requires
        old(bits).wf(),
        old(bits)@.len() + 2 <= 162,
    ensures
        final(bits).wf(),
        final(bits)@ == old(bits)@ + bookmarks_high_bits(b),
{
    bits.push_bit(b.hien);
    bits.push_bit(b.hohoemi);
    proof {
        assert(bits@ =~= old(bits)@ + bookmarks_high_bits(b));
    }
}

/// Appends the equipment indices to the stream.
fn push_equipment(bits: &mut SerializedBits, e: &Equipment)
    requires
        old(bits).wf(),
        e.wf(),
        old(bits)@.len() + 19 <= 162,
    ensures
        final(bits).wf(),
        final(bits)@ == old(bits)@ + equipment_bits(e@),
{
    proof {
        vstd::arithmetic::power2::lemma2_to64();
    }
    bits.push_bits(2, e.helm.get());
    bits.push_bits(4, e.weapon.get());
    bits.push_bits(4, e.armor.get());
    bits.push_bits(3, e.shoes.get());
    bits.push_bits(2, e.accessory0.get());
    bits.push_bits(2, e.accessory1.get());
    bits.push_bits(1, e.accessory2.get());
    bits.push_bits(1, e.accessory3.get());
    proof {
        assert(bits@ =~= old(bits)@ + equipment_bits(e@));
    }
}

/// Appends the inventory ids and, when fewer than eight items are held,
/// one zero terminator.
fn push_inventory(bits: &mut SerializedBits, inventory: &Inventory)
    requires
        old(bits).wf(),
        inventory.wf(),
        old(bits)@.len() + 48 <= 162,
    ensures
        final(bits).wf(),
        final(bits)@ == old(bits)@ + inventory_bits(inventory@),
{
    proof {
        vstd::arithmetic::power2::lemma2_to64();
    }
    let n = inventory.len();
    let mut i: usize = 0;
    while i < n
        invariant
            inventory.wf(),
            i <= n == inventory@.len() <= 8,
            bits.wf(),
            old(bits)@.len() + 48 <= 162,
            bits@ == old(bits)@ + item_ids_bits(inventory@.take(i as int)),
            bits@.len() == old(bits)@.len() + 6 * i,
        decreases n - i,
    {
        proof {
            vstd::arithmetic::power2::lemma2_to64();
            assert(inventory@.take(i + 1).drop_last() =~= inventory@.take(i as int));
        }
        bits.push_bits(6, inventory.item_at(i));
        proof {
            assert(bits@ =~= old(bits)@ + item_ids_bits(inventory@.take(i + 1)));
        }
        i += 1;
    }
    proof {
        assert(inventory@.take(n as int) =~= inventory@);
    }
    if !inventory.is_full() {
        bits.push_bits(6, 0);
        proof {
            assert(bits@ =~= old(bits)@ + inventory_bits(inventory@));
        }
    }
}


/// The six-bit groups of a run of symbols, as one flat bit stream.
pub open spec fn bits_of_symbols(syms: Seq<u8>) -> Seq<bool>
    decreases syms.len(),
{
    if syms.len() == 0 {
        Seq::empty()
    } else {
        bits_of_symbols(syms.drop_last()) + be_bits(syms.last(), 6)
    }
}

/// The payload bit stream recovered from a buffer: the six-bit groups of
/// the symbols at positions 2 and up (at most 27 of them), filled with
/// one bits up to the 162-bit capacity, so that the fields a short buffer
/// never reaches read as all ones.
pub open spec fn padded_payload(buf: Seq<u8>) -> Seq<bool> {
    if buf.len() < 2 {
        ones(162)
    } else {
        let used = if buf.len() - 2 <= 27 {
            buf.len() - 2
        } else {
            27int
        };
        bits_of_symbols(buf.subrange(2, 2 + used)) + ones((162 - 6 * used) as nat)
    }
}

/// One field of the padded payload: the `n` bits at offset `off`, read as
/// a value most significant bit first.
pub open spec fn field(bits: Seq<bool>, off: int, n: int) -> u8 {
    be_val(bits.subrange(off, off + n)) as u8
}

/// The spell flags of a packed spell byte, lowest bit first.
pub open spec fn spec_unpack_spells(v: u8) -> Spells {
    Spells {
        kintan: bit_of(v, 0),
        rokkaku: bit_of(v, 1),
        inazuma: bit_of(v, 2),
        hien: bit_of(v, 3),
        mankintan: bit_of(v, 4),
        fuyuu: bit_of(v, 5),
        dadadidi: bit_of(v, 6),
        houhi: bit_of(v, 7),
    }
}

/// The event flags of a packed event byte, lowest bit first.
pub open spec fn spec_unpack_events(v: u8) -> Events {
    Events {
        hanasaka: bit_of(v, 0),
        kintaro: bit_of(v, 1),
        urashima: bit_of(v, 2),
        netaro: bit_of(v, 3),
        murata: bit_of(v, 4),
        sarukani: bit_of(v, 5),
        dragon: bit_of(v, 6),
        hohoemi: bit_of(v, 7),
    }
}

/// The treasure flags of a packed treasure value, lowest bit first.
pub open spec fn spec_unpack_treasures(v: u8) -> Treasures {
    Treasures {
        dragon: bit_of(v, 0),
        fur: bit_of(v, 1),
        hotoke: bit_of(v, 2),
        hourai: bit_of(v, 3),
        swallow: bit_of(v, 4),
    }
}

/// The minion flags of a packed minion value, lowest bit first.
pub open spec fn spec_unpack_minions(v: u8) -> Minions {
    Minions { dog: bit_of(v, 0), pheasant: bit_of(v, 1), monkey: bit_of(v, 2) }
}

/// The ten bookmark flags reassembled from the low and the high group.
pub open spec fn spec_unpack_bookmarks(low: u8, high: u8) -> Bookmarks {
    Bookmarks {
        tabidachi: bit_of(low, 0),
        hanasaka: bit_of(low, 1),
        kintaro: bit_of(low, 2),
        urashima: bit_of(low, 3),
        netaro: bit_of(low, 4),
        kibou: bit_of(low, 5),
        sarukani: bit_of(low, 6),
        taketori: bit_of(low, 7),
        hohoemi: bit_of(high, 0),
        hien: bit_of(high, 1),
    }
}

/// The inventory read from slot `k` on: six bits per id, stopped by a
/// zero id or by the eighth slot.
pub open spec fn spec_unpack_inventory(bits: Seq<bool>, k: int) -> Seq<u8>
    decreases 8 - k,
{
    if k < 0 || k >= 8 {
        Seq::empty()
    } else {
        let v = field(bits, 111 + 6 * k, 6);
        if v == 0 {
            Seq::empty()
        } else {
            seq![v] + spec_unpack_inventory(bits, k + 1)
        }
    }
}

/// The game state read from a 162-bit padded payload, each field at its
/// fixed offset.
pub open spec fn unpack_state(bits: Seq<bool>) -> SavedataView {
    SavedataView {
        xp: (field(bits, 46, 8) * 256 + field(bits, 32, 8)) as u16,
        purse: (field(bits, 8, 8) * 256 + field(bits, 24, 8)) as u16,
        deposit: field(bits, 40, 6),
        age: field(bits, 16, 8),
        age_timer_hi: field(bits, 0, 8),
        spells: spec_unpack_spells(field(bits, 54, 8)),
        events: spec_unpack_events(field(bits, 84, 8)),
        treasures: spec_unpack_treasures(field(bits, 62, 5)),
        minions: spec_unpack_minions(field(bits, 73, 3)),
        bookmarks: spec_unpack_bookmarks(field(bits, 76, 8), field(bits, 71, 2)),
        respawn: field(bits, 67, 4),
        equipment: EquipmentView {
            helm: field(bits, 92, 2),
            weapon: field(bits, 94, 4),
            armor: field(bits, 98, 4),
            shoes: field(bits, 102, 3),
            accessory0: field(bits, 105, 2),
            accessory1: field(bits, 107, 2),
            accessory2: field(bits, 109, 1),
            accessory3: field(bits, 110, 1),
        },
        inventory: spec_unpack_inventory(bits, 0),
    }
}


/// The bit stream of a run of symbols holds six bits per symbol.
proof fn lemma_bits_of_symbols_len(syms: Seq<u8>)
    ensures
        bits_of_symbols(syms).len() == 6 * syms.len(),
    decreases syms.len(),
{
    if syms.len() > 0 {
        lemma_bits_of_symbols_len(syms.drop_last());
    }
}

/// Reads the spell flags out of a packed spell byte.
fn unpack_spells(v: u8) -> (r: Spells)
    ensures
        r == spec_unpack_spells(v),
{
    Spells {
        kintan: (v >> 0) & 1 == 1,
        rokkaku: (v >> 1) & 1 == 1,
        inazuma: (v >> 2) & 1 == 1,
        hien: (v >> 3) & 1 == 1,
        mankintan: (v >> 4) & 1 == 1,
        fuyuu: (v >> 5) & 1 == 1,
        dadadidi: (v >> 6) & 1 == 1,
        houhi: (v >> 7) & 1 == 1,
    }
}

/// Reads the event flags out of a packed event byte.
fn unpack_events(v: u8) -> (r: Events)
    ensures
        r == spec_unpack_events(v),
{
    Events {
        hanasaka: (v >> 0) & 1 == 1,
        kintaro: (v >> 1) & 1 == 1,
        urashima: (v >> 2) & 1 == 1,
        netaro: (v >> 3) & 1 == 1,
        murata: (v >> 4) & 1 == 1,
        sarukani: (v >> 5) & 1 == 1,
        dragon: (v >> 6) & 1 == 1,
        hohoemi: (v >> 7) & 1 == 1,
    }
}

/// Reads the treasure flags out of a packed treasure value.
fn unpack_treasures(v: u8) -> (r: Treasures)
    ensures
        r == spec_unpack_treasures(v),
{
    Treasures {
        dragon: (v >> 0) & 1 == 1,
        fur: (v >> 1) & 1 == 1,
        hotoke: (v >> 2) & 1 == 1,
        hourai: (v >> 3) & 1 == 1,
        swallow: (v >> 4) & 1 == 1,
    }
}

/// Reads the minion flags out of a packed minion value.
fn unpack_minions(v: u8) -> (r: Minions)
    ensures
        r == spec_unpack_minions(v),
{
    Minions { dog: (v >> 0) & 1 == 1, pheasant: (v >> 1) & 1 == 1, monkey: (v >> 2) & 1 == 1 }
}

/// Reassembles the ten bookmark flags from the two packed groups.
fn unpack_bookmarks(low: u8, high: u8) -> (r: Bookmarks)
    ensures
        r == spec_unpack_bookmarks(low, high),
{
    Bookmarks {
        tabidachi: (low >> 0) & 1 == 1,
        hanasaka: (low >> 1) & 1 == 1,
        kintaro: (low >> 2) & 1 == 1,
        urashima: (low >> 3) & 1 == 1,
        netaro: (low >> 4) & 1 == 1,
        kibou: (low >> 5) & 1 == 1,
        sarukani: (low >> 6) & 1 == 1,
        taketori: (low >> 7) & 1 == 1,
        hohoemi: (high >> 0) & 1 == 1,
        hien: (high >> 1) & 1 == 1,
    }
}

/// The value of a run of one bits: all bits set gives two to the length,
/// less one.
proof fn lemma_be_val_ones(n: nat)
    ensures
        be_val(ones(n)) == vstd::arithmetic::power2::pow2(n) - 1,
    decreases n,
{
    if n == 0 {
        vstd::arithmetic::power2::lemma2_to64();
    } else {
        lemma_be_val_ones((n - 1) as nat);
        assert(ones(n).drop_last() =~= ones((n - 1) as nat));
        vstd::arithmetic::power2::lemma_pow2_unfold(n);
    }
}

/// One field of an all-ones payload reads as all ones.
proof fn lemma_field_of_ones(off: int, n: nat)
    requires
        0 <= off,
        n <= 8,
        off + n <= 162,
    ensures
        field(ones(162), off, n as int) == vstd::arithmetic::power2::pow2(n) - 1,
{
    assert(ones(162).subrange(off, off + n) =~= ones(n));
    lemma_be_val_ones(n);
    vstd::arithmetic::power2::lemma2_to64();
    if n < 8 {
        vstd::arithmetic::power2::lemma_pow2_strictly_increases(n, 8);
    }
}

/// A buffer of one or two symbols carries no payload bits, so its padded
/// payload is all ones and every field of its decoded state reads as its
/// maximum: full counters, every flag set, every index and item id at its
/// highest value.
pub proof fn lemma_short_buffer_decodes_all_max(buf: Seq<u8>)
    requires
        1 <= buf.len() <= 2,
    ensures
        padded_payload(buf) == ones(162),
        unpack_state(padded_payload(buf)) == (SavedataView {
            xp: 0xFFFF,
            purse: 0xFFFF,
            deposit: 0x3F,
            age: 0xFF,
            age_timer_hi: 0xFF,
            spells: Spells {
                kintan: true,
                rokkaku: true,
                inazuma: true,
                hien: true,
                mankintan: true,
                fuyuu: true,
                dadadidi: true,
                houhi: true,
            },
            events: Events {
                hanasaka: true,
                kintaro: true,
                urashima: true,
                netaro: true,
                murata: true,
                sarukani: true,
                dragon: true,
                hohoemi: true,
            },
            treasures: Treasures {
                dragon: true,
                fur: true,
                hotoke: true,
                hourai: true,
                swallow: true,
            },
            minions: Minions { dog: true, pheasant: true, monkey: true },
            bookmarks: Bookmarks {
                tabidachi: true,
                hanasaka: true,
                kintaro: true,
                urashima: true,
                netaro: true,
                kibou: true,
                sarukani: true,
                taketori: true,
                hohoemi: true,
                hien: true,
            },
            respawn: 0xF,
            equipment: EquipmentView {
                helm: 3,
                weapon: 0xF,
                armor: 0xF,
                shoes: 7,
                accessory0: 3,
                accessory1: 3,
                accessory2: 1,
                accessory3: 1,
            },
            inventory: seq![0x3Fu8, 0x3F, 0x3F, 0x3F, 0x3F, 0x3F, 0x3F, 0x3F],
        }),
{
    if buf.len() == 2 {
        assert(buf.subrange(2, 2int).len() == 0);
    }
    assert(padded_payload(buf) =~= ones(162));
    let bits = ones(162);
    vstd::arithmetic::power2::lemma2_to64();
    lemma_field_of_ones(0, 8);
    lemma_field_of_ones(8, 8);
    lemma_field_of_ones(16, 8);
    lemma_field_of_ones(24, 8);
    lemma_field_of_ones(32, 8);
    lemma_field_of_ones(40, 6);
    lemma_field_of_ones(46, 8);
    lemma_field_of_ones(54, 8);
    lemma_field_of_ones(62, 5);
    lemma_field_of_ones(67, 4);
    lemma_field_of_ones(71, 2);
    lemma_field_of_ones(73, 3);
    lemma_field_of_ones(76, 8);
    lemma_field_of_ones(84, 8);
    lemma_field_of_ones(92, 2);
    lemma_field_of_ones(94, 4);
    lemma_field_of_ones(98, 4);
    lemma_field_of_ones(102, 3);
    lemma_field_of_ones(105, 2);
    lemma_field_of_ones(107, 2);
    lemma_field_of_ones(109, 1);
    lemma_field_of_ones(110, 1);
    lemma_field_of_ones(111, 6);
    lemma_field_of_ones(117, 6);
    lemma_field_of_ones(123, 6);
    lemma_field_of_ones(129, 6);
    lemma_field_of_ones(135, 6);
    lemma_field_of_ones(141, 6);
    lemma_field_of_ones(147, 6);
    lemma_field_of_ones(153, 6);
    assert((0xFFu8 >> 0) & 1 == 1 && (0xFFu8 >> 1) & 1 == 1 && (0xFFu8 >> 2) & 1 == 1 && (0xFFu8
        >> 3) & 1 == 1 && (0xFFu8 >> 4) & 1 == 1 && (0xFFu8 >> 5) & 1 == 1 && (0xFFu8 >> 6) & 1
        == 1 && (0xFFu8 >> 7) & 1 == 1) by (bit_vector);
    assert((0x1Fu8 >> 0) & 1 == 1 && (0x1Fu8 >> 1) & 1 == 1 && (0x1Fu8 >> 2) & 1 == 1 && (0x1Fu8
        >> 3) & 1 == 1 && (0x1Fu8 >> 4) & 1 == 1) by (bit_vector);
    assert((0x7u8 >> 0) & 1 == 1 && (0x7u8 >> 1) & 1 == 1 && (0x7u8 >> 2) & 1 == 1)
        by (bit_vector);
    assert((0x3u8 >> 0) & 1 == 1 && (0x3u8 >> 1) & 1 == 1) by (bit_vector);
    assert(spec_unpack_inventory(bits, 8int) =~= Seq::<u8>::empty());
    assert(spec_unpack_inventory(bits, 7int) =~= seq![0x3Fu8]);
    assert(spec_unpack_inventory(bits, 6int) =~= seq![0x3Fu8, 0x3F]);
    assert(spec_unpack_inventory(bits, 5int) =~= seq![0x3Fu8, 0x3F, 0x3F]);
    assert(spec_unpack_inventory(bits, 4int) =~= seq![0x3Fu8, 0x3F, 0x3F, 0x3F]);
    assert(spec_unpack_inventory(bits, 3int) =~= seq![0x3Fu8, 0x3F, 0x3F, 0x3F, 0x3F]);
    assert(spec_unpack_inventory(bits, 2int) =~= seq![0x3Fu8, 0x3F, 0x3F, 0x3F, 0x3F, 0x3F]);
    assert(spec_unpack_inventory(bits, 1int) =~= seq![0x3Fu8, 0x3F, 0x3F, 0x3F, 0x3F, 0x3F, 0x3F]);
    assert(spec_unpack_inventory(bits, 0int) =~= seq![
        0x3Fu8,
        0x3F,
        0x3F,
        0x3F,
        0x3F,
        0x3F,
        0x3F,
        0x3F,
    ]);
}

/// Reads the inventory out of a padded payload: six bits per id from slot
/// offset 111 on, stopped by a zero id or by the eighth slot.
fn read_inventory(bits: &SerializedBits) -> (r: Inventory)
    requires
        bits.wf(),
        bits@.len() == 162,
    ensures
        r.wf(),
        r@ == spec_unpack_inventory(bits@, 0),
{
    proof {
        vstd::arithmetic::power2::lemma2_to64();
    }
    let mut inventory = Inventory::new();
    let mut k: usize = 0;
    while k < 8
        invariant
            bits.wf(),
            bits@.len() == 162,
            k <= 8,
            inventory.wf(),
            inventory@.len() == k,
            inventory@ + spec_unpack_inventory(bits@, k as int) == spec_unpack_inventory(
                bits@,
                0,
            ),
        decreases 8 - k,
    {
        proof {
            vstd::arithmetic::power2::lemma2_to64();
        }
        let v = bits.read_bits(111 + 6 * k, 6);
        if v == 0 {
            proof {
                assert(inventory@ =~= spec_unpack_inventory(bits@, 0));
            }
            return inventory;
        }
        inventory.push(ItemId::new_unchecked(v));
        proof {
            assert(inventory@ + spec_unpack_inventory(bits@, k + 1) =~= spec_unpack_inventory(
                bits@,
                0,
            ));
        }
        k += 1;
    }
    proof {
        assert(inventory@ =~= spec_unpack_inventory(bits@, 0));
    }
    inventory
}

/// A serialized game state: a buffer of 1 to 38 six-bit symbols whose
/// first two symbols hold the checksum. Its view is the sequence of
/// symbol values.
#[derive(Debug, PartialEq, Eq)]
pub struct SerializedBytes {
    inner: arrayvec::ArrayVec<u8, 38>,
}

impl View for SerializedBytes {
    type V = Seq<u8>;

    closed spec fn view(&self) -> Seq<u8> {
        buf_seq(self.inner)
    }
}

impl SerializedBytes {
    /// The length invariant and the six-bit range of every symbol.
    pub open spec fn wf(self) -> bool {
        &&& 1 <= self@.len() <= 38
        &&& forall|i: int| 0 <= i < self@.len() ==> self@[i] <= 0x3F
    }

    /// Builds a buffer from a slice of six-bit values; `None` when the
    /// length lies outside `1..=38`.
    pub fn new(buf: &[SerializedByte]) -> (r: Option<Self>)
        requires
            forall|i: int| 0 <= i < buf@.len() ==> buf@[i].wf(),
        ensures
            r is Some <==> 1 <= buf@.len() <= 38,
            r is Some ==> r->0.wf() && r->0@ == Seq::new(
                buf@.len(),
                |i: int| buf@[i].spec_get(),
            ),
    {
        if 1 <= buf.len() && buf.len() <= 38 {
            Some(Self::new_unchecked(buf))
        } else {
            None
        }
    }

    /// Builds a buffer from a slice of 1 to 38 six-bit values.
    pub fn new_unchecked(buf: &[SerializedByte]) -> (r: Self)
        requires
            1 <= buf@.len() <= 38,
            forall|i: int| 0 <= i < buf@.len() ==> buf@[i].wf(),
        ensures
            r.wf(),
            r@ == Seq::new(buf@.len(), |i: int| buf@[i].spec_get()),
    {
        let ghost target = Seq::new(buf@.len(), |i: int| buf@[i].spec_get());
        let n = buf.len();
        let mut inner = buf_new();
        let mut i: usize = 0;
        while i < n
            invariant
                i <= n == buf@.len() <= 38,
                forall|j: int| 0 <= j < buf@.len() ==> buf@[j].wf(),
                target == Seq::new(buf@.len(), |k: int| buf@[k].spec_get()),
                buf_seq(inner) == target.take(i as int),
            decreases n - i,
        {
            buf_push(&mut inner, buf[i].get());
            proof {
                assert(buf_seq(inner) =~= target.take(i + 1));
            }
            i += 1;
        }
        proof {
            assert(target.take(n as int) =~= target);
        }
        SerializedBytes { inner }
    }

    /// Returns the number of symbols.
    pub fn len(&self) -> (r: usize)
        ensures
            r == self@.len(),
    {
        buf_len(&self.inner)
    }

    /// Returns the six-bit value at position `i`.
    pub fn byte_at(&self, i: usize) -> (r: u8)
        requires
            i < self@.len(),
        ensures
            r == self@[i as int],
    {
        buf_get(&self.inner, i)
    }

    /// Deciphers a password into its buffer. Deciphering never fails, also
    /// for a special password; the result's checksum may well not match.
    pub fn from_password(password: &Password) -> (r: Self)
        requires
            password.wf(),
        ensures
            r.wf(),
            r@ == spec_decode(password@),
    {
        let n = password.len();
        let mut inner = buf_new();
        let mut prev: u8 = 0;
        let mut i: usize = 0;
        while i < n
            invariant
                password.wf(),
                i <= n == password@.len() <= 38,
                buf_seq(inner) == spec_decode(password@).take(i as int),
                i > 0 ==> prev == password@[i - 1],
            decreases n - i,
        {
            let cur = password.symbol_at(i);
            let x = if i == 0 {
                cur ^ 0x1F
            } else {
                cur ^ prev
            };
            proof {
                if i == 0 {
                    lemma_xor_bound(cur, 0x1F);
                } else {
                    lemma_xor_bound(cur, prev);
                }
            }
            let t = cipher_add_at(i);
            let y = (x + 64 - t) % 64;
            buf_push(&mut inner, y);
            proof {
                assert(buf_seq(inner) =~= spec_decode(password@).take(i + 1));
            }
            prev = cur;
            i += 1;
        }
        proof {
            assert(spec_decode(password@).take(n as int) =~= spec_decode(password@));
        }
        SerializedBytes { inner }
    }

    /// Enciphers this buffer into a password: the exact inverse of
    /// `from_password`.
    pub fn to_password(&self) -> (r: Password)
        requires
            self.wf(),
        ensures
            r.wf(),
            r@ == spec_encode(self@),
    {
        let n = self.len();
        let mut out = buf_new();
        let mut prev: u8 = 0;
        let mut i: usize = 0;
        while i < n
            invariant
                self.wf(),
                i <= n == self@.len() <= 38,
                buf_seq(out) == spec_encode(self@).take(i as int),
                prev == if i == 0 {
                    0u8
                } else {
                    encode_sym(self@, i - 1)
                },
            decreases n - i,
        {
            let cur = buf_get(&self.inner, i);
            let t = cipher_add_at(i);
            let mut a = (cur + t) % 64;
            if i == 0 {
                a = a ^ 0x1F;
            }
            let e = a ^ prev;
            proof {
                if i == 0 {
                    lemma_xor_zero(a);
                }
                assert(e == encode_sym(self@, i as int));
                lemma_encode_sym_bound(self@, i as int);
            }
            buf_push(&mut out, e);
            proof {
                assert(buf_seq(out) =~= spec_encode(self@).take(i + 1));
            }
            prev = e;
            i += 1;
        }
        proof {
            assert(spec_encode(self@).take(n as int) =~= spec_encode(self@));
            assert forall|j: int| 0 <= j < buf_seq(out).len() implies buf_seq(out)[j] <= 0x3F by {
                lemma_encode_sym_bound(self@, j);
            }
        }
        Password::from_raw(out)
    }

    /// Serializes a game state into a checksum-valid buffer: the payload
    /// bits padded with zeros to whole symbols, behind a two-symbol header
    /// holding the computed checksum.
    #[verifier::rlimit(60)]
    pub fn from_savedata(savedata: &Savedata) -> (r: Self)
        requires
            savedata.wf(),
        ensures
            r.wf(),
            spec_checksum_ok(r@),
            r@.skip(2) == encoded_payload_symbols(savedata@),
            r@.len() == 2 + encoded_payload_symbols(savedata@).len(),
    {
        proof {
            vstd::arithmetic::power2::lemma2_to64();
        }
        let mut bits = SerializedBits::new();
        proof {
            let x = savedata.xp;
            let p = savedata.purse;
            assert(x & 0xFF < 256 && x >> 8 < 256 && p & 0xFF < 256 && p >> 8 < 256)
                by (bit_vector);
        }
        let xp_lo = (savedata.xp & 0xFF) as u8;
        let xp_hi = (savedata.xp >> 8) as u8;
        let purse_lo = (savedata.purse & 0xFF) as u8;
        let purse_hi = (savedata.purse >> 8) as u8;
        bits.push_bits(8, savedata.age_timer_hi);
        proof {
            assert(bits@ =~= be_bits(savedata@.age_timer_hi, 8));
        }
        bits.push_bits(8, purse_hi);
        bits.push_bits(8, savedata.age);
        bits.push_bits(8, purse_lo);
        bits.push_bits(8, xp_lo);
        bits.push_bits(6, savedata.deposit.get());
        bits.push_bits(8, xp_hi);
        push_spells(&mut bits, savedata.spells);
        push_treasures(&mut bits, savedata.treasures);
        bits.push_bits(4, savedata.respawn.get());
        push_bookmarks_high(&mut bits, savedata.bookmarks);
        push_minions(&mut bits, savedata.minions);
        push_bookmarks_low(&mut bits, savedata.bookmarks);
        push_events(&mut bits, savedata.events);
        push_equipment(&mut bits, &savedata.equipment);
        push_inventory(&mut bits, &savedata.inventory);
        proof {
            assert(bits@ == payload_bits(savedata@));
        }
        bits.pad_zeros();
        let ghost padded = payload_bits(savedata@) + zeros(
            ((payload_bits(savedata@).len() + 5) / 6 * 6 - payload_bits(savedata@).len()) as nat,
        );
        let total = bits.len();
        let count = total / 6;
        proof {
            assert(total == bits@.len() && bits@ == padded && total % 6 == 0 && count * 6
                == total);
        }
        let mut inner = buf_new();
        buf_push(&mut inner, 0);
        buf_push(&mut inner, 0);
        let mut i: usize = 0;
        while i < count
            invariant
                bits.wf(),
                bits@ == padded,
                total == bits@.len() <= 162,
                count == total / 6,
                count * 6 == total,
                i <= count,
                buf_seq(inner).len() == 2 + i,
                buf_seq(inner)[0] == 0 && buf_seq(inner)[1] == 0,
                buf_seq(inner).skip(2) == symbols_of_bits(padded).take(i as int),
                forall|j: int| 0 <= j < buf_seq(inner).len() ==> buf_seq(inner)[j] <= 0x3F,
            decreases count - i,
        {
            proof {
                vstd::arithmetic::power2::lemma2_to64();
                assert(6 * i + 6 <= total) by {
                    assert(i + 1 <= count);
                    assert((i + 1) * 6 <= count * 6) by (nonlinear_arith)
                        requires
                            i + 1 <= count,
                    ;
                }
            }
            let sym = bits.read_bits(6 * i, 6);
            buf_push(&mut inner, sym);
            proof {
                assert(buf_seq(inner).skip(2) =~= symbols_of_bits(padded).take(i + 1));
            }
            i += 1;
        }
        proof {
            assert(symbols_of_bits(padded).take(count as int) =~= symbols_of_bits(padded));
            assert(buf_seq(inner).len() <= 38);
        }
        let mut result = SerializedBytes { inner };
        let checksum = result.checksum_calculated();
        buf_set(&mut result.inner, 0, checksum.sum_add().get());
        buf_set(&mut result.inner, 1, checksum.sum_xor().get());
        proof {
            assert(result@.skip(2) =~= symbols_of_bits(padded));
        }
        result
    }


    /// Rebuilds the padded payload bit stream of this buffer: six bits per
    /// payload symbol, filled with one bits up to the 162-bit capacity.
    fn to_bits(&self) -> (r: SerializedBits)
        requires
            self.wf(),
        ensures
            r.wf(),
            r@ == padded_payload(self@),
            r@.len() == 162,
    {
        proof {
            vstd::arithmetic::power2::lemma2_to64();
        }
        let n = self.len();
        let used: usize = if n >= 2 {
            if n - 2 <= 27 {
                n - 2
            } else {
                27
            }
        } else {
            0
        };
        let mut bits = SerializedBits::new();
        proof {
            if n >= 2 {
                assert(self@.subrange(2, 2int).len() == 0);
                assert(bits@ =~= bits_of_symbols(self@.subrange(2, 2int)));
            }
        }
        let mut i: usize = 0;
        while i < used
            invariant
                self.wf(),
                used <= 27,
                used == 0 || 2 + used <= self@.len(),
                n == self@.len(),
                n < 2 ==> used == 0,
                i <= used,
                bits.wf(),
                n >= 2 ==> bits@ == bits_of_symbols(self@.subrange(2, 2 + i)),
                n < 2 ==> bits@ == Seq::<bool>::empty(),
                bits@.len() == 6 * i,
            decreases used - i,
        {
            proof {
                vstd::arithmetic::power2::lemma2_to64();
                assert(self@.subrange(2, 2 + i + 1).drop_last() =~= self@.subrange(2, 2 + i));
            }
            let sym = self.byte_at(2 + i);
            bits.push_bits(6, sym);
            i += 1;
        }
        bits.fill_ones();
        proof {
            assert(bits@ =~= padded_payload(self@));
        }
        bits
    }

    /// Deserializes this buffer into a game state: `None` exactly when the
    /// stored checksum does not match the computed one; otherwise the
    /// fields read from the padded payload at their fixed offsets, so that
    /// every field beyond a short buffer's bits reads as all ones.
    pub fn to_savedata(&self) -> (r: Option<Savedata>)
        requires
            self.wf(),
        ensures
            r is Some <==> spec_checksum_ok(self@),
            r is Some ==> r->0.wf() && r->0@ == unpack_state(padded_payload(self@)),
    {
        if !self.checksum_is_ok() {
            return None;
        }
        proof {
            vstd::arithmetic::power2::lemma2_to64();
        }
        let bits = self.to_bits();
        let age_timer_hi = bits.read_bits(0, 8);
        let purse_hi = bits.read_bits(8, 8);
        let age = bits.read_bits(16, 8);
        let purse_lo = bits.read_bits(24, 8);
        let xp_lo = bits.read_bits(32, 8);
        let deposit = Deposit::new_unchecked(bits.read_bits(40, 6));
        let xp_hi = bits.read_bits(46, 8);
        let spells = unpack_spells(bits.read_bits(54, 8));
        let treasures = unpack_treasures(bits.read_bits(62, 5));
        let respawn = RespawnId::new_unchecked(bits.read_bits(67, 4));
        let bookmarks_high = bits.read_bits(71, 2);
        let minions = unpack_minions(bits.read_bits(73, 3));
        let bookmarks_low = bits.read_bits(76, 8);
        let bookmarks = unpack_bookmarks(bookmarks_low, bookmarks_high);
        let events = unpack_events(bits.read_bits(84, 8));
        let equipment = Equipment {
            helm: HelmIndex::new_unchecked(bits.read_bits(92, 2)),
            weapon: WeaponIndex::new_unchecked(bits.read_bits(94, 4)),
            armor: ArmorIndex::new_unchecked(bits.read_bits(98, 4)),
            shoes: ShoesIndex::new_unchecked(bits.read_bits(102, 3)),
            accessory0: Accessory0Index::new_unchecked(bits.read_bits(105, 2)),
            accessory1: Accessory1Index::new_unchecked(bits.read_bits(107, 2)),
            accessory2: Accessory2Index::new_unchecked(bits.read_bits(109, 1)),
            accessory3: Accessory3Index::new_unchecked(bits.read_bits(110, 1)),
        };
        let inventory = read_inventory(&bits);
        let xp = ((xp_hi as u16) << 8) | (xp_lo as u16);
        let purse = ((purse_hi as u16) << 8) | (purse_lo as u16);
        proof {
            let hi = xp_hi;
            let lo = xp_lo;
            assert(((hi as u16) << 8) | (lo as u16) == (hi as u16) * 256 + (lo as u16))
                by (bit_vector);
            let hip = purse_hi;
            let lop = purse_lo;
            assert(((hip as u16) << 8) | (lop as u16) == (hip as u16) * 256 + (lop as u16))
                by (bit_vector);
        }
        Some(
            Savedata {
                xp,
                purse,
                deposit,
                age,
                age_timer_hi,
                spells,
                events,
                treasures,
                minions,
                bookmarks,
                respawn,
                equipment,
                inventory,
            },
        )
    }

    /// Returns the checksum pair stored in the header: symbol 0, and
    /// symbol 1 or the maximum value 63 when there is only one symbol.
    pub fn checksum_embed(&self) -> (r: Checksum)
        requires
            self.wf(),
        ensures
            r.wf(),
            r.spec_sum_add() == spec_embedded(self@).0,
            r.spec_sum_xor() == spec_embedded(self@).1,
    {
        let sum_add = ChecksumAdd::new_unchecked(self.byte_at(0));
        let sum_xor = if self.len() >= 2 {
            ChecksumXor::new_unchecked(self.byte_at(1))
        } else {
            ChecksumXor::new_unchecked(0x3F)
        };
        Checksum::new(sum_add, sum_xor)
    }

    /// Returns the checksum pair computed over the payload, the symbols at
    /// positions 2 and up; both parts are 63 when there is no payload.
    pub fn checksum_calculated(&self) -> (r: Checksum)
        requires
            self.wf(),
        ensures
            r.wf(),
            r.spec_sum_add() == spec_calculated(self@).0,
            r.spec_sum_xor() == spec_calculated(self@).1,
    {
        let n = self.len();
        if n <= 2 {
            return Checksum::new(
                ChecksumAdd::new_unchecked(0x3F),
                ChecksumXor::new_unchecked(0x3F),
            );
        }
        let mut add: u8 = 0;
        let mut xor: u8 = 0;
        let mut i: usize = 2;
        while i < n
            invariant
                self.wf(),
                2 <= i <= n == self@.len() <= 38,
                add == checksum_add(self@.subrange(2, i as int)),
                add < 64,
                xor == checksum_xor(self@.subrange(2, i as int)),
                xor < 64,
            decreases n - i,
        {
            let b = self.byte_at(i);
            proof {
                assert(self@.subrange(2, i + 1).drop_last() =~= self@.subrange(2, i as int));
                assert(self@.subrange(2, i + 1).last() == self@[i as int]);
                lemma_xor_bound(xor, b);
            }
            add = (add + b) % 64;
            xor = xor ^ b;
            i += 1;
        }
        proof {
            assert(self@.subrange(2, n as int) =~= self@.skip(2));
        }
        Checksum::new(ChecksumAdd::new_unchecked(add), ChecksumXor::new_unchecked(xor))
    }

    /// Returns whether the stored checksum matches the computed one.
    pub fn checksum_is_ok(&self) -> (r: bool)
        requires
            self.wf(),
        ensures
            r == spec_checksum_ok(self@),
    {
        let embed = self.checksum_embed();
        let calc = self.checksum_calculated();
        embed.sum_add().get() == calc.sum_add().get() && embed.sum_xor().get()
            == calc.sum_xor().get()
    }
}

impl Password {
    /// Returns whether this password decodes to a checksum-valid buffer,
    /// that is, whether it can be loaded as a game state.
    pub fn is_valid(&self) -> (r: bool)
        requires
            self.wf(),
        ensures
            r == spec_checksum_ok(spec_decode(self@)),
    {
        SerializedBytes::from_password(self).checksum_is_ok()
    }
}

} // verus!
