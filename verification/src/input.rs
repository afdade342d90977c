//! The input word exchanged between peers, and the keys that produce it.

use vstd::prelude::*;

verus! {

/// Bit 0 asks for a draw.
pub const INPUT_DRAW: u16 = 0x0001;

pub const INPUT_CARD_1: u16 = 0x0002;

pub const INPUT_CARD_2: u16 = 0x0004;

pub const INPUT_CARD_3: u16 = 0x0008;

pub const INPUT_CARD_4: u16 = 0x0010;

pub const INPUT_CARD_5: u16 = 0x0020;

pub const INPUT_CARD_6: u16 = 0x0040;

pub const INPUT_CARD_7: u16 = 0x0080;

pub const INPUT_CARD_8: u16 = 0x0100;

pub const INPUT_CARD_9: u16 = 0x0200;

pub const INPUT_CARD_10: u16 = 0x0400;

/// Bits 1 to 10, one per hand slot.
pub const INPUT_CARD_MASK: u16 = 0x07FE;

/// The number of hand slots an input word can address.
pub const INPUT_SLOTS: usize = 10;

/// The flag of hand slot `index`, or zero where the word has no bit for it.
pub open spec fn slot_flag(index: int) -> u16 {
    if index == 0 {
        INPUT_CARD_1
    } else if index == 1 {
        INPUT_CARD_2
    } else if index == 2 {
        INPUT_CARD_3
    } else if index == 3 {
        INPUT_CARD_4
    } else if index == 4 {
        INPUT_CARD_5
    } else if index == 5 {
        INPUT_CARD_6
    } else if index == 6 {
        INPUT_CARD_7
    } else if index == 7 {
        INPUT_CARD_8
    } else if index == 8 {
        INPUT_CARD_9
    } else if index == 9 {
        INPUT_CARD_10
    } else {
        0
    }
}

/// Whether `flags` asks for a draw.
pub open spec fn draw_requested(flags: u16) -> bool {
    flags & INPUT_DRAW != 0
}

/// Whether `flags` asks to play the card in hand slot `index`.
pub open spec fn slot_requested(flags: u16, index: int) -> bool {
    0 <= index < INPUT_SLOTS && flags & slot_flag(index) != 0
}

/// The flag of a slot is the bit one above the slot's index.
pub proof fn lemma_slot_flag_is_shifted_bit(index: u16)
    requires
        index < 10,
    ensures
        slot_flag(index as int) == 1u16 << ((index + 1) as u16),
{
    assert(1u16 << 1u16 == 0x0002u16) by (bit_vector);
    assert(1u16 << 2u16 == 0x0004u16) by (bit_vector);
    assert(1u16 << 3u16 == 0x0008u16) by (bit_vector);
    assert(1u16 << 4u16 == 0x0010u16) by (bit_vector);
    assert(1u16 << 5u16 == 0x0020u16) by (bit_vector);
    assert(1u16 << 6u16 == 0x0040u16) by (bit_vector);
    assert(1u16 << 7u16 == 0x0080u16) by (bit_vector);
    assert(1u16 << 8u16 == 0x0100u16) by (bit_vector);
    assert(1u16 << 9u16 == 0x0200u16) by (bit_vector);
    assert(1u16 << 10u16 == 0x0400u16) by (bit_vector);
}

/// The flags of two different slots share no bit, and none is the draw bit.
pub proof fn lemma_slot_flags_are_distinct_bits(i: int, j: int)
    requires
        0 <= i < 10,
        0 <= j < 10,
    ensures
        slot_flag(i) != 0,
        slot_flag(i) & INPUT_DRAW == 0,
        slot_flag(i) & INPUT_CARD_MASK == slot_flag(i),
        i != j ==> slot_flag(i) & slot_flag(j) == 0,
        slot_requested(slot_flag(i), j) <==> i == j,
{
    let a = slot_flag(i);
    let b = slot_flag(j);
    assert(a & 0x0001u16 == 0 && a & 0x07FEu16 == a && (a != b ==> a & b == 0) && a & a != 0)
        by (bit_vector)
        requires
            a == 0x0002u16 || a == 0x0004u16 || a == 0x0008u16 || a == 0x0010u16 || a
                == 0x0020u16 || a == 0x0040u16 || a == 0x0080u16 || a == 0x0100u16 || a
                == 0x0200u16 || a == 0x0400u16,
            b == 0x0002u16 || b == 0x0004u16 || b == 0x0008u16 || b == 0x0010u16 || b
                == 0x0020u16 || b == 0x0040u16 || b == 0x0080u16 || b == 0x0100u16 || b
                == 0x0200u16 || b == 0x0400u16,
    ;
}

/// The input of one player for one tick: the unit that peers exchange.
#[derive(Copy, Clone, Debug, PartialEq, Eq, Structural)]
pub struct GameInput {
    /// Bit 0 asks for a draw; bits 1 to 10 ask to play the card in hand slot
    /// 0 to 9.
    pub flags: u16,
}

impl Default for GameInput {
    fn default() -> (r: Self)
        ensures
            r.flags == 0,
    {
        GameInput { flags: 0 }
    }
}

impl GameInput {
    pub fn draw_pressed(&self) -> (r: bool)
        ensures
            r == draw_requested(self.flags),
    {
        self.flags & INPUT_DRAW != 0
    }

    pub fn card_pressed(&self, index: usize) -> (r: bool)
        ensures
            r == slot_requested(self.flags, index as int),
    {
        match card_flag(index) {
            Some(flag) => self.flags & flag != 0,
            None => false,
        }
    }

    pub fn any_card_pressed(&self) -> (r: bool)
        ensures
            r == (self.flags & INPUT_CARD_MASK != 0),
            r == exists|i: int| slot_requested(self.flags, i),
    {
        proof {
            lemma_any_slot(self.flags);
        }
        self.flags & INPUT_CARD_MASK != 0
    }
}

/// A word has a bit of the card mask exactly when it asks for some slot.
pub proof fn lemma_any_slot(flags: u16)
    ensures
        (flags & INPUT_CARD_MASK != 0) == exists|i: int| slot_requested(flags, i),
{
    if flags & INPUT_CARD_MASK != 0 {
        assert(flags & 0x0002u16 != 0 || flags & 0x0004u16 != 0 || flags & 0x0008u16 != 0 || flags
            & 0x0010u16 != 0 || flags & 0x0020u16 != 0 || flags & 0x0040u16 != 0 || flags
            & 0x0080u16 != 0 || flags & 0x0100u16 != 0 || flags & 0x0200u16 != 0 || flags
            & 0x0400u16 != 0) by (bit_vector)
            requires
                flags & 0x07FEu16 != 0,
        ;
        if flags & 0x0002u16 != 0 {
            assert(slot_requested(flags, 0));
        } else if flags & 0x0004u16 != 0 {
            assert(slot_requested(flags, 1));
        } else if flags & 0x0008u16 != 0 {
            assert(slot_requested(flags, 2));
        } else if flags & 0x0010u16 != 0 {
            assert(slot_requested(flags, 3));
        } else if flags & 0x0020u16 != 0 {
            assert(slot_requested(flags, 4));
        } else if flags & 0x0040u16 != 0 {
            assert(slot_requested(flags, 5));
        } else if flags & 0x0080u16 != 0 {
            assert(slot_requested(flags, 6));
        } else if flags & 0x0100u16 != 0 {
            assert(slot_requested(flags, 7));
        } else if flags & 0x0200u16 != 0 {
            assert(slot_requested(flags, 8));
        } else {
            assert(slot_requested(flags, 9));
        }
    } else {
        assert forall|i: int| !slot_requested(flags, i) by {
            let f = slot_flag(i);
            if 0 <= i < 10 {
                assert(flags & f == 0) by (bit_vector)
                    requires
                        flags & 0x07FEu16 == 0,
                        f == 0x0002u16 || f == 0x0004u16 || f == 0x0008u16 || f == 0x0010u16
                            || f == 0x0020u16 || f == 0x0040u16 || f == 0x0080u16 || f
                            == 0x0100u16 || f == 0x0200u16 || f == 0x0400u16,
                ;
            }
        }
    }
}

/// Map a hand index (0-9) to its input flag.
pub fn card_flag(index: usize) -> (r: Option<u16>)
    ensures
        index < 10 ==> r == Some(slot_flag(index as int)),
        index >= 10 ==> r.is_none(),
{
    match index {
        0 => Some(INPUT_CARD_1),
        1 => Some(INPUT_CARD_2),
        2 => Some(INPUT_CARD_3),
        3 => Some(INPUT_CARD_4),
        4 => Some(INPUT_CARD_5),
        5 => Some(INPUT_CARD_6),
        6 => Some(INPUT_CARD_7),
        7 => Some(INPUT_CARD_8),
        8 => Some(INPUT_CARD_9),
        9 => Some(INPUT_CARD_10),
        _ => None,
    }
}

/// The keys that were pressed since the last frame, as far as the game reads
/// them.
#[derive(Copy, Clone, Debug, PartialEq, Eq)]
pub struct KeyPresses {
    /// The key `D`.
    pub draw: bool,
    /// The digit keys `1` to `9`, then `0`, which plays the tenth slot.
    pub slots: [bool; 10],
}

/// The input word of the keys `keys`: the draw bit for `D`, and the bit of
/// each hand slot whose digit key is pressed.
pub open spec fn keyboard_flags(keys: KeyPresses) -> u16 {
    keyboard_flags_upto(keys, 10) | if keys.draw {
        INPUT_DRAW
    } else {
        0
    }
}

/// The bits of the hand slots below `count` whose digit keys are pressed.
pub open spec fn keyboard_flags_upto(keys: KeyPresses, count: int) -> u16
    decreases count,
{
    if count <= 0 {
        0
    } else {
        keyboard_flags_upto(keys, count - 1) | if count <= 10 && keys.slots[count - 1] {
            slot_flag(count - 1)
        } else {
            0
        }
    }
}

/// Build input flags from keyboard presses.
pub fn flags_from_keyboard(keys: &KeyPresses) -> (flags: u16)
    ensures
        flags == keyboard_flags(*keys),
{
    let mut flags: u16 = 0;
    let mut i: usize = 0;
    while i < 10
        invariant
            i <= 10,
            flags == keyboard_flags_upto(*keys, i as int),
        decreases 10 - i,
    {
        if keys.slots[i] {
            match card_flag(i) {
                Some(flag) => {
                    flags = flags | flag;
                },
                None => {},
            }
        } else {
            assert(flags | 0 == flags) by (bit_vector);
        }
        i = i + 1;
    }
    if keys.draw {
        flags = flags | INPUT_DRAW;
    } else {
        assert(flags | 0 == flags) by (bit_vector);
    }
    flags
}

/// The word of the keyboard asks for exactly what was pressed: a draw where
/// `D` was, and the slots whose digits were.
pub proof fn lemma_keyboard_flags(keys: KeyPresses)
    ensures
        draw_requested(keyboard_flags(keys)) == keys.draw,
        forall|slot: int|
            0 <= slot < 10 ==> #[trigger] slot_requested(keyboard_flags(keys), slot)
                == keys.slots[slot],
        keyboard_flags(keys) & !(INPUT_DRAW | INPUT_CARD_MASK) == 0,
{
    lemma_keyboard_flags_upto(keys, 10);
    let cards = keyboard_flags_upto(keys, 10);
    let whole = keyboard_flags(keys);
    let draw = keys.draw;
    let bit: u16 = if draw {
        0x0001
    } else {
        0
    };
    assert(whole & !(0x0001u16 | 0x07FEu16) == 0 && (whole & 0x0001u16 != 0) == draw)
        by (bit_vector)
        requires
            cards & !0x07FEu16 == 0,
            whole == cards | bit,
            bit == 0x0001u16 && draw || bit == 0u16 && !draw,
    ;
    assert forall|slot: int| 0 <= slot < 10 implies #[trigger] slot_requested(whole, slot)
        == keys.slots[slot] by {
        let flag = slot_flag(slot);
        lemma_slot_flags_are_distinct_bits(slot, slot);
        assert((whole & flag != 0) == (cards & flag != 0)) by (bit_vector)
            requires
                flag & 0x0001u16 == 0,
                whole == cards | bit,
                bit == 0x0001u16 || bit == 0u16,
        ;
        assert(slot_requested(cards, slot) == keys.slots[slot]);
    }
}

/// The bits of the slots below `count` are set for the digits pressed, and no
/// other bit is.
pub proof fn lemma_keyboard_flags_upto(keys: KeyPresses, count: int)
    requires
        0 <= count <= 10,
    ensures
        forall|slot: int|
            0 <= slot < 10 ==> #[trigger] slot_requested(keyboard_flags_upto(keys, count), slot)
                == (slot < count && keys.slots[slot]),
        keyboard_flags_upto(keys, count) & !INPUT_CARD_MASK == 0,
    decreases count,
{
    if count <= 0 {
        assert forall|slot: int| 0 <= slot < 10 implies !slot_requested(0, slot) by {
            let flag = slot_flag(slot);
            assert(0u16 & flag == 0) by (bit_vector);
        }
        assert(0u16 & !0x07FEu16 == 0) by (bit_vector);
    } else {
        lemma_keyboard_flags_upto(keys, count - 1);
        let before = keyboard_flags_upto(keys, count - 1);
        let pressed = keys.slots[count - 1];
        let own = slot_flag(count - 1);
        let bit = if pressed {
            own
        } else {
            0
        };
        let after = keyboard_flags_upto(keys, count);
        assert(after == before | bit);
        lemma_slot_flags_are_distinct_bits(count - 1, count - 1);
        assert(after & !0x07FEu16 == 0) by (bit_vector)
            requires
                before & !0x07FEu16 == 0,
                own & 0x07FEu16 == own,
                bit == own || bit == 0,
                after == before | bit,
        ;
        assert forall|slot: int| 0 <= slot < 10 implies #[trigger] slot_requested(after, slot) == (
        slot < count && keys.slots[slot]) by {
            let flag = slot_flag(slot);
            lemma_slot_flags_are_distinct_bits(count - 1, slot);
            lemma_slot_flags_are_distinct_bits(slot, slot);
            assert(slot_requested(before, slot) == (slot < count - 1 && keys.slots[slot]));
            if slot == count - 1 {
                assert((after & flag != 0) == pressed) by (bit_vector)
                    requires
                        after == before | bit,
                        bit == flag && pressed || bit == 0 && !pressed,
                        before & flag == 0,
                        flag != 0,
                ;
            } else {
                assert((after & flag != 0) == (before & flag != 0)) by (bit_vector)
                    requires
                        after == before | bit,
                        bit == own || bit == 0,
                        own & flag == 0,
                ;
            }
        }
    }
}

} // verus!
