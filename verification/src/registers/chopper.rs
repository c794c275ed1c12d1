//! Microstep table, chopper and driver status registers.

use vstd::prelude::*;
use crate::registers::bits::{
    bit, field, fitting, get_field, get_flag, lemma_bit_values, lemma_field_fits,
    lemma_field_updated, lemma_field_written, lemma_mask_values, lemma_pack_unpack, pack,
    set_field, set_flag, sound, unpack, with_field,
};
use crate::wire::{from_le_bytes, le_bytes, le_value, to_le_bytes};

verus! {

/// Segmentation of the microstep wave table.
#[derive(Clone, Copy, Debug, PartialEq, Eq, Structural)]
pub struct MsLutSel {
    /// The register word; bit 0 is the lowest bit of the first field.
    pub word: u32,
}

impl MsLutSel {
    /// Where each field lies: the lowest bit and the width of every field, in the
    /// order of the accessors below.
    pub open spec fn layout() -> Seq<(u32, u32)> {
        seq![
            (0u32, 2u32), (2u32, 2u32), (4u32, 2u32), (6u32, 2u32), (8u32, 8u32),
            (16u32, 8u32), (24u32, 8u32),
        ]
    }

    /// The values of the fields, in the order of the layout.
    pub open spec fn fields(self) -> Seq<u32> {
        unpack(Self::layout(), self.word)
    }

    /// The register that holds the given values in its fields and zero in every
    /// other bit.
    pub open spec fn of_fields(values: Seq<u32>) -> Self {
        MsLutSel { word: pack(Self::layout(), values) }
    }

    /// Every field lies within the word, and no two fields share a bit.
    pub proof fn lemma_layout_sound()
        ensures
            sound(Self::layout()),
    {
    }

    /// Field values that fit their widths come out of the register as they went
    /// in.
    pub proof fn lemma_fields_round_trip(values: Seq<u32>)
        requires
            fitting(Self::layout(), values),
        ensures
            Self::of_fields(values).fields() == values,
    {
        lemma_pack_unpack(Self::layout(), values);
    }

    /// The register as the chip holds it after power-on.
    pub open spec fn spec_new() -> Self {
        MsLutSel { word: 0xFFFF_8056 }
    }

    /// The register that holds `word`.
    pub open spec fn spec_from_word(word: u32) -> Self {
        MsLutSel { word }
    }

    /// The word of the register.
    pub open spec fn spec_to_word(&self) -> u32 {
        self.word
    }

    /// Turning a register into its word and back gives the same register, and
    /// turning a word into a register and back gives the same word.
    pub proof fn lemma_word_round_trip(self, word: u32)
        ensures
            Self::from_word(self.to_word()) == self,
            Self::from_word(word).to_word() == word,
    {
    }

    /// The register as the chip holds it after power-on.
    #[verifier::when_used_as_spec(spec_new)]
    pub fn new() -> (register: Self)
        ensures
            register == Self::spec_new(),
            register.word == 0xFFFF_8056,
    {
        MsLutSel { word: 0xFFFF_8056 }
    }

    /// The register that holds `word`. All 32 bits are kept, those outside every
    /// field too.
    #[verifier::when_used_as_spec(spec_from_word)]
    pub fn from_word(word: u32) -> (register: Self)
        ensures
            register == Self::spec_from_word(word),
    {
        MsLutSel { word }
    }

    /// The register word.
    #[verifier::when_used_as_spec(spec_to_word)]
    pub fn to_word(&self) -> (word: u32)
        ensures
            word == self.word,
    {
        self.word
    }

    /// The register held by four bytes, least significant first.
    pub fn from_bytes(bytes: [u8; 4]) -> (register: Self)
        ensures
            register.word == le_value(bytes@),
            le_bytes(register.word) == bytes@,
    {
        MsLutSel { word: from_le_bytes(bytes) }
    }

    /// The register word as four bytes, least significant first.
    pub fn into_bytes(self) -> (bytes: [u8; 4])
        ensures
            bytes@ == le_bytes(self.word),
            le_value(bytes@) == self.word,
    {
        to_le_bytes(self.word)
    }

    /// Bits 1 to 0: width selection of the first table segment.
    pub fn w0(&self) -> (value: u8)
        ensures
            value == field(self.word, 0, 2),
            value == self.fields()[0],
            value <= 0x3,
    {
        proof {
            lemma_field_fits(self.word, 0, 2);
            lemma_mask_values();
        }
        get_field(self.word, 0, 2) as u8
    }

    /// Writes bits 1 to 0 from the lowest two bits of `value` and leaves all other bits as
    /// they are.
    pub fn set_w0(&mut self, value: u8)
        ensures
            final(self).word == with_field(old(self).word, 0, 2, value as u32),
            final(self).fields() == old(self).fields().update(
                0,
                value as u32 & 0x3,
            ),
            value <= 0x3 ==> final(self).fields()[0] == value,
    {
        proof {
            lemma_mask_values();
            lemma_field_updated(Self::layout(), self.word, 0, value as u32);
            lemma_field_written(self.word, 0, 2, value as u32);
        }
        self.word = set_field(self.word, 0, 2, value as u32);
    }

    /// Bits 3 to 2: width selection of the second table segment.
    pub fn w1(&self) -> (value: u8)
        ensures
            value == field(self.word, 2, 2),
            value == self.fields()[1],
            value <= 0x3,
    {
        proof {
            lemma_field_fits(self.word, 2, 2);
            lemma_mask_values();
        }
        get_field(self.word, 2, 2) as u8
    }

    /// Writes bits 3 to 2 from the lowest two bits of `value` and leaves all other bits as
    /// they are.
    pub fn set_w1(&mut self, value: u8)
        ensures
            final(self).word == with_field(old(self).word, 2, 2, value as u32),
            final(self).fields() == old(self).fields().update(
                1,
                value as u32 & 0x3,
            ),
            value <= 0x3 ==> final(self).fields()[1] == value,
    {
        proof {
            lemma_mask_values();
            lemma_field_updated(Self::layout(), self.word, 1, value as u32);
            lemma_field_written(self.word, 2, 2, value as u32);
        }
        self.word = set_field(self.word, 2, 2, value as u32);
    }

    /// Bits 5 to 4: width selection of the third table segment.
    pub fn w2(&self) -> (value: u8)
        ensures
            value == field(self.word, 4, 2),
            value == self.fields()[2],
            value <= 0x3,
    {
        proof {
            lemma_field_fits(self.word, 4, 2);
            lemma_mask_values();
        }
        get_field(self.word, 4, 2) as u8
    }

    /// Writes bits 5 to 4 from the lowest two bits of `value` and leaves all other bits as
    /// they are.
    pub fn set_w2(&mut self, value: u8)
        ensures
            final(self).word == with_field(old(self).word, 4, 2, value as u32),
            final(self).fields() == old(self).fields().update(
                2,
                value as u32 & 0x3,
            ),
            value <= 0x3 ==> final(self).fields()[2] == value,
    {
        proof {
            lemma_mask_values();
            lemma_field_updated(Self::layout(), self.word, 2, value as u32);
            lemma_field_written(self.word, 4, 2, value as u32);
        }
        self.word = set_field(self.word, 4, 2, value as u32);
    }

    /// Bits 7 to 6: width selection of the fourth table segment.
    pub fn w3(&self) -> (value: u8)
        ensures
            value == field(self.word, 6, 2),
            value == self.fields()[3],
            value <= 0x3,
    {
        proof {
            lemma_field_fits(self.word, 6, 2);
            lemma_mask_values();
        }
        get_field(self.word, 6, 2) as u8
    }

    /// Writes bits 7 to 6 from the lowest two bits of `value` and leaves all other bits as
    /// they are.
    pub fn set_w3(&mut self, value: u8)
        ensures
            final(self).word == with_field(old(self).word, 6, 2, value as u32),
            final(self).fields() == old(self).fields().update(
                3,
                value as u32 & 0x3,
            ),
            value <= 0x3 ==> final(self).fields()[3] == value,
    {
        proof {
            lemma_mask_values();
            lemma_field_updated(Self::layout(), self.word, 3, value as u32);
            lemma_field_written(self.word, 6, 2, value as u32);
        }
        self.word = set_field(self.word, 6, 2, value as u32);
    }

    /// Bits 15 to 8: table position at which the second segment starts.
    pub fn x1(&self) -> (value: u8)
        ensures
            value == field(self.word, 8, 8),
            value == self.fields()[4],
    {
        proof {
            lemma_field_fits(self.word, 8, 8);
            lemma_mask_values();
        }
        get_field(self.word, 8, 8) as u8
    }

    /// Writes bits 15 to 8 from `value` and leaves all other bits as they are.
    pub fn set_x1(&mut self, value: u8)
        ensures
            final(self).word == with_field(old(self).word, 8, 8, value as u32),
            final(self).fields() == old(self).fields().update(
                4,
                value as u32 & 0xFF,
            ),
            value <= 0xFF ==> final(self).fields()[4] == value,
    {
        proof {
            lemma_mask_values();
            lemma_field_updated(Self::layout(), self.word, 4, value as u32);
            lemma_field_written(self.word, 8, 8, value as u32);
        }
        self.word = set_field(self.word, 8, 8, value as u32);
    }

    /// Bits 23 to 16: table position at which the third segment starts.
    pub fn x2(&self) -> (value: u8)
        ensures
            value == field(self.word, 16, 8),
            value == self.fields()[5],
    {
        proof {
            lemma_field_fits(self.word, 16, 8);
            lemma_mask_values();
        }
        get_field(self.word, 16, 8) as u8
    }

    /// Writes bits 23 to 16 from `value` and leaves all other bits as they are.
    pub fn set_x2(&mut self, value: u8)
        ensures
            final(self).word == with_field(old(self).word, 16, 8, value as u32),
            final(self).fields() == old(self).fields().update(
                5,
                value as u32 & 0xFF,
            ),
            value <= 0xFF ==> final(self).fields()[5] == value,
    {
        proof {
            lemma_mask_values();
            lemma_field_updated(Self::layout(), self.word, 5, value as u32);
            lemma_field_written(self.word, 16, 8, value as u32);
        }
        self.word = set_field(self.word, 16, 8, value as u32);
    }

    /// Bits 31 to 24: table position at which the fourth segment starts.
    pub fn x3(&self) -> (value: u8)
        ensures
            value == field(self.word, 24, 8),
            value == self.fields()[6],
    {
        proof {
            lemma_field_fits(self.word, 24, 8);
            lemma_mask_values();
        }
        get_field(self.word, 24, 8) as u8
    }

    /// Writes bits 31 to 24 from `value` and leaves all other bits as they are.
    pub fn set_x3(&mut self, value: u8)
        ensures
            final(self).word == with_field(old(self).word, 24, 8, value as u32),
            final(self).fields() == old(self).fields().update(
                6,
                value as u32 & 0xFF,
            ),
            value <= 0xFF ==> final(self).fields()[6] == value,
    {
        proof {
            lemma_mask_values();
            lemma_field_updated(Self::layout(), self.word, 6, value as u32);
            lemma_field_written(self.word, 24, 8, value as u32);
        }
        self.word = set_field(self.word, 24, 8, value as u32);
    }
}

/// Chopper configuration and microstep resolution.
#[derive(Clone, Copy, Debug, PartialEq, Eq, Structural)]
pub struct ChopConf {
    /// The register word; bit 0 is the lowest bit of the first field.
    pub word: u32,
}

impl ChopConf {
    /// Where each field lies: the lowest bit and the width of every field, in the
    /// order of the accessors below.
    pub open spec fn layout() -> Seq<(u32, u32)> {
        seq![
            (0u32, 4u32), (4u32, 3u32), (7u32, 4u32), (11u32, 1u32), (12u32, 1u32),
            (14u32, 1u32), (15u32, 2u32), (18u32, 1u32), (19u32, 1u32), (20u32, 4u32),
            (24u32, 4u32), (28u32, 1u32), (29u32, 1u32), (30u32, 1u32), (31u32, 1u32),
        ]
    }

    /// The values of the fields, in the order of the layout.
    pub open spec fn fields(self) -> Seq<u32> {
        unpack(Self::layout(), self.word)
    }

    /// The register that holds the given values in its fields and zero in every
    /// other bit.
    pub open spec fn of_fields(values: Seq<u32>) -> Self {
        ChopConf { word: pack(Self::layout(), values) }
    }

    /// Every field lies within the word, and no two fields share a bit.
    pub proof fn lemma_layout_sound()
        ensures
            sound(Self::layout()),
    {
    }

    /// Field values that fit their widths come out of the register as they went
    /// in.
    pub proof fn lemma_fields_round_trip(values: Seq<u32>)
        requires
            fitting(Self::layout(), values),
        ensures
            Self::of_fields(values).fields() == values,
    {
        lemma_pack_unpack(Self::layout(), values);
    }

    /// The register as the chip holds it after power-on.
    pub open spec fn spec_new() -> Self {
        ChopConf { word: 0x1041_0150 }
    }

    /// The register that holds `word`.
    pub open spec fn spec_from_word(word: u32) -> Self {
        ChopConf { word }
    }

    /// The word of the register.
    pub open spec fn spec_to_word(&self) -> u32 {
        self.word
    }

    /// Turning a register into its word and back gives the same register, and
    /// turning a word into a register and back gives the same word.
    pub proof fn lemma_word_round_trip(self, word: u32)
        ensures
            Self::from_word(self.to_word()) == self,
            Self::from_word(word).to_word() == word,
    {
    }

    /// The register as the chip holds it after power-on.
    #[verifier::when_used_as_spec(spec_new)]
    pub fn new() -> (register: Self)
        ensures
            register == Self::spec_new(),
            register.word == 0x1041_0150,
    {
        ChopConf { word: 0x1041_0150 }
    }

    /// The register that holds `word`. All 32 bits are kept, those outside every
    /// field too.
    #[verifier::when_used_as_spec(spec_from_word)]
    pub fn from_word(word: u32) -> (register: Self)
        ensures
            register == Self::spec_from_word(word),
    {
        ChopConf { word }
    }

    /// The register word.
    #[verifier::when_used_as_spec(spec_to_word)]
    pub fn to_word(&self) -> (word: u32)
        ensures
            word == self.word,
    {
        self.word
    }

    /// The register held by four bytes, least significant first.
    pub fn from_bytes(bytes: [u8; 4]) -> (register: Self)
        ensures
            register.word == le_value(bytes@),
            le_bytes(register.word) == bytes@,
    {
        ChopConf { word: from_le_bytes(bytes) }
    }

    /// The register word as four bytes, least significant first.
    pub fn into_bytes(self) -> (bytes: [u8; 4])
        ensures
            bytes@ == le_bytes(self.word),
            le_value(bytes@) == self.word,
    {
        to_le_bytes(self.word)
    }

    /// Bits 3 to 0: slow-decay off time; zero switches the driver off.
    pub fn toff(&self) -> (value: u8)
        ensures
            value == field(self.word, 0, 4),
            value == self.fields()[0],
            value <= 0xF,
    {
        proof {
            lemma_field_fits(self.word, 0, 4);
            lemma_mask_values();
        }
        get_field(self.word, 0, 4) as u8
    }

    /// Writes bits 3 to 0 from the lowest four bits of `value` and leaves all other bits as
    /// they are.
    pub fn set_toff(&mut self, value: u8)
        ensures
            final(self).word == with_field(old(self).word, 0, 4, value as u32),
            final(self).fields() == old(self).fields().update(
                0,
                value as u32 & 0xF,
            ),
            value <= 0xF ==> final(self).fields()[0] == value,
    {
        proof {
            lemma_mask_values();
            lemma_field_updated(Self::layout(), self.word, 0, value as u32);
            lemma_field_written(self.word, 0, 4, value as u32);
        }
        self.word = set_field(self.word, 0, 4, value as u32);
    }

    /// Bits 6 to 4: hysteresis start offset, or the fast-decay time in constant-off-time mode.
    pub fn hstrt(&self) -> (value: u8)
        ensures
            value == field(self.word, 4, 3),
            value == self.fields()[1],
            value <= 0x7,
    {
        proof {
            lemma_field_fits(self.word, 4, 3);
            lemma_mask_values();
        }
        get_field(self.word, 4, 3) as u8
    }

    /// Writes bits 6 to 4 from the lowest three bits of `value` and leaves all other bits as
    /// they are.
    pub fn set_hstrt(&mut self, value: u8)
        ensures
            final(self).word == with_field(old(self).word, 4, 3, value as u32),
            final(self).fields() == old(self).fields().update(
                1,
                value as u32 & 0x7,
            ),
            value <= 0x7 ==> final(self).fields()[1] == value,
    {
        proof {
            lemma_mask_values();
            lemma_field_updated(Self::layout(), self.word, 1, value as u32);
            lemma_field_written(self.word, 4, 3, value as u32);
        }
        self.word = set_field(self.word, 4, 3, value as u32);
    }

    /// Bits 10 to 7: hysteresis end value, or the sine offset in constant-off-time mode.
    pub fn hend(&self) -> (value: u8)
        ensures
            value == field(self.word, 7, 4),
            value == self.fields()[2],
            value <= 0xF,
    {
        proof {
            lemma_field_fits(self.word, 7, 4);
            lemma_mask_values();
        }
        get_field(self.word, 7, 4) as u8
    }

    /// Writes bits 10 to 7 from the lowest four bits of `value` and leaves all other bits as
    /// they are.
    pub fn set_hend(&mut self, value: u8)
        ensures
            final(self).word == with_field(old(self).word, 7, 4, value as u32),
            final(self).fields() == old(self).fields().update(
                2,
                value as u32 & 0xF,
            ),
            value <= 0xF ==> final(self).fields()[2] == value,
    {
        proof {
            lemma_mask_values();
            lemma_field_updated(Self::layout(), self.word, 2, value as u32);
            lemma_field_written(self.word, 7, 4, value as u32);
        }
        self.word = set_field(self.word, 7, 4, value as u32);
    }

    /// Bit 11: most significant bit of the fast-decay time.
    pub fn fd3(&self) -> (flag: bool)
        ensures
            flag == (field(self.word, 11, 1) == 1),
            flag == (self.fields()[3] == 1),
    {
        get_flag(self.word, 11)
    }

    /// Writes bit 11 and leaves all other bits as they are.
    pub fn set_fd3(&mut self, flag: bool)
        ensures
            final(self).word == with_field(old(self).word, 11, 1, bit(flag)),
            final(self).fields() == old(self).fields().update(3, bit(flag)),
    {
        proof {
            lemma_bit_values(flag);
            lemma_field_updated(Self::layout(), self.word, 3, bit(flag));
        }
        self.word = set_flag(self.word, 11, flag);
    }

    /// Bit 12: do not end the fast-decay phase by the current comparator.
    pub fn disfdcc(&self) -> (flag: bool)
        ensures
            flag == (field(self.word, 12, 1) == 1),
            flag == (self.fields()[4] == 1),
    {
        get_flag(self.word, 12)
    }

    /// Writes bit 12 and leaves all other bits as they are.
    pub fn set_disfdcc(&mut self, flag: bool)
        ensures
            final(self).word == with_field(old(self).word, 12, 1, bit(flag)),
            final(self).fields() == old(self).fields().update(4, bit(flag)),
    {
        proof {
            lemma_bit_values(flag);
            lemma_field_updated(Self::layout(), self.word, 4, bit(flag));
        }
        self.word = set_flag(self.word, 12, flag);
    }

    /// Bit 14: constant-off-time chopper instead of the hysteresis chopper.
    pub fn chm(&self) -> (flag: bool)
        ensures
            flag == (field(self.word, 14, 1) == 1),
            flag == (self.fields()[5] == 1),
    {
        get_flag(self.word, 14)
    }

    /// Writes bit 14 and leaves all other bits as they are.
    pub fn set_chm(&mut self, flag: bool)
        ensures
            final(self).word == with_field(old(self).word, 14, 1, bit(flag)),
            final(self).fields() == old(self).fields().update(5, bit(flag)),
    {
        proof {
            lemma_bit_values(flag);
            lemma_field_updated(Self::layout(), self.word, 5, bit(flag));
        }
        self.word = set_flag(self.word, 14, flag);
    }

    /// Bits 16 to 15: comparator blank time selection.
    pub fn tbl(&self) -> (value: u8)
        ensures
            value == field(self.word, 15, 2),
            value == self.fields()[6],
            value <= 0x3,
    {
        proof {
            lemma_field_fits(self.word, 15, 2);
            lemma_mask_values();
        }
        get_field(self.word, 15, 2) as u8
    }

    /// Writes bits 16 to 15 from the lowest two bits of `value` and leaves all other bits as
    /// they are.
    pub fn set_tbl(&mut self, value: u8)
        ensures
            final(self).word == with_field(old(self).word, 15, 2, value as u32),
            final(self).fields() == old(self).fields().update(
                6,
                value as u32 & 0x3,
            ),
            value <= 0x3 ==> final(self).fields()[6] == value,
    {
        proof {
            lemma_mask_values();
            lemma_field_updated(Self::layout(), self.word, 6, value as u32);
            lemma_field_written(self.word, 15, 2, value as u32);
        }
        self.word = set_field(self.word, 15, 2, value as u32);
    }

    /// Bit 18: switch to full steps above the high-velocity threshold.
    pub fn vhighfs(&self) -> (flag: bool)
        ensures
            flag == (field(self.word, 18, 1) == 1),
            flag == (self.fields()[7] == 1),
    {
        get_flag(self.word, 18)
    }

    /// Writes bit 18 and leaves all other bits as they are.
    pub fn set_vhighfs(&mut self, flag: bool)
        ensures
            final(self).word == with_field(old(self).word, 18, 1, bit(flag)),
            final(self).fields() == old(self).fields().update(7, bit(flag)),
    {
        proof {
            lemma_bit_values(flag);
            lemma_field_updated(Self::layout(), self.word, 7, bit(flag));
        }
        self.word = set_flag(self.word, 18, flag);
    }

    /// Bit 19: switch to the constant-off-time chopper above the high-velocity threshold.
    pub fn vhighchm(&self) -> (flag: bool)
        ensures
            flag == (field(self.word, 19, 1) == 1),
            flag == (self.fields()[8] == 1),
    {
        get_flag(self.word, 19)
    }

    /// Writes bit 19 and leaves all other bits as they are.
    pub fn set_vhighchm(&mut self, flag: bool)
        ensures
            final(self).word == with_field(old(self).word, 19, 1, bit(flag)),
            final(self).fields() == old(self).fields().update(8, bit(flag)),
    {
        proof {
            lemma_bit_values(flag);
            lemma_field_updated(Self::layout(), self.word, 8, bit(flag));
        }
        self.word = set_flag(self.word, 19, flag);
    }

    /// Bits 23 to 20: passive fast-decay time after a bridge polarity change.
    pub fn tpfd(&self) -> (value: u8)
        ensures
            value == field(self.word, 20, 4),
            value == self.fields()[9],
            value <= 0xF,
    {
        proof {
            lemma_field_fits(self.word, 20, 4);
            lemma_mask_values();
        }
        get_field(self.word, 20, 4) as u8
    }

    /// Writes bits 23 to 20 from the lowest four bits of `value` and leaves all other bits as
    /// they are.
    pub fn set_tpfd(&mut self, value: u8)
        ensures
            final(self).word == with_field(old(self).word, 20, 4, value as u32),
            final(self).fields() == old(self).fields().update(
                9,
                value as u32 & 0xF,
            ),
            value <= 0xF ==> final(self).fields()[9] == value,
    {
        proof {
            lemma_mask_values();
            lemma_field_updated(Self::layout(), self.word, 9, value as u32);
            lemma_field_written(self.word, 20, 4, value as u32);
        }
        self.word = set_field(self.word, 20, 4, value as u32);
    }

    /// Bits 27 to 24: microstep resolution: 256 divided by two to this power.
    pub fn mres(&self) -> (value: u8)
        ensures
            value == field(self.word, 24, 4),
            value == self.fields()[10],
            value <= 0xF,
    {
        proof {
            lemma_field_fits(self.word, 24, 4);
            lemma_mask_values();
        }
        get_field(self.word, 24, 4) as u8
    }

    /// Writes bits 27 to 24 from the lowest four bits of `value` and leaves all other bits as
    /// they are.
    pub fn set_mres(&mut self, value: u8)
        ensures
            final(self).word == with_field(old(self).word, 24, 4, value as u32),
            final(self).fields() == old(self).fields().update(
                10,
                value as u32 & 0xF,
            ),
            value <= 0xF ==> final(self).fields()[10] == value,
    {
        proof {
            lemma_mask_values();
            lemma_field_updated(Self::layout(), self.word, 10, value as u32);
            lemma_field_written(self.word, 24, 4, value as u32);
        }
        self.word = set_field(self.word, 24, 4, value as u32);
    }

    /// Bit 28: interpolate external steps to 256 microsteps.
    pub fn intpol(&self) -> (flag: bool)
        ensures
            flag == (field(self.word, 28, 1) == 1),
            flag == (self.fields()[11] == 1),
    {
        get_flag(self.word, 28)
    }

    /// Writes bit 28 and leaves all other bits as they are.
    pub fn set_intpol(&mut self, flag: bool)
        ensures
            final(self).word == with_field(old(self).word, 28, 1, bit(flag)),
            final(self).fields() == old(self).fields().update(11, bit(flag)),
    {
        proof {
            lemma_bit_values(flag);
            lemma_field_updated(Self::layout(), self.word, 11, bit(flag));
        }
        self.word = set_flag(self.word, 28, flag);
    }

    /// Bit 29: step on both edges of the step input.
    pub fn dedge(&self) -> (flag: bool)
        ensures
            flag == (field(self.word, 29, 1) == 1),
            flag == (self.fields()[12] == 1),
    {
        get_flag(self.word, 29)
    }

    /// Writes bit 29 and leaves all other bits as they are.
    pub fn set_dedge(&mut self, flag: bool)
        ensures
            final(self).word == with_field(old(self).word, 29, 1, bit(flag)),
            final(self).fields() == old(self).fields().update(12, bit(flag)),
    {
        proof {
            lemma_bit_values(flag);
            lemma_field_updated(Self::layout(), self.word, 12, bit(flag));
        }
        self.word = set_flag(self.word, 29, flag);
    }

    /// Bit 30: disable the short-to-ground protection.
    pub fn diss2g(&self) -> (flag: bool)
        ensures
            flag == (field(self.word, 30, 1) == 1),
            flag == (self.fields()[13] == 1),
    {
        get_flag(self.word, 30)
    }

    /// Writes bit 30 and leaves all other bits as they are.
    pub fn set_diss2g(&mut self, flag: bool)
        ensures
            final(self).word == with_field(old(self).word, 30, 1, bit(flag)),
            final(self).fields() == old(self).fields().update(13, bit(flag)),
    {
        proof {
            lemma_bit_values(flag);
            lemma_field_updated(Self::layout(), self.word, 13, bit(flag));
        }
        self.word = set_flag(self.word, 30, flag);
    }

    /// Bit 31: disable the short-to-supply protection.
    pub fn diss2vs(&self) -> (flag: bool)
        ensures
            flag == (field(self.word, 31, 1) == 1),
            flag == (self.fields()[14] == 1),
    {
        get_flag(self.word, 31)
    }

    /// Writes bit 31 and leaves all other bits as they are.
    pub fn set_diss2vs(&mut self, flag: bool)
        ensures
            final(self).word == with_field(old(self).word, 31, 1, bit(flag)),
            final(self).fields() == old(self).fields().update(14, bit(flag)),
    {
        proof {
            lemma_bit_values(flag);
            lemma_field_updated(Self::layout(), self.word, 14, bit(flag));
        }
        self.word = set_flag(self.word, 31, flag);
    }
}

/// Load-adaptive current control and stall detection.
#[derive(Clone, Copy, Debug, PartialEq, Eq, Structural)]
pub struct CoolConf {
    /// The register word; bit 0 is the lowest bit of the first field.
    pub word: u32,
}

impl CoolConf {
    /// Where each field lies: the lowest bit and the width of every field, in the
    /// order of the accessors below.
    pub open spec fn layout() -> Seq<(u32, u32)> {
        seq![
            (0u32, 4u32), (5u32, 2u32), (8u32, 4u32), (13u32, 2u32), (15u32, 1u32),
            (16u32, 7u32), (24u32, 1u32),
        ]
    }

    /// The values of the fields, in the order of the layout.
    pub open spec fn fields(self) -> Seq<u32> {
        unpack(Self::layout(), self.word)
    }

    /// The register that holds the given values in its fields and zero in every
    /// other bit.
    pub open spec fn of_fields(values: Seq<u32>) -> Self {
        CoolConf { word: pack(Self::layout(), values) }
    }

    /// Every field lies within the word, and no two fields share a bit.
    pub proof fn lemma_layout_sound()
        ensures
            sound(Self::layout()),
    {
    }

    /// Field values that fit their widths come out of the register as they went
    /// in.
    pub proof fn lemma_fields_round_trip(values: Seq<u32>)
        requires
            fitting(Self::layout(), values),
        ensures
            Self::of_fields(values).fields() == values,
    {
        lemma_pack_unpack(Self::layout(), values);
    }

    /// The register as the chip holds it after power-on: every bit clear.
    pub open spec fn spec_new() -> Self {
        CoolConf { word: 0 }
    }

    /// The register that holds `word`.
    pub open spec fn spec_from_word(word: u32) -> Self {
        CoolConf { word }
    }

    /// The word of the register.
    pub open spec fn spec_to_word(&self) -> u32 {
        self.word
    }

    /// Turning a register into its word and back gives the same register, and
    /// turning a word into a register and back gives the same word.
    pub proof fn lemma_word_round_trip(self, word: u32)
        ensures
            Self::from_word(self.to_word()) == self,
            Self::from_word(word).to_word() == word,
    {
    }

    /// The register as the chip holds it after power-on: every bit clear.
    #[verifier::when_used_as_spec(spec_new)]
    pub fn new() -> (register: Self)
        ensures
            register == Self::spec_new(),
            register.word == 0,
    {
        CoolConf { word: 0 }
    }

    /// The register that holds `word`. All 32 bits are kept, those outside every
    /// field too.
    #[verifier::when_used_as_spec(spec_from_word)]
    pub fn from_word(word: u32) -> (register: Self)
        ensures
            register == Self::spec_from_word(word),
    {
        CoolConf { word }
    }

    /// The register word.
    #[verifier::when_used_as_spec(spec_to_word)]
    pub fn to_word(&self) -> (word: u32)
        ensures
            word == self.word,
    {
        self.word
    }

    /// The register held by four bytes, least significant first.
    pub fn from_bytes(bytes: [u8; 4]) -> (register: Self)
        ensures
            register.word == le_value(bytes@),
            le_bytes(register.word) == bytes@,
    {
        CoolConf { word: from_le_bytes(bytes) }
    }

    /// The register word as four bytes, least significant first.
    pub fn into_bytes(self) -> (bytes: [u8; 4])
        ensures
            bytes@ == le_bytes(self.word),
            le_value(bytes@) == self.word,
    {
        to_le_bytes(self.word)
    }

    /// Bits 3 to 0: lower load threshold below which the current is raised; zero disables the control.
    pub fn semin(&self) -> (value: u8)
        ensures
            value == field(self.word, 0, 4),
            value == self.fields()[0],
            value <= 0xF,
    {
        proof {
            lemma_field_fits(self.word, 0, 4);
            lemma_mask_values();
        }
        get_field(self.word, 0, 4) as u8
    }

    /// Writes bits 3 to 0 from the lowest four bits of `value` and leaves all other bits as
    /// they are.
    pub fn set_semin(&mut self, value: u8)
        ensures
            final(self).word == with_field(old(self).word, 0, 4, value as u32),
            final(self).fields() == old(self).fields().update(
                0,
                value as u32 & 0xF,
            ),
            value <= 0xF ==> final(self).fields()[0] == value,
    {
        proof {
            lemma_mask_values();
            lemma_field_updated(Self::layout(), self.word, 0, value as u32);
            lemma_field_written(self.word, 0, 4, value as u32);
        }
        self.word = set_field(self.word, 0, 4, value as u32);
    }

    /// Bits 6 to 5: current increment step width.
    pub fn seup(&self) -> (value: u8)
        ensures
            value == field(self.word, 5, 2),
            value == self.fields()[1],
            value <= 0x3,
    {
        proof {
            lemma_field_fits(self.word, 5, 2);
            lemma_mask_values();
        }
        get_field(self.word, 5, 2) as u8
    }

    /// Writes bits 6 to 5 from the lowest two bits of `value` and leaves all other bits as
    /// they are.
    pub fn set_seup(&mut self, value: u8)
        ensures
            final(self).word == with_field(old(self).word, 5, 2, value as u32),
            final(self).fields() == old(self).fields().update(
                1,
                value as u32 & 0x3,
            ),
            value <= 0x3 ==> final(self).fields()[1] == value,
    {
        proof {
            lemma_mask_values();
            lemma_field_updated(Self::layout(), self.word, 1, value as u32);
            lemma_field_written(self.word, 5, 2, value as u32);
        }
        self.word = set_field(self.word, 5, 2, value as u32);
    }

    /// Bits 11 to 8: hysteresis above the lower threshold beyond which the current is reduced.
    pub fn semax(&self) -> (value: u8)
        ensures
            value == field(self.word, 8, 4),
            value == self.fields()[2],
            value <= 0xF,
    {
        proof {
            lemma_field_fits(self.word, 8, 4);
            lemma_mask_values();
        }
        get_field(self.word, 8, 4) as u8
    }

    /// Writes bits 11 to 8 from the lowest four bits of `value` and leaves all other bits as
    /// they are.
    pub fn set_semax(&mut self, value: u8)
        ensures
            final(self).word == with_field(old(self).word, 8, 4, value as u32),
            final(self).fields() == old(self).fields().update(
                2,
                value as u32 & 0xF,
            ),
            value <= 0xF ==> final(self).fields()[2] == value,
    {
        proof {
            lemma_mask_values();
            lemma_field_updated(Self::layout(), self.word, 2, value as u32);
            lemma_field_written(self.word, 8, 4, value as u32);
        }
        self.word = set_field(self.word, 8, 4, value as u32);
    }

    /// Bits 14 to 13: current decrement speed.
    pub fn sedn(&self) -> (value: u8)
        ensures
            value == field(self.word, 13, 2),
            value == self.fields()[3],
            value <= 0x3,
    {
        proof {
            lemma_field_fits(self.word, 13, 2);
            lemma_mask_values();
        }
        get_field(self.word, 13, 2) as u8
    }

    /// Writes bits 14 to 13 from the lowest two bits of `value` and leaves all other bits as
    /// they are.
    pub fn set_sedn(&mut self, value: u8)
        ensures
            final(self).word == with_field(old(self).word, 13, 2, value as u32),
            final(self).fields() == old(self).fields().update(
                3,
                value as u32 & 0x3,
            ),
            value <= 0x3 ==> final(self).fields()[3] == value,
    {
        proof {
            lemma_mask_values();
            lemma_field_updated(Self::layout(), self.word, 3, value as u32);
            lemma_field_written(self.word, 13, 2, value as u32);
        }
        self.word = set_field(self.word, 13, 2, value as u32);
    }

    /// Bit 15: allow the current to fall to a quarter instead of a half of the run current.
    pub fn seimin(&self) -> (flag: bool)
        ensures
            flag == (field(self.word, 15, 1) == 1),
            flag == (self.fields()[4] == 1),
    {
        get_flag(self.word, 15)
    }

    /// Writes bit 15 and leaves all other bits as they are.
    pub fn set_seimin(&mut self, flag: bool)
        ensures
            final(self).word == with_field(old(self).word, 15, 1, bit(flag)),
            final(self).fields() == old(self).fields().update(4, bit(flag)),
    {
        proof {
            lemma_bit_values(flag);
            lemma_field_updated(Self::layout(), self.word, 4, bit(flag));
        }
        self.word = set_flag(self.word, 15, flag);
    }

    /// Bits 22 to 16: stall threshold, a signed seven-bit number in two's complement.
    pub fn sgt(&self) -> (value: u8)
        ensures
            value == field(self.word, 16, 7),
            value == self.fields()[5],
            value <= 0x7F,
    {
        proof {
            lemma_field_fits(self.word, 16, 7);
            lemma_mask_values();
        }
        get_field(self.word, 16, 7) as u8
    }

    /// Writes bits 22 to 16 from the lowest seven bits of `value` and leaves all other bits as
    /// they are.
    pub fn set_sgt(&mut self, value: u8)
        ensures
            final(self).word == with_field(old(self).word, 16, 7, value as u32),
            final(self).fields() == old(self).fields().update(
                5,
                value as u32 & 0x7F,
            ),
            value <= 0x7F ==> final(self).fields()[5] == value,
    {
        proof {
            lemma_mask_values();
            lemma_field_updated(Self::layout(), self.word, 5, value as u32);
            lemma_field_written(self.word, 16, 7, value as u32);
        }
        self.word = set_field(self.word, 16, 7, value as u32);
    }

    /// Bit 24: filter the load measurement over four full steps.
    pub fn sfilt(&self) -> (flag: bool)
        ensures
            flag == (field(self.word, 24, 1) == 1),
            flag == (self.fields()[6] == 1),
    {
        get_flag(self.word, 24)
    }

    /// Writes bit 24 and leaves all other bits as they are.
    pub fn set_sfilt(&mut self, flag: bool)
        ensures
            final(self).word == with_field(old(self).word, 24, 1, bit(flag)),
            final(self).fields() == old(self).fields().update(6, bit(flag)),
    {
        proof {
            lemma_bit_values(flag);
            lemma_field_updated(Self::layout(), self.word, 6, bit(flag));
        }
        self.word = set_flag(self.word, 24, flag);
    }
}

/// Driver status and load measurement.
#[derive(Clone, Copy, Debug, PartialEq, Eq, Structural)]
pub struct DrvStatus {
    /// The register word; bit 0 is the lowest bit of the first field.
    pub word: u32,
}

impl DrvStatus {
    /// Where each field lies: the lowest bit and the width of every field, in the
    /// order of the accessors below.
    pub open spec fn layout() -> Seq<(u32, u32)> {
        seq![
            (0u32, 10u32), (12u32, 1u32), (13u32, 1u32), (14u32, 1u32), (15u32, 1u32),
            (16u32, 5u32), (24u32, 1u32), (25u32, 1u32), (26u32, 1u32), (27u32, 1u32),
            (28u32, 1u32), (29u32, 1u32), (30u32, 1u32), (31u32, 1u32),
        ]
    }

    /// The values of the fields, in the order of the layout.
    pub open spec fn fields(self) -> Seq<u32> {
        unpack(Self::layout(), self.word)
    }

    /// The register that holds the given values in its fields and zero in every
    /// other bit.
    pub open spec fn of_fields(values: Seq<u32>) -> Self {
        DrvStatus { word: pack(Self::layout(), values) }
    }

    /// Every field lies within the word, and no two fields share a bit.
    pub proof fn lemma_layout_sound()
        ensures
            sound(Self::layout()),
    {
    }

    /// Field values that fit their widths come out of the register as they went
    /// in.
    pub proof fn lemma_fields_round_trip(values: Seq<u32>)
        requires
            fitting(Self::layout(), values),
        ensures
            Self::of_fields(values).fields() == values,
    {
        lemma_pack_unpack(Self::layout(), values);
    }

    /// The register with every bit clear.
    pub open spec fn spec_new() -> Self {
        DrvStatus { word: 0 }
    }

    /// The register that holds `word`.
    pub open spec fn spec_from_word(word: u32) -> Self {
        DrvStatus { word }
    }

    /// The word of the register.
    pub open spec fn spec_to_word(&self) -> u32 {
        self.word
    }

    /// Turning a register into its word and back gives the same register, and
    /// turning a word into a register and back gives the same word.
    pub proof fn lemma_word_round_trip(self, word: u32)
        ensures
            Self::from_word(self.to_word()) == self,
            Self::from_word(word).to_word() == word,
    {
    }

    /// The register with every bit clear.
    #[verifier::when_used_as_spec(spec_new)]
    pub fn new() -> (register: Self)
        ensures
            register == Self::spec_new(),
            register.word == 0,
    {
        DrvStatus { word: 0 }
    }

    /// The register that holds `word`. All 32 bits are kept, those outside every
    /// field too.
    #[verifier::when_used_as_spec(spec_from_word)]
    pub fn from_word(word: u32) -> (register: Self)
        ensures
            register == Self::spec_from_word(word),
    {
        DrvStatus { word }
    }

    /// The register word.
    #[verifier::when_used_as_spec(spec_to_word)]
    pub fn to_word(&self) -> (word: u32)
        ensures
            word == self.word,
    {
        self.word
    }

    /// The register held by four bytes, least significant first.
    pub fn from_bytes(bytes: [u8; 4]) -> (register: Self)
        ensures
            register.word == le_value(bytes@),
            le_bytes(register.word) == bytes@,
    {
        DrvStatus { word: from_le_bytes(bytes) }
    }

    /// The register word as four bytes, least significant first.
    pub fn into_bytes(self) -> (bytes: [u8; 4])
        ensures
            bytes@ == le_bytes(self.word),
            le_value(bytes@) == self.word,
    {
        to_le_bytes(self.word)
    }

    /// Bits 9 to 0: mechanical load measurement; lower means higher load.
    pub fn sg_result(&self) -> (value: u16)
        ensures
            value == field(self.word, 0, 10),
            value == self.fields()[0],
            value <= 0x3FF,
    {
        proof {
            lemma_field_fits(self.word, 0, 10);
            lemma_mask_values();
        }
        get_field(self.word, 0, 10) as u16
    }

    /// Bit 12: short to supply on phase A.
    pub fn s2vsa(&self) -> (flag: bool)
        ensures
            flag == (field(self.word, 12, 1) == 1),
            flag == (self.fields()[1] == 1),
    {
        get_flag(self.word, 12)
    }

    /// Bit 13: short to supply on phase B.
    pub fn s2vsb(&self) -> (flag: bool)
        ensures
            flag == (field(self.word, 13, 1) == 1),
            flag == (self.fields()[2] == 1),
    {
        get_flag(self.word, 13)
    }

    /// Bit 14: the silent chopper is in operation.
    pub fn stealth(&self) -> (flag: bool)
        ensures
            flag == (field(self.word, 14, 1) == 1),
            flag == (self.fields()[3] == 1),
    {
        get_flag(self.word, 14)
    }

    /// Bit 15: the driver has switched to full steps.
    pub fn fsactive(&self) -> (flag: bool)
        ensures
            flag == (field(self.word, 15, 1) == 1),
            flag == (self.fields()[4] == 1),
    {
        get_flag(self.word, 15)
    }

    /// Bits 20 to 16: motor current scaling in effect.
    pub fn cs_actual(&self) -> (value: u8)
        ensures
            value == field(self.word, 16, 5),
            value == self.fields()[5],
            value <= 0x1F,
    {
        proof {
            lemma_field_fits(self.word, 16, 5);
            lemma_mask_values();
        }
        get_field(self.word, 16, 5) as u8
    }

    /// Bit 24: a motor stall is detected.
    pub fn stallguard(&self) -> (flag: bool)
        ensures
            flag == (field(self.word, 24, 1) == 1),
            flag == (self.fields()[6] == 1),
    {
        get_flag(self.word, 24)
    }

    /// Bit 25: overtemperature shutdown.
    pub fn ot(&self) -> (flag: bool)
        ensures
            flag == (field(self.word, 25, 1) == 1),
            flag == (self.fields()[7] == 1),
    {
        get_flag(self.word, 25)
    }

    /// Bit 26: overtemperature prewarning.
    pub fn otpw(&self) -> (flag: bool)
        ensures
            flag == (field(self.word, 26, 1) == 1),
            flag == (self.fields()[8] == 1),
    {
        get_flag(self.word, 26)
    }

    /// Bit 27: short to ground on phase A.
    pub fn s2ga(&self) -> (flag: bool)
        ensures
            flag == (field(self.word, 27, 1) == 1),
            flag == (self.fields()[9] == 1),
    {
        get_flag(self.word, 27)
    }

    /// Bit 28: short to ground on phase B.
    pub fn s2gb(&self) -> (flag: bool)
        ensures
            flag == (field(self.word, 28, 1) == 1),
            flag == (self.fields()[10] == 1),
    {
        get_flag(self.word, 28)
    }

    /// Bit 29: open load on phase A.
    pub fn ola(&self) -> (flag: bool)
        ensures
            flag == (field(self.word, 29, 1) == 1),
            flag == (self.fields()[11] == 1),
    {
        get_flag(self.word, 29)
    }

    /// Bit 30: open load on phase B.
    pub fn olb(&self) -> (flag: bool)
        ensures
            flag == (field(self.word, 30, 1) == 1),
            flag == (self.fields()[12] == 1),
    {
        get_flag(self.word, 30)
    }

    /// Bit 31: the motor stands still.
    pub fn standstill(&self) -> (flag: bool)
        ensures
            flag == (field(self.word, 31, 1) == 1),
            flag == (self.fields()[13] == 1),
    {
        get_flag(self.word, 31)
    }
}

/// Voltage-PWM chopper configuration.
#[derive(Clone, Copy, Debug, PartialEq, Eq, Structural)]
pub struct PwmConf {
    /// The register word; bit 0 is the lowest bit of the first field.
    pub word: u32,
}

impl PwmConf {
    /// Where each field lies: the lowest bit and the width of every field, in the
    /// order of the accessors below.
    pub open spec fn layout() -> Seq<(u32, u32)> {
        seq![
            (0u32, 8u32), (8u32, 8u32), (16u32, 2u32), (18u32, 1u32), (19u32, 1u32),
            (20u32, 2u32), (24u32, 4u32), (28u32, 4u32),
        ]
    }

    /// The values of the fields, in the order of the layout.
    pub open spec fn fields(self) -> Seq<u32> {
        unpack(Self::layout(), self.word)
    }

    /// The register that holds the given values in its fields and zero in every
    /// other bit.
    pub open spec fn of_fields(values: Seq<u32>) -> Self {
        PwmConf { word: pack(Self::layout(), values) }
    }

    /// Every field lies within the word, and no two fields share a bit.
    pub proof fn lemma_layout_sound()
        ensures
            sound(Self::layout()),
    {
    }

    /// Field values that fit their widths come out of the register as they went
    /// in.
    pub proof fn lemma_fields_round_trip(values: Seq<u32>)
        requires
            fitting(Self::layout(), values),
        ensures
            Self::of_fields(values).fields() == values,
    {
        lemma_pack_unpack(Self::layout(), values);
    }

    /// The register as the chip holds it after power-on.
    pub open spec fn spec_new() -> Self {
        PwmConf { word: 0xC40C_001E }
    }

    /// The register that holds `word`.
    pub open spec fn spec_from_word(word: u32) -> Self {
        PwmConf { word }
    }

    /// The word of the register.
    pub open spec fn spec_to_word(&self) -> u32 {
        self.word
    }

    /// Turning a register into its word and back gives the same register, and
    /// turning a word into a register and back gives the same word.
    pub proof fn lemma_word_round_trip(self, word: u32)
        ensures
            Self::from_word(self.to_word()) == self,
            Self::from_word(word).to_word() == word,
    {
    }

    /// The register as the chip holds it after power-on.
    #[verifier::when_used_as_spec(spec_new)]
    pub fn new() -> (register: Self)
        ensures
            register == Self::spec_new(),
            register.word == 0xC40C_001E,
    {
        PwmConf { word: 0xC40C_001E }
    }

    /// The register that holds `word`. All 32 bits are kept, those outside every
    /// field too.
    #[verifier::when_used_as_spec(spec_from_word)]
    pub fn from_word(word: u32) -> (register: Self)
        ensures
            register == Self::spec_from_word(word),
    {
        PwmConf { word }
    }

    /// The register word.
    #[verifier::when_used_as_spec(spec_to_word)]
    pub fn to_word(&self) -> (word: u32)
        ensures
            word == self.word,
    {
        self.word
    }

    /// The register held by four bytes, least significant first.
    pub fn from_bytes(bytes: [u8; 4]) -> (register: Self)
        ensures
            register.word == le_value(bytes@),
            le_bytes(register.word) == bytes@,
    {
        PwmConf { word: from_le_bytes(bytes) }
    }

    /// The register word as four bytes, least significant first.
    pub fn into_bytes(self) -> (bytes: [u8; 4])
        ensures
            bytes@ == le_bytes(self.word),
            le_value(bytes@) == self.word,
    {
        to_le_bytes(self.word)
    }

    /// Bits 7 to 0: user-defined PWM amplitude offset.
    pub fn pwm_ofs(&self) -> (value: u8)
        ensures
            value == field(self.word, 0, 8),
            value == self.fields()[0],
    {
        proof {
            lemma_field_fits(self.word, 0, 8);
            lemma_mask_values();
        }
        get_field(self.word, 0, 8) as u8
    }

    /// Writes bits 7 to 0 from `value` and leaves all other bits as they are.
    pub fn set_pwm_ofs(&mut self, value: u8)
        ensures
            final(self).word == with_field(old(self).word, 0, 8, value as u32),
            final(self).fields() == old(self).fields().update(
                0,
                value as u32 & 0xFF,
            ),
            value <= 0xFF ==> final(self).fields()[0] == value,
    {
        proof {
            lemma_mask_values();
            lemma_field_updated(Self::layout(), self.word, 0, value as u32);
            lemma_field_written(self.word, 0, 8, value as u32);
        }
        self.word = set_field(self.word, 0, 8, value as u32);
    }

    /// Bits 15 to 8: user-defined velocity-dependent PWM amplitude gradient.
    pub fn pwm_grad(&self) -> (value: u8)
        ensures
            value == field(self.word, 8, 8),
            value == self.fields()[1],
    {
        proof {
            lemma_field_fits(self.word, 8, 8);
            lemma_mask_values();
        }
        get_field(self.word, 8, 8) as u8
    }

    /// Writes bits 15 to 8 from `value` and leaves all other bits as they are.
    pub fn set_pwm_grad(&mut self, value: u8)
        ensures
            final(self).word == with_field(old(self).word, 8, 8, value as u32),
            final(self).fields() == old(self).fields().update(
                1,
                value as u32 & 0xFF,
            ),
            value <= 0xFF ==> final(self).fields()[1] == value,
    {
        proof {
            lemma_mask_values();
            lemma_field_updated(Self::layout(), self.word, 1, value as u32);
            lemma_field_written(self.word, 8, 8, value as u32);
        }
        self.word = set_field(self.word, 8, 8, value as u32);
    }

    /// Bits 17 to 16: pWM frequency selection.
    pub fn pwm_freq(&self) -> (value: u8)
        ensures
            value == field(self.word, 16, 2),
            value == self.fields()[2],
            value <= 0x3,
    {
        proof {
            lemma_field_fits(self.word, 16, 2);
            lemma_mask_values();
        }
        get_field(self.word, 16, 2) as u8
    }

    /// Writes bits 17 to 16 from the lowest two bits of `value` and leaves all other bits as
    /// they are.
    pub fn set_pwm_freq(&mut self, value: u8)
        ensures
            final(self).word == with_field(old(self).word, 16, 2, value as u32),
            final(self).fields() == old(self).fields().update(
                2,
                value as u32 & 0x3,
            ),
            value <= 0x3 ==> final(self).fields()[2] == value,
    {
        proof {
            lemma_mask_values();
            lemma_field_updated(Self::layout(), self.word, 2, value as u32);
            lemma_field_written(self.word, 16, 2, value as u32);
        }
        self.word = set_field(self.word, 16, 2, value as u32);
    }

    /// Bit 18: regulate the PWM amplitude by the measured current.
    pub fn pwm_autoscale(&self) -> (flag: bool)
        ensures
            flag == (field(self.word, 18, 1) == 1),
            flag == (self.fields()[3] == 1),
    {
        get_flag(self.word, 18)
    }

    /// Writes bit 18 and leaves all other bits as they are.
    pub fn set_pwm_autoscale(&mut self, flag: bool)
        ensures
            final(self).word == with_field(old(self).word, 18, 1, bit(flag)),
            final(self).fields() == old(self).fields().update(3, bit(flag)),
    {
        proof {
            lemma_bit_values(flag);
            lemma_field_updated(Self::layout(), self.word, 3, bit(flag));
        }
        self.word = set_flag(self.word, 18, flag);
    }

    /// Bit 19: tune the amplitude gradient automatically.
    pub fn pwm_autograd(&self) -> (flag: bool)
        ensures
            flag == (field(self.word, 19, 1) == 1),
            flag == (self.fields()[4] == 1),
    {
        get_flag(self.word, 19)
    }

    /// Writes bit 19 and leaves all other bits as they are.
    pub fn set_pwm_autograd(&mut self, flag: bool)
        ensures
            final(self).word == with_field(old(self).word, 19, 1, bit(flag)),
            final(self).fields() == old(self).fields().update(4, bit(flag)),
    {
        proof {
            lemma_bit_values(flag);
            lemma_field_updated(Self::layout(), self.word, 4, bit(flag));
        }
        self.word = set_flag(self.word, 19, flag);
    }

    /// Bits 21 to 20: standstill behaviour when the hold current is zero.
    pub fn freewheel(&self) -> (value: u8)
        ensures
            value == field(self.word, 20, 2),
            value == self.fields()[5],
            value <= 0x3,
    {
        proof {
            lemma_field_fits(self.word, 20, 2);
            lemma_mask_values();
        }
        get_field(self.word, 20, 2) as u8
    }

    /// Writes bits 21 to 20 from the lowest two bits of `value` and leaves all other bits as
    /// they are.
    pub fn set_freewheel(&mut self, value: u8)
        ensures
            final(self).word == with_field(old(self).word, 20, 2, value as u32),
            final(self).fields() == old(self).fields().update(
                5,
                value as u32 & 0x3,
            ),
            value <= 0x3 ==> final(self).fields()[5] == value,
    {
        proof {
            lemma_mask_values();
            lemma_field_updated(Self::layout(), self.word, 5, value as u32);
            lemma_field_written(self.word, 20, 2, value as u32);
        }
        self.word = set_field(self.word, 20, 2, value as u32);
    }

    /// Bits 27 to 24: maximum amplitude change per half wave during regulation.
    pub fn pwm_reg(&self) -> (value: u8)
        ensures
            value == field(self.word, 24, 4),
            value == self.fields()[6],
            value <= 0xF,
    {
        proof {
            lemma_field_fits(self.word, 24, 4);
            lemma_mask_values();
        }
        get_field(self.word, 24, 4) as u8
    }

    /// Writes bits 27 to 24 from the lowest four bits of `value` and leaves all other bits as
    /// they are.
    pub fn set_pwm_reg(&mut self, value: u8)
        ensures
            final(self).word == with_field(old(self).word, 24, 4, value as u32),
            final(self).fields() == old(self).fields().update(
                6,
                value as u32 & 0xF,
            ),
            value <= 0xF ==> final(self).fields()[6] == value,
    {
        proof {
            lemma_mask_values();
            lemma_field_updated(Self::layout(), self.word, 6, value as u32);
            lemma_field_written(self.word, 24, 4, value as u32);
        }
        self.word = set_field(self.word, 24, 4, value as u32);
    }

    /// Bits 31 to 28: amplitude limit when switching back from the other chopper.
    pub fn pwm_lim(&self) -> (value: u8)
        ensures
            value == field(self.word, 28, 4),
            value == self.fields()[7],
            value <= 0xF,
    {
        proof {
            lemma_field_fits(self.word, 28, 4);
            lemma_mask_values();
        }
        get_field(self.word, 28, 4) as u8
    }

    /// Writes bits 31 to 28 from the lowest four bits of `value` and leaves all other bits as
    /// they are.
    pub fn set_pwm_lim(&mut self, value: u8)
        ensures
            final(self).word == with_field(old(self).word, 28, 4, value as u32),
            final(self).fields() == old(self).fields().update(
                7,
                value as u32 & 0xF,
            ),
            value <= 0xF ==> final(self).fields()[7] == value,
    {
        proof {
            lemma_mask_values();
            lemma_field_updated(Self::layout(), self.word, 7, value as u32);
            lemma_field_written(self.word, 28, 4, value as u32);
        }
        self.word = set_field(self.word, 28, 4, value as u32);
    }
}

} // verus!
