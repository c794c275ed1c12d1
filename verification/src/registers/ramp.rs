//! Reference switch, ramp status and encoder registers.

use vstd::prelude::*;
use crate::registers::bits::{
    bit, field, fitting, get_flag, lemma_bit_values, lemma_field_updated, lemma_pack_unpack,
    pack, set_flag, sound, unpack, with_field,
};
use crate::wire::{from_le_bytes, le_bytes, le_value, to_le_bytes};

verus! {

/// Reference switch and stall-stop configuration.
#[derive(Clone, Copy, Debug, PartialEq, Eq, Structural)]
pub struct SwMode {
    /// The register word; bit 0 is the lowest bit of the first field.
    pub word: u32,
}

impl SwMode {
    /// Where each field lies: the lowest bit and the width of every field, in the
    /// order of the accessors below.
    pub open spec fn layout() -> Seq<(u32, u32)> {
        seq![
            (0u32, 1u32), (1u32, 1u32), (2u32, 1u32), (3u32, 1u32), (4u32, 1u32), (5u32, 1u32),
            (6u32, 1u32), (7u32, 1u32), (8u32, 1u32), (9u32, 1u32), (10u32, 1u32),
            (11u32, 1u32),
        ]
    }

    /// The values of the fields, in the order of the layout.
    pub open spec fn fields(self) -> Seq<u32> {
        unpack(Self::layout(), self.word)
    }

    /// The register that holds the given values in its fields and zero in every
    /// other bit.
    pub open spec fn of_fields(values: Seq<u32>) -> Self {
        SwMode { word: pack(Self::layout(), values) }
    }

    /// Every field lies within the word, and no two fields share a bit.
    pub proof fn lemma_layout_sound()
        ensures
            sound(Self::layout()),
    {
    }

    /// Field values that fit their widths come out of the register as they went
    /// in.
    pub proof fn lemma_fields_round_trip(values: Seq<u32>)
        requires
            fitting(Self::layout(), values),
        ensures
            Self::of_fields(values).fields() == values,
    {
        lemma_pack_unpack(Self::layout(), values);
    }

    /// The register as the chip holds it after power-on: every bit clear.
    pub open spec fn spec_new() -> Self {
        SwMode { word: 0 }
    }

    /// The register that holds `word`.
    pub open spec fn spec_from_word(word: u32) -> Self {
        SwMode { word }
    }

    /// The word of the register.
    pub open spec fn spec_to_word(&self) -> u32 {
        self.word
    }

    /// Turning a register into its word and back gives the same register, and
    /// turning a word into a register and back gives the same word.
    pub proof fn lemma_word_round_trip(self, word: u32)
        ensures
            Self::from_word(self.to_word()) == self,
            Self::from_word(word).to_word() == word,
    {
    }

    /// The register as the chip holds it after power-on: every bit clear.
    #[verifier::when_used_as_spec(spec_new)]
    pub fn new() -> (register: Self)
        ensures
            register == Self::spec_new(),
            register.word == 0,
    {
        SwMode { word: 0 }
    }

    /// The register that holds `word`. All 32 bits are kept, those outside every
    /// field too.
    #[verifier::when_used_as_spec(spec_from_word)]
    pub fn from_word(word: u32) -> (register: Self)
        ensures
            register == Self::spec_from_word(word),
    {
        SwMode { word }
    }

    /// The register word.
    #[verifier::when_used_as_spec(spec_to_word)]
    pub fn to_word(&self) -> (word: u32)
        ensures
            word == self.word,
    {
        self.word
    }

    /// The register held by four bytes, least significant first.
    pub fn from_bytes(bytes: [u8; 4]) -> (register: Self)
        ensures
            register.word == le_value(bytes@),
            le_bytes(register.word) == bytes@,
    {
        SwMode { word: from_le_bytes(bytes) }
    }

    /// The register word as four bytes, least significant first.
    pub fn into_bytes(self) -> (bytes: [u8; 4])
        ensures
            bytes@ == le_bytes(self.word),
            le_value(bytes@) == self.word,
    {
        to_le_bytes(self.word)
    }

    /// Bit 0: stop the motor when the left switch is active.
    pub fn stop_l_enable(&self) -> (flag: bool)
        ensures
            flag == (field(self.word, 0, 1) == 1),
            flag == (self.fields()[0] == 1),
    {
        get_flag(self.word, 0)
    }

    /// Writes bit 0 and leaves all other bits as they are.
    pub fn set_stop_l_enable(&mut self, flag: bool)
        ensures
            final(self).word == with_field(old(self).word, 0, 1, bit(flag)),
            final(self).fields() == old(self).fields().update(0, bit(flag)),
    {
        proof {
            lemma_bit_values(flag);
            lemma_field_updated(Self::layout(), self.word, 0, bit(flag));
        }
        self.word = set_flag(self.word, 0, flag);
    }

    /// Bit 1: stop the motor when the right switch is active.
    pub fn stop_r_enable(&self) -> (flag: bool)
        ensures
            flag == (field(self.word, 1, 1) == 1),
            flag == (self.fields()[1] == 1),
    {
        get_flag(self.word, 1)
    }

    /// Writes bit 1 and leaves all other bits as they are.
    pub fn set_stop_r_enable(&mut self, flag: bool)
        ensures
            final(self).word == with_field(old(self).word, 1, 1, bit(flag)),
            final(self).fields() == old(self).fields().update(1, bit(flag)),
    {
        proof {
            lemma_bit_values(flag);
            lemma_field_updated(Self::layout(), self.word, 1, bit(flag));
        }
        self.word = set_flag(self.word, 1, flag);
    }

    /// Bit 2: the left switch is active low.
    pub fn pol_stop_l(&self) -> (flag: bool)
        ensures
            flag == (field(self.word, 2, 1) == 1),
            flag == (self.fields()[2] == 1),
    {
        get_flag(self.word, 2)
    }

    /// Writes bit 2 and leaves all other bits as they are.
    pub fn set_pol_stop_l(&mut self, flag: bool)
        ensures
            final(self).word == with_field(old(self).word, 2, 1, bit(flag)),
            final(self).fields() == old(self).fields().update(2, bit(flag)),
    {
        proof {
            lemma_bit_values(flag);
            lemma_field_updated(Self::layout(), self.word, 2, bit(flag));
        }
        self.word = set_flag(self.word, 2, flag);
    }

    /// Bit 3: the right switch is active low.
    pub fn pol_stop_r(&self) -> (flag: bool)
        ensures
            flag == (field(self.word, 3, 1) == 1),
            flag == (self.fields()[3] == 1),
    {
        get_flag(self.word, 3)
    }

    /// Writes bit 3 and leaves all other bits as they are.
    pub fn set_pol_stop_r(&mut self, flag: bool)
        ensures
            final(self).word == with_field(old(self).word, 3, 1, bit(flag)),
            final(self).fields() == old(self).fields().update(3, bit(flag)),
    {
        proof {
            lemma_bit_values(flag);
            lemma_field_updated(Self::layout(), self.word, 3, bit(flag));
        }
        self.word = set_flag(self.word, 3, flag);
    }

    /// Bit 4: swap the left and right switch inputs.
    pub fn swap_lr(&self) -> (flag: bool)
        ensures
            flag == (field(self.word, 4, 1) == 1),
            flag == (self.fields()[4] == 1),
    {
        get_flag(self.word, 4)
    }

    /// Writes bit 4 and leaves all other bits as they are.
    pub fn set_swap_lr(&mut self, flag: bool)
        ensures
            final(self).word == with_field(old(self).word, 4, 1, bit(flag)),
            final(self).fields() == old(self).fields().update(4, bit(flag)),
    {
        proof {
            lemma_bit_values(flag);
            lemma_field_updated(Self::layout(), self.word, 4, bit(flag));
        }
        self.word = set_flag(self.word, 4, flag);
    }

    /// Bit 5: latch the position when the left switch becomes active.
    pub fn latch_l_active(&self) -> (flag: bool)
        ensures
            flag == (field(self.word, 5, 1) == 1),
            flag == (self.fields()[5] == 1),
    {
        get_flag(self.word, 5)
    }

    /// Writes bit 5 and leaves all other bits as they are.
    pub fn set_latch_l_active(&mut self, flag: bool)
        ensures
            final(self).word == with_field(old(self).word, 5, 1, bit(flag)),
            final(self).fields() == old(self).fields().update(5, bit(flag)),
    {
        proof {
            lemma_bit_values(flag);
            lemma_field_updated(Self::layout(), self.word, 5, bit(flag));
        }
        self.word = set_flag(self.word, 5, flag);
    }

    /// Bit 6: latch the position when the left switch becomes inactive.
    pub fn latch_l_inactive(&self) -> (flag: bool)
        ensures
            flag == (field(self.word, 6, 1) == 1),
            flag == (self.fields()[6] == 1),
    {
        get_flag(self.word, 6)
    }

    /// Writes bit 6 and leaves all other bits as they are.
    pub fn set_latch_l_inactive(&mut self, flag: bool)
        ensures
            final(self).word == with_field(old(self).word, 6, 1, bit(flag)),
            final(self).fields() == old(self).fields().update(6, bit(flag)),
    {
        proof {
            lemma_bit_values(flag);
            lemma_field_updated(Self::layout(), self.word, 6, bit(flag));
        }
        self.word = set_flag(self.word, 6, flag);
    }

    /// Bit 7: latch the position when the right switch becomes active.
    pub fn latch_r_active(&self) -> (flag: bool)
        ensures
            flag == (field(self.word, 7, 1) == 1),
            flag == (self.fields()[7] == 1),
    {
        get_flag(self.word, 7)
    }

    /// Writes bit 7 and leaves all other bits as they are.
    pub fn set_latch_r_active(&mut self, flag: bool)
        ensures
            final(self).word == with_field(old(self).word, 7, 1, bit(flag)),
            final(self).fields() == old(self).fields().update(7, bit(flag)),
    {
        proof {
            lemma_bit_values(flag);
            lemma_field_updated(Self::layout(), self.word, 7, bit(flag));
        }
        self.word = set_flag(self.word, 7, flag);
    }

    /// Bit 8: latch the position when the right switch becomes inactive.
    pub fn latch_r_inactive(&self) -> (flag: bool)
        ensures
            flag == (field(self.word, 8, 1) == 1),
            flag == (self.fields()[8] == 1),
    {
        get_flag(self.word, 8)
    }

    /// Writes bit 8 and leaves all other bits as they are.
    pub fn set_latch_r_inactive(&mut self, flag: bool)
        ensures
            final(self).word == with_field(old(self).word, 8, 1, bit(flag)),
            final(self).fields() == old(self).fields().update(8, bit(flag)),
    {
        proof {
            lemma_bit_values(flag);
            lemma_field_updated(Self::layout(), self.word, 8, bit(flag));
        }
        self.word = set_flag(self.word, 8, flag);
    }

    /// Bit 9: latch the encoder position together with the ramp position.
    pub fn en_latch_encoder(&self) -> (flag: bool)
        ensures
            flag == (field(self.word, 9, 1) == 1),
            flag == (self.fields()[9] == 1),
    {
        get_flag(self.word, 9)
    }

    /// Writes bit 9 and leaves all other bits as they are.
    pub fn set_en_latch_encoder(&mut self, flag: bool)
        ensures
            final(self).word == with_field(old(self).word, 9, 1, bit(flag)),
            final(self).fields() == old(self).fields().update(9, bit(flag)),
    {
        proof {
            lemma_bit_values(flag);
            lemma_field_updated(Self::layout(), self.word, 9, bit(flag));
        }
        self.word = set_flag(self.word, 9, flag);
    }

    /// Bit 10: stop the motor when a stall is detected.
    pub fn sg_stop(&self) -> (flag: bool)
        ensures
            flag == (field(self.word, 10, 1) == 1),
            flag == (self.fields()[10] == 1),
    {
        get_flag(self.word, 10)
    }

    /// Writes bit 10 and leaves all other bits as they are.
    pub fn set_sg_stop(&mut self, flag: bool)
        ensures
            final(self).word == with_field(old(self).word, 10, 1, bit(flag)),
            final(self).fields() == old(self).fields().update(10, bit(flag)),
    {
        proof {
            lemma_bit_values(flag);
            lemma_field_updated(Self::layout(), self.word, 10, bit(flag));
        }
        self.word = set_flag(self.word, 10, flag);
    }

    /// Bit 11: decelerate along the ramp instead of stopping hard.
    pub fn en_softstop(&self) -> (flag: bool)
        ensures
            flag == (field(self.word, 11, 1) == 1),
            flag == (self.fields()[11] == 1),
    {
        get_flag(self.word, 11)
    }

    /// Writes bit 11 and leaves all other bits as they are.
    pub fn set_en_softstop(&mut self, flag: bool)
        ensures
            final(self).word == with_field(old(self).word, 11, 1, bit(flag)),
            final(self).fields() == old(self).fields().update(11, bit(flag)),
    {
        proof {
            lemma_bit_values(flag);
            lemma_field_updated(Self::layout(), self.word, 11, bit(flag));
        }
        self.word = set_flag(self.word, 11, flag);
    }
}

/// Ramp generator and reference switch status.
#[derive(Clone, Copy, Debug, PartialEq, Eq, Structural)]
pub struct RampStat {
    /// The register word; bit 0 is the lowest bit of the first field.
    pub word: u32,
}

impl RampStat {
    /// Where each field lies: the lowest bit and the width of every field, in the
    /// order of the accessors below.
    pub open spec fn layout() -> Seq<(u32, u32)> {
        seq![
            (0u32, 1u32), (1u32, 1u32), (2u32, 1u32), (3u32, 1u32), (4u32, 1u32), (5u32, 1u32),
            (6u32, 1u32), (7u32, 1u32), (8u32, 1u32), (9u32, 1u32), (10u32, 1u32),
            (11u32, 1u32), (12u32, 1u32), (13u32, 1u32),
        ]
    }

    /// The values of the fields, in the order of the layout.
    pub open spec fn fields(self) -> Seq<u32> {
        unpack(Self::layout(), self.word)
    }

    /// The register that holds the given values in its fields and zero in every
    /// other bit.
    pub open spec fn of_fields(values: Seq<u32>) -> Self {
        RampStat { word: pack(Self::layout(), values) }
    }

    /// Every field lies within the word, and no two fields share a bit.
    pub proof fn lemma_layout_sound()
        ensures
            sound(Self::layout()),
    {
    }

    /// Field values that fit their widths come out of the register as they went
    /// in.
    pub proof fn lemma_fields_round_trip(values: Seq<u32>)
        requires
            fitting(Self::layout(), values),
        ensures
            Self::of_fields(values).fields() == values,
    {
        lemma_pack_unpack(Self::layout(), values);
    }

    /// The register with every bit clear.
    pub open spec fn spec_new() -> Self {
        RampStat { word: 0 }
    }

    /// The register that holds `word`.
    pub open spec fn spec_from_word(word: u32) -> Self {
        RampStat { word }
    }

    /// The word of the register.
    pub open spec fn spec_to_word(&self) -> u32 {
        self.word
    }

    /// Turning a register into its word and back gives the same register, and
    /// turning a word into a register and back gives the same word.
    pub proof fn lemma_word_round_trip(self, word: u32)
        ensures
            Self::from_word(self.to_word()) == self,
            Self::from_word(word).to_word() == word,
    {
    }

    /// The register with every bit clear.
    #[verifier::when_used_as_spec(spec_new)]
    pub fn new() -> (register: Self)
        ensures
            register == Self::spec_new(),
            register.word == 0,
    {
        RampStat { word: 0 }
    }

    /// The register that holds `word`. All 32 bits are kept, those outside every
    /// field too.
    #[verifier::when_used_as_spec(spec_from_word)]
    pub fn from_word(word: u32) -> (register: Self)
        ensures
            register == Self::spec_from_word(word),
    {
        RampStat { word }
    }

    /// The register word.
    #[verifier::when_used_as_spec(spec_to_word)]
    pub fn to_word(&self) -> (word: u32)
        ensures
            word == self.word,
    {
        self.word
    }

    /// The register held by four bytes, least significant first.
    pub fn from_bytes(bytes: [u8; 4]) -> (register: Self)
        ensures
            register.word == le_value(bytes@),
            le_bytes(register.word) == bytes@,
    {
        RampStat { word: from_le_bytes(bytes) }
    }

    /// The register word as four bytes, least significant first.
    pub fn into_bytes(self) -> (bytes: [u8; 4])
        ensures
            bytes@ == le_bytes(self.word),
            le_value(bytes@) == self.word,
    {
        to_le_bytes(self.word)
    }

    /// Bit 0: the left reference switch is active.
    pub fn status_stop_l(&self) -> (flag: bool)
        ensures
            flag == (field(self.word, 0, 1) == 1),
            flag == (self.fields()[0] == 1),
    {
        get_flag(self.word, 0)
    }

    /// Writes bit 0 and leaves all other bits as they are.
    pub fn set_status_stop_l(&mut self, flag: bool)
        ensures
            final(self).word == with_field(old(self).word, 0, 1, bit(flag)),
            final(self).fields() == old(self).fields().update(0, bit(flag)),
    {
        proof {
            lemma_bit_values(flag);
            lemma_field_updated(Self::layout(), self.word, 0, bit(flag));
        }
        self.word = set_flag(self.word, 0, flag);
    }

    /// Bit 1: the right reference switch is active.
    pub fn status_stop_r(&self) -> (flag: bool)
        ensures
            flag == (field(self.word, 1, 1) == 1),
            flag == (self.fields()[1] == 1),
    {
        get_flag(self.word, 1)
    }

    /// Writes bit 1 and leaves all other bits as they are.
    pub fn set_status_stop_r(&mut self, flag: bool)
        ensures
            final(self).word == with_field(old(self).word, 1, 1, bit(flag)),
            final(self).fields() == old(self).fields().update(1, bit(flag)),
    {
        proof {
            lemma_bit_values(flag);
            lemma_field_updated(Self::layout(), self.word, 1, bit(flag));
        }
        self.word = set_flag(self.word, 1, flag);
    }

    /// Bit 2: a position was latched on the left switch.
    pub fn status_latch_l(&self) -> (flag: bool)
        ensures
            flag == (field(self.word, 2, 1) == 1),
            flag == (self.fields()[2] == 1),
    {
        get_flag(self.word, 2)
    }

    /// Writes bit 2 and leaves all other bits as they are.
    pub fn set_status_latch_l(&mut self, flag: bool)
        ensures
            final(self).word == with_field(old(self).word, 2, 1, bit(flag)),
            final(self).fields() == old(self).fields().update(2, bit(flag)),
    {
        proof {
            lemma_bit_values(flag);
            lemma_field_updated(Self::layout(), self.word, 2, bit(flag));
        }
        self.word = set_flag(self.word, 2, flag);
    }

    /// Bit 3: a position was latched on the right switch.
    pub fn status_latch_r(&self) -> (flag: bool)
        ensures
            flag == (field(self.word, 3, 1) == 1),
            flag == (self.fields()[3] == 1),
    {
        get_flag(self.word, 3)
    }

    /// Writes bit 3 and leaves all other bits as they are.
    pub fn set_status_latch_r(&mut self, flag: bool)
        ensures
            final(self).word == with_field(old(self).word, 3, 1, bit(flag)),
            final(self).fields() == old(self).fields().update(3, bit(flag)),
    {
        proof {
            lemma_bit_values(flag);
            lemma_field_updated(Self::layout(), self.word, 3, bit(flag));
        }
        self.word = set_flag(self.word, 3, flag);
    }

    /// Bit 4: the left switch has stopped the motor.
    pub fn event_stop_l(&self) -> (flag: bool)
        ensures
            flag == (field(self.word, 4, 1) == 1),
            flag == (self.fields()[4] == 1),
    {
        get_flag(self.word, 4)
    }

    /// Writes bit 4 and leaves all other bits as they are.
    pub fn set_event_stop_l(&mut self, flag: bool)
        ensures
            final(self).word == with_field(old(self).word, 4, 1, bit(flag)),
            final(self).fields() == old(self).fields().update(4, bit(flag)),
    {
        proof {
            lemma_bit_values(flag);
            lemma_field_updated(Self::layout(), self.word, 4, bit(flag));
        }
        self.word = set_flag(self.word, 4, flag);
    }

    /// Bit 5: the right switch has stopped the motor.
    pub fn event_stop_r(&self) -> (flag: bool)
        ensures
            flag == (field(self.word, 5, 1) == 1),
            flag == (self.fields()[5] == 1),
    {
        get_flag(self.word, 5)
    }

    /// Writes bit 5 and leaves all other bits as they are.
    pub fn set_event_stop_r(&mut self, flag: bool)
        ensures
            final(self).word == with_field(old(self).word, 5, 1, bit(flag)),
            final(self).fields() == old(self).fields().update(5, bit(flag)),
    {
        proof {
            lemma_bit_values(flag);
            lemma_field_updated(Self::layout(), self.word, 5, bit(flag));
        }
        self.word = set_flag(self.word, 5, flag);
    }

    /// Bit 6: a detected stall has stopped the motor.
    pub fn event_stop_sg(&self) -> (flag: bool)
        ensures
            flag == (field(self.word, 6, 1) == 1),
            flag == (self.fields()[6] == 1),
    {
        get_flag(self.word, 6)
    }

    /// Writes bit 6 and leaves all other bits as they are.
    pub fn set_event_stop_sg(&mut self, flag: bool)
        ensures
            final(self).word == with_field(old(self).word, 6, 1, bit(flag)),
            final(self).fields() == old(self).fields().update(6, bit(flag)),
    {
        proof {
            lemma_bit_values(flag);
            lemma_field_updated(Self::layout(), self.word, 6, bit(flag));
        }
        self.word = set_flag(self.word, 6, flag);
    }

    /// Bit 7: the target position has been reached since the flag was last cleared.
    pub fn event_pos_reached(&self) -> (flag: bool)
        ensures
            flag == (field(self.word, 7, 1) == 1),
            flag == (self.fields()[7] == 1),
    {
        get_flag(self.word, 7)
    }

    /// Writes bit 7 and leaves all other bits as they are.
    pub fn set_event_pos_reached(&mut self, flag: bool)
        ensures
            final(self).word == with_field(old(self).word, 7, 1, bit(flag)),
            final(self).fields() == old(self).fields().update(7, bit(flag)),
    {
        proof {
            lemma_bit_values(flag);
            lemma_field_updated(Self::layout(), self.word, 7, bit(flag));
        }
        self.word = set_flag(self.word, 7, flag);
    }

    /// Bit 8: the ramp runs at the target velocity.
    pub fn velocity_reached(&self) -> (flag: bool)
        ensures
            flag == (field(self.word, 8, 1) == 1),
            flag == (self.fields()[8] == 1),
    {
        get_flag(self.word, 8)
    }

    /// Writes bit 8 and leaves all other bits as they are.
    pub fn set_velocity_reached(&mut self, flag: bool)
        ensures
            final(self).word == with_field(old(self).word, 8, 1, bit(flag)),
            final(self).fields() == old(self).fields().update(8, bit(flag)),
    {
        proof {
            lemma_bit_values(flag);
            lemma_field_updated(Self::layout(), self.word, 8, bit(flag));
        }
        self.word = set_flag(self.word, 8, flag);
    }

    /// Bit 9: the ramp stands at the target position.
    pub fn position_reached(&self) -> (flag: bool)
        ensures
            flag == (field(self.word, 9, 1) == 1),
            flag == (self.fields()[9] == 1),
    {
        get_flag(self.word, 9)
    }

    /// Writes bit 9 and leaves all other bits as they are.
    pub fn set_position_reached(&mut self, flag: bool)
        ensures
            final(self).word == with_field(old(self).word, 9, 1, bit(flag)),
            final(self).fields() == old(self).fields().update(9, bit(flag)),
    {
        proof {
            lemma_bit_values(flag);
            lemma_field_updated(Self::layout(), self.word, 9, bit(flag));
        }
        self.word = set_flag(self.word, 9, flag);
    }

    /// Bit 10: the ramp velocity is zero.
    pub fn vzero(&self) -> (flag: bool)
        ensures
            flag == (field(self.word, 10, 1) == 1),
            flag == (self.fields()[10] == 1),
    {
        get_flag(self.word, 10)
    }

    /// Writes bit 10 and leaves all other bits as they are.
    pub fn set_vzero(&mut self, flag: bool)
        ensures
            final(self).word == with_field(old(self).word, 10, 1, bit(flag)),
            final(self).fields() == old(self).fields().update(10, bit(flag)),
    {
        proof {
            lemma_bit_values(flag);
            lemma_field_updated(Self::layout(), self.word, 10, bit(flag));
        }
        self.word = set_flag(self.word, 10, flag);
    }

    /// Bit 11: the ramp waits at zero velocity before reversing.
    pub fn t_zerowait_active(&self) -> (flag: bool)
        ensures
            flag == (field(self.word, 11, 1) == 1),
            flag == (self.fields()[11] == 1),
    {
        get_flag(self.word, 11)
    }

    /// Writes bit 11 and leaves all other bits as they are.
    pub fn set_t_zerowait_active(&mut self, flag: bool)
        ensures
            final(self).word == with_field(old(self).word, 11, 1, bit(flag)),
            final(self).fields() == old(self).fields().update(11, bit(flag)),
    {
        proof {
            lemma_bit_values(flag);
            lemma_field_updated(Self::layout(), self.word, 11, bit(flag));
        }
        self.word = set_flag(self.word, 11, flag);
    }

    /// Bit 12: the ramp had to reverse to reach the target.
    pub fn second_move(&self) -> (flag: bool)
        ensures
            flag == (field(self.word, 12, 1) == 1),
            flag == (self.fields()[12] == 1),
    {
        get_flag(self.word, 12)
    }

    /// Writes bit 12 and leaves all other bits as they are.
    pub fn set_second_move(&mut self, flag: bool)
        ensures
            final(self).word == with_field(old(self).word, 12, 1, bit(flag)),
            final(self).fields() == old(self).fields().update(12, bit(flag)),
    {
        proof {
            lemma_bit_values(flag);
            lemma_field_updated(Self::layout(), self.word, 12, bit(flag));
        }
        self.word = set_flag(self.word, 12, flag);
    }

    /// Bit 13: the stall detector is active.
    pub fn status_sg(&self) -> (flag: bool)
        ensures
            flag == (field(self.word, 13, 1) == 1),
            flag == (self.fields()[13] == 1),
    {
        get_flag(self.word, 13)
    }

    /// Writes bit 13 and leaves all other bits as they are.
    pub fn set_status_sg(&mut self, flag: bool)
        ensures
            final(self).word == with_field(old(self).word, 13, 1, bit(flag)),
            final(self).fields() == old(self).fields().update(13, bit(flag)),
    {
        proof {
            lemma_bit_values(flag);
            lemma_field_updated(Self::layout(), self.word, 13, bit(flag));
        }
        self.word = set_flag(self.word, 13, flag);
    }
}

/// Encoder input configuration.
#[derive(Clone, Copy, Debug, PartialEq, Eq, Structural)]
pub struct EncMode {
    /// The register word; bit 0 is the lowest bit of the first field.
    pub word: u32,
}

impl EncMode {
    /// Where each field lies: the lowest bit and the width of every field, in the
    /// order of the accessors below.
    pub open spec fn layout() -> Seq<(u32, u32)> {
        seq![
            (0u32, 1u32), (1u32, 1u32), (2u32, 1u32), (3u32, 1u32), (4u32, 1u32), (5u32, 1u32),
            (6u32, 1u32), (7u32, 1u32), (8u32, 1u32), (9u32, 1u32), (10u32, 1u32),
        ]
    }

    /// The values of the fields, in the order of the layout.
    pub open spec fn fields(self) -> Seq<u32> {
        unpack(Self::layout(), self.word)
    }

    /// The register that holds the given values in its fields and zero in every
    /// other bit.
    pub open spec fn of_fields(values: Seq<u32>) -> Self {
        EncMode { word: pack(Self::layout(), values) }
    }

    /// Every field lies within the word, and no two fields share a bit.
    pub proof fn lemma_layout_sound()
        ensures
            sound(Self::layout()),
    {
    }

    /// Field values that fit their widths come out of the register as they went
    /// in.
    pub proof fn lemma_fields_round_trip(values: Seq<u32>)
        requires
            fitting(Self::layout(), values),
        ensures
            Self::of_fields(values).fields() == values,
    {
        lemma_pack_unpack(Self::layout(), values);
    }

    /// The register as the chip holds it after power-on: every bit clear.
    pub open spec fn spec_new() -> Self {
        EncMode { word: 0 }
    }

    /// The register that holds `word`.
    pub open spec fn spec_from_word(word: u32) -> Self {
        EncMode { word }
    }

    /// The word of the register.
    pub open spec fn spec_to_word(&self) -> u32 {
        self.word
    }

    /// Turning a register into its word and back gives the same register, and
    /// turning a word into a register and back gives the same word.
    pub proof fn lemma_word_round_trip(self, word: u32)
        ensures
            Self::from_word(self.to_word()) == self,
            Self::from_word(word).to_word() == word,
    {
    }

    /// The register as the chip holds it after power-on: every bit clear.
    #[verifier::when_used_as_spec(spec_new)]
    pub fn new() -> (register: Self)
        ensures
            register == Self::spec_new(),
            register.word == 0,
    {
        EncMode { word: 0 }
    }

    /// The register that holds `word`. All 32 bits are kept, those outside every
    /// field too.
    #[verifier::when_used_as_spec(spec_from_word)]
    pub fn from_word(word: u32) -> (register: Self)
        ensures
            register == Self::spec_from_word(word),
    {
        EncMode { word }
    }

    /// The register word.
    #[verifier::when_used_as_spec(spec_to_word)]
    pub fn to_word(&self) -> (word: u32)
        ensures
            word == self.word,
    {
        self.word
    }

    /// The register held by four bytes, least significant first.
    pub fn from_bytes(bytes: [u8; 4]) -> (register: Self)
        ensures
            register.word == le_value(bytes@),
            le_bytes(register.word) == bytes@,
    {
        EncMode { word: from_le_bytes(bytes) }
    }

    /// The register word as four bytes, least significant first.
    pub fn into_bytes(self) -> (bytes: [u8; 4])
        ensures
            bytes@ == le_bytes(self.word),
            le_value(bytes@) == self.word,
    {
        to_le_bytes(self.word)
    }

    /// Bit 0: level of channel A that qualifies an index event.
    pub fn pol_a(&self) -> (flag: bool)
        ensures
            flag == (field(self.word, 0, 1) == 1),
            flag == (self.fields()[0] == 1),
    {
        get_flag(self.word, 0)
    }

    /// Writes bit 0 and leaves all other bits as they are.
    pub fn set_pol_a(&mut self, flag: bool)
        ensures
            final(self).word == with_field(old(self).word, 0, 1, bit(flag)),
            final(self).fields() == old(self).fields().update(0, bit(flag)),
    {
        proof {
            lemma_bit_values(flag);
            lemma_field_updated(Self::layout(), self.word, 0, bit(flag));
        }
        self.word = set_flag(self.word, 0, flag);
    }

    /// Bit 1: level of channel B that qualifies an index event.
    pub fn pol_b(&self) -> (flag: bool)
        ensures
            flag == (field(self.word, 1, 1) == 1),
            flag == (self.fields()[1] == 1),
    {
        get_flag(self.word, 1)
    }

    /// Writes bit 1 and leaves all other bits as they are.
    pub fn set_pol_b(&mut self, flag: bool)
        ensures
            final(self).word == with_field(old(self).word, 1, 1, bit(flag)),
            final(self).fields() == old(self).fields().update(1, bit(flag)),
    {
        proof {
            lemma_bit_values(flag);
            lemma_field_updated(Self::layout(), self.word, 1, bit(flag));
        }
        self.word = set_flag(self.word, 1, flag);
    }

    /// Bit 2: the index channel is active high.
    pub fn pol_n(&self) -> (flag: bool)
        ensures
            flag == (field(self.word, 2, 1) == 1),
            flag == (self.fields()[2] == 1),
    {
        get_flag(self.word, 2)
    }

    /// Writes bit 2 and leaves all other bits as they are.
    pub fn set_pol_n(&mut self, flag: bool)
        ensures
            final(self).word == with_field(old(self).word, 2, 1, bit(flag)),
            final(self).fields() == old(self).fields().update(2, bit(flag)),
    {
        proof {
            lemma_bit_values(flag);
            lemma_field_updated(Self::layout(), self.word, 2, bit(flag));
        }
        self.word = set_flag(self.word, 2, flag);
    }

    /// Bit 3: take index events whatever the levels of channels A and B.
    pub fn ignore_ab(&self) -> (flag: bool)
        ensures
            flag == (field(self.word, 3, 1) == 1),
            flag == (self.fields()[3] == 1),
    {
        get_flag(self.word, 3)
    }

    /// Writes bit 3 and leaves all other bits as they are.
    pub fn set_ignore_ab(&mut self, flag: bool)
        ensures
            final(self).word == with_field(old(self).word, 3, 1, bit(flag)),
            final(self).fields() == old(self).fields().update(3, bit(flag)),
    {
        proof {
            lemma_bit_values(flag);
            lemma_field_updated(Self::layout(), self.word, 3, bit(flag));
        }
        self.word = set_flag(self.word, 3, flag);
    }

    /// Bit 4: latch or clear the encoder position on every index event.
    pub fn clr_cont(&self) -> (flag: bool)
        ensures
            flag == (field(self.word, 4, 1) == 1),
            flag == (self.fields()[4] == 1),
    {
        get_flag(self.word, 4)
    }

    /// Writes bit 4 and leaves all other bits as they are.
    pub fn set_clr_cont(&mut self, flag: bool)
        ensures
            final(self).word == with_field(old(self).word, 4, 1, bit(flag)),
            final(self).fields() == old(self).fields().update(4, bit(flag)),
    {
        proof {
            lemma_bit_values(flag);
            lemma_field_updated(Self::layout(), self.word, 4, bit(flag));
        }
        self.word = set_flag(self.word, 4, flag);
    }

    /// Bit 5: latch or clear the encoder position on the next index event only.
    pub fn clr_once(&self) -> (flag: bool)
        ensures
            flag == (field(self.word, 5, 1) == 1),
            flag == (self.fields()[5] == 1),
    {
        get_flag(self.word, 5)
    }

    /// Writes bit 5 and leaves all other bits as they are.
    pub fn set_clr_once(&mut self, flag: bool)
        ensures
            final(self).word == with_field(old(self).word, 5, 1, bit(flag)),
            final(self).fields() == old(self).fields().update(5, bit(flag)),
    {
        proof {
            lemma_bit_values(flag);
            lemma_field_updated(Self::layout(), self.word, 5, bit(flag));
        }
        self.word = set_flag(self.word, 5, flag);
    }

    /// Bit 6: take the rising edge of the index channel as the event.
    pub fn pos_edge(&self) -> (flag: bool)
        ensures
            flag == (field(self.word, 6, 1) == 1),
            flag == (self.fields()[6] == 1),
    {
        get_flag(self.word, 6)
    }

    /// Writes bit 6 and leaves all other bits as they are.
    pub fn set_pos_edge(&mut self, flag: bool)
        ensures
            final(self).word == with_field(old(self).word, 6, 1, bit(flag)),
            final(self).fields() == old(self).fields().update(6, bit(flag)),
    {
        proof {
            lemma_bit_values(flag);
            lemma_field_updated(Self::layout(), self.word, 6, bit(flag));
        }
        self.word = set_flag(self.word, 6, flag);
    }

    /// Bit 7: take the falling edge of the index channel as the event.
    pub fn neg_edge(&self) -> (flag: bool)
        ensures
            flag == (field(self.word, 7, 1) == 1),
            flag == (self.fields()[7] == 1),
    {
        get_flag(self.word, 7)
    }

    /// Writes bit 7 and leaves all other bits as they are.
    pub fn set_neg_edge(&mut self, flag: bool)
        ensures
            final(self).word == with_field(old(self).word, 7, 1, bit(flag)),
            final(self).fields() == old(self).fields().update(7, bit(flag)),
    {
        proof {
            lemma_bit_values(flag);
            lemma_field_updated(Self::layout(), self.word, 7, bit(flag));
        }
        self.word = set_flag(self.word, 7, flag);
    }

    /// Bit 8: clear the encoder position on an index event instead of latching it.
    pub fn clr_enc_x(&self) -> (flag: bool)
        ensures
            flag == (field(self.word, 8, 1) == 1),
            flag == (self.fields()[8] == 1),
    {
        get_flag(self.word, 8)
    }

    /// Writes bit 8 and leaves all other bits as they are.
    pub fn set_clr_enc_x(&mut self, flag: bool)
        ensures
            final(self).word == with_field(old(self).word, 8, 1, bit(flag)),
            final(self).fields() == old(self).fields().update(8, bit(flag)),
    {
        proof {
            lemma_bit_values(flag);
            lemma_field_updated(Self::layout(), self.word, 8, bit(flag));
        }
        self.word = set_flag(self.word, 8, flag);
    }

    /// Bit 9: latch the ramp position together with the encoder position.
    pub fn latch_x_act(&self) -> (flag: bool)
        ensures
            flag == (field(self.word, 9, 1) == 1),
            flag == (self.fields()[9] == 1),
    {
        get_flag(self.word, 9)
    }

    /// Writes bit 9 and leaves all other bits as they are.
    pub fn set_latch_x_act(&mut self, flag: bool)
        ensures
            final(self).word == with_field(old(self).word, 9, 1, bit(flag)),
            final(self).fields() == old(self).fields().update(9, bit(flag)),
    {
        proof {
            lemma_bit_values(flag);
            lemma_field_updated(Self::layout(), self.word, 9, bit(flag));
        }
        self.word = set_flag(self.word, 9, flag);
    }

    /// Bit 10: read the fractional part of the encoder constant as decimal.
    pub fn enc_sel_decimal(&self) -> (flag: bool)
        ensures
            flag == (field(self.word, 10, 1) == 1),
            flag == (self.fields()[10] == 1),
    {
        get_flag(self.word, 10)
    }

    /// Writes bit 10 and leaves all other bits as they are.
    pub fn set_enc_sel_decimal(&mut self, flag: bool)
        ensures
            final(self).word == with_field(old(self).word, 10, 1, bit(flag)),
            final(self).fields() == old(self).fields().update(10, bit(flag)),
    {
        proof {
            lemma_bit_values(flag);
            lemma_field_updated(Self::layout(), self.word, 10, bit(flag));
        }
        self.word = set_flag(self.word, 10, flag);
    }
}

/// Encoder status flags, each cleared by writing a one to it.
#[derive(Clone, Copy, Debug, PartialEq, Eq, Structural)]
pub struct EncStatus {
    /// The register word; bit 0 is the lowest bit of the first field.
    pub word: u32,
}

impl EncStatus {
    /// Where each field lies: the lowest bit and the width of every field, in the
    /// order of the accessors below.
    pub open spec fn layout() -> Seq<(u32, u32)> {
        seq![
            (0u32, 1u32), (1u32, 1u32),
        ]
    }

    /// The values of the fields, in the order of the layout.
    pub open spec fn fields(self) -> Seq<u32> {
        unpack(Self::layout(), self.word)
    }

    /// The register that holds the given values in its fields and zero in every
    /// other bit.
    pub open spec fn of_fields(values: Seq<u32>) -> Self {
        EncStatus { word: pack(Self::layout(), values) }
    }

    /// Every field lies within the word, and no two fields share a bit.
    pub proof fn lemma_layout_sound()
        ensures
            sound(Self::layout()),
    {
    }

    /// Field values that fit their widths come out of the register as they went
    /// in.
    pub proof fn lemma_fields_round_trip(values: Seq<u32>)
        requires
            fitting(Self::layout(), values),
        ensures
            Self::of_fields(values).fields() == values,
    {
        lemma_pack_unpack(Self::layout(), values);
    }

    /// The register with every bit clear.
    pub open spec fn spec_new() -> Self {
        EncStatus { word: 0 }
    }

    /// The register that holds `word`.
    pub open spec fn spec_from_word(word: u32) -> Self {
        EncStatus { word }
    }

    /// The word of the register.
    pub open spec fn spec_to_word(&self) -> u32 {
        self.word
    }

    /// Turning a register into its word and back gives the same register, and
    /// turning a word into a register and back gives the same word.
    pub proof fn lemma_word_round_trip(self, word: u32)
        ensures
            Self::from_word(self.to_word()) == self,
            Self::from_word(word).to_word() == word,
    {
    }

    /// The register with every bit clear.
    #[verifier::when_used_as_spec(spec_new)]
    pub fn new() -> (register: Self)
        ensures
            register == Self::spec_new(),
            register.word == 0,
    {
        EncStatus { word: 0 }
    }

    /// The register that holds `word`. All 32 bits are kept, those outside every
    /// field too.
    #[verifier::when_used_as_spec(spec_from_word)]
    pub fn from_word(word: u32) -> (register: Self)
        ensures
            register == Self::spec_from_word(word),
    {
        EncStatus { word }
    }

    /// The register word.
    #[verifier::when_used_as_spec(spec_to_word)]
    pub fn to_word(&self) -> (word: u32)
        ensures
            word == self.word,
    {
        self.word
    }

    /// The register held by four bytes, least significant first.
    pub fn from_bytes(bytes: [u8; 4]) -> (register: Self)
        ensures
            register.word == le_value(bytes@),
            le_bytes(register.word) == bytes@,
    {
        EncStatus { word: from_le_bytes(bytes) }
    }

    /// The register word as four bytes, least significant first.
    pub fn into_bytes(self) -> (bytes: [u8; 4])
        ensures
            bytes@ == le_bytes(self.word),
            le_value(bytes@) == self.word,
    {
        to_le_bytes(self.word)
    }

    /// Bit 0: an index event was seen.
    pub fn n_event(&self) -> (flag: bool)
        ensures
            flag == (field(self.word, 0, 1) == 1),
            flag == (self.fields()[0] == 1),
    {
        get_flag(self.word, 0)
    }

    /// Writes bit 0 and leaves all other bits as they are.
    pub fn set_n_event(&mut self, flag: bool)
        ensures
            final(self).word == with_field(old(self).word, 0, 1, bit(flag)),
            final(self).fields() == old(self).fields().update(0, bit(flag)),
    {
        proof {
            lemma_bit_values(flag);
            lemma_field_updated(Self::layout(), self.word, 0, bit(flag));
        }
        self.word = set_flag(self.word, 0, flag);
    }

    /// Bit 1: encoder and ramp position differ by more than the configured limit.
    pub fn deviation_warn(&self) -> (flag: bool)
        ensures
            flag == (field(self.word, 1, 1) == 1),
            flag == (self.fields()[1] == 1),
    {
        get_flag(self.word, 1)
    }

    /// Writes bit 1 and leaves all other bits as they are.
    pub fn set_deviation_warn(&mut self, flag: bool)
        ensures
            final(self).word == with_field(old(self).word, 1, 1, bit(flag)),
            final(self).fields() == old(self).fields().update(1, bit(flag)),
    {
        proof {
            lemma_bit_values(flag);
            lemma_field_updated(Self::layout(), self.word, 1, bit(flag));
        }
        self.word = set_flag(self.word, 1, flag);
    }
}

} // verus!
