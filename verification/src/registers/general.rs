//! Global configuration, interface and power-stage registers.

use vstd::prelude::*;
use crate::registers::bits::{
    bit, field, fitting, get_field, get_flag, lemma_bit_values, lemma_field_fits,
    lemma_field_updated, lemma_field_written, lemma_mask_values, lemma_pack_unpack, pack,
    set_field, set_flag, sound, unpack, with_field,
};
use crate::wire::{from_le_bytes, le_bytes, le_value, to_le_bytes};

verus! {

/// Global configuration flags.
#[derive(Clone, Copy, Debug, PartialEq, Eq, Structural)]
pub struct GConf {
    /// The register word; bit 0 is the lowest bit of the first field.
    pub word: u32,
}

impl GConf {
    /// Where each field lies: the lowest bit and the width of every field, in the
    /// order of the accessors below.
    pub open spec fn layout() -> Seq<(u32, u32)> {
        seq![
            (0u32, 1u32), (1u32, 1u32), (2u32, 1u32), (3u32, 1u32), (4u32, 1u32), (5u32, 1u32),
            (6u32, 1u32), (7u32, 1u32), (8u32, 1u32), (9u32, 1u32), (10u32, 1u32),
            (11u32, 1u32), (12u32, 1u32), (13u32, 1u32), (14u32, 1u32), (15u32, 1u32),
            (16u32, 1u32), (17u32, 1u32),
        ]
    }

    /// The values of the fields, in the order of the layout.
    pub open spec fn fields(self) -> Seq<u32> {
        unpack(Self::layout(), self.word)
    }

    /// The register that holds the given values in its fields and zero in every
    /// other bit.
    pub open spec fn of_fields(values: Seq<u32>) -> Self {
        GConf { word: pack(Self::layout(), values) }
    }

    /// Every field lies within the word, and no two fields share a bit.
    pub proof fn lemma_layout_sound()
        ensures
            sound(Self::layout()),
    {
    }

    /// Field values that fit their widths come out of the register as they went
    /// in.
    pub proof fn lemma_fields_round_trip(values: Seq<u32>)
        requires
            fitting(Self::layout(), values),
        ensures
            Self::of_fields(values).fields() == values,
    {
        lemma_pack_unpack(Self::layout(), values);
    }

    /// The register as the chip holds it after power-on: every bit clear.
    pub open spec fn spec_new() -> Self {
        GConf { word: 0 }
    }

    /// The register that holds `word`.
    pub open spec fn spec_from_word(word: u32) -> Self {
        GConf { word }
    }

    /// The word of the register.
    pub open spec fn spec_to_word(&self) -> u32 {
        self.word
    }

    /// Turning a register into its word and back gives the same register, and
    /// turning a word into a register and back gives the same word.
    pub proof fn lemma_word_round_trip(self, word: u32)
        ensures
            Self::from_word(self.to_word()) == self,
            Self::from_word(word).to_word() == word,
    {
    }

    /// The register as the chip holds it after power-on: every bit clear.
    #[verifier::when_used_as_spec(spec_new)]
    pub fn new() -> (register: Self)
        ensures
            register == Self::spec_new(),
            register.word == 0,
    {
        GConf { word: 0 }
    }

    /// The register that holds `word`. All 32 bits are kept, those outside every
    /// field too.
    #[verifier::when_used_as_spec(spec_from_word)]
    pub fn from_word(word: u32) -> (register: Self)
        ensures
            register == Self::spec_from_word(word),
    {
        GConf { word }
    }

    /// The register word.
    #[verifier::when_used_as_spec(spec_to_word)]
    pub fn to_word(&self) -> (word: u32)
        ensures
            word == self.word,
    {
        self.word
    }

    /// The register held by four bytes, least significant first.
    pub fn from_bytes(bytes: [u8; 4]) -> (register: Self)
        ensures
            register.word == le_value(bytes@),
            le_bytes(register.word) == bytes@,
    {
        GConf { word: from_le_bytes(bytes) }
    }

    /// The register word as four bytes, least significant first.
    pub fn into_bytes(self) -> (bytes: [u8; 4])
        ensures
            bytes@ == le_bytes(self.word),
            le_value(bytes@) == self.word,
    {
        to_le_bytes(self.word)
    }

    /// Bit 0: recalibrate the zero crossing while the driver is disabled.
    pub fn recalibrate(&self) -> (flag: bool)
        ensures
            flag == (field(self.word, 0, 1) == 1),
            flag == (self.fields()[0] == 1),
    {
        get_flag(self.word, 0)
    }

    /// Writes bit 0 and leaves all other bits as they are.
    pub fn set_recalibrate(&mut self, flag: bool)
        ensures
            final(self).word == with_field(old(self).word, 0, 1, bit(flag)),
            final(self).fields() == old(self).fields().update(0, bit(flag)),
    {
        proof {
            lemma_bit_values(flag);
            lemma_field_updated(Self::layout(), self.word, 0, bit(flag));
        }
        self.word = set_flag(self.word, 0, flag);
    }

    /// Bit 1: shorten the time after which standstill is detected.
    pub fn faststandstill(&self) -> (flag: bool)
        ensures
            flag == (field(self.word, 1, 1) == 1),
            flag == (self.fields()[1] == 1),
    {
        get_flag(self.word, 1)
    }

    /// Writes bit 1 and leaves all other bits as they are.
    pub fn set_faststandstill(&mut self, flag: bool)
        ensures
            final(self).word == with_field(old(self).word, 1, 1, bit(flag)),
            final(self).fields() == old(self).fields().update(1, bit(flag)),
    {
        proof {
            lemma_bit_values(flag);
            lemma_field_updated(Self::layout(), self.word, 1, bit(flag));
        }
        self.word = set_flag(self.word, 1, flag);
    }

    /// Bit 2: enable the silent voltage-PWM chopper.
    pub fn en_pwm_mode(&self) -> (flag: bool)
        ensures
            flag == (field(self.word, 2, 1) == 1),
            flag == (self.fields()[2] == 1),
    {
        get_flag(self.word, 2)
    }

    /// Writes bit 2 and leaves all other bits as they are.
    pub fn set_en_pwm_mode(&mut self, flag: bool)
        ensures
            final(self).word == with_field(old(self).word, 2, 1, bit(flag)),
            final(self).fields() == old(self).fields().update(2, bit(flag)),
    {
        proof {
            lemma_bit_values(flag);
            lemma_field_updated(Self::layout(), self.word, 2, bit(flag));
        }
        self.word = set_flag(self.word, 2, flag);
    }

    /// Bit 3: filter the step input for the silent chopper.
    pub fn multistep_filt(&self) -> (flag: bool)
        ensures
            flag == (field(self.word, 3, 1) == 1),
            flag == (self.fields()[3] == 1),
    {
        get_flag(self.word, 3)
    }

    /// Writes bit 3 and leaves all other bits as they are.
    pub fn set_multistep_filt(&mut self, flag: bool)
        ensures
            final(self).word == with_field(old(self).word, 3, 1, bit(flag)),
            final(self).fields() == old(self).fields().update(3, bit(flag)),
    {
        proof {
            lemma_bit_values(flag);
            lemma_field_updated(Self::layout(), self.word, 3, bit(flag));
        }
        self.word = set_flag(self.word, 3, flag);
    }

    /// Bit 4: invert the motor direction.
    pub fn shaft(&self) -> (flag: bool)
        ensures
            flag == (field(self.word, 4, 1) == 1),
            flag == (self.fields()[4] == 1),
    {
        get_flag(self.word, 4)
    }

    /// Writes bit 4 and leaves all other bits as they are.
    pub fn set_shaft(&mut self, flag: bool)
        ensures
            final(self).word == with_field(old(self).word, 4, 1, bit(flag)),
            final(self).fields() == old(self).fields().update(4, bit(flag)),
    {
        proof {
            lemma_bit_values(flag);
            lemma_field_updated(Self::layout(), self.word, 4, bit(flag));
        }
        self.word = set_flag(self.word, 4, flag);
    }

    /// Bit 5: signal driver errors on the first diagnostic output.
    pub fn diag0_error(&self) -> (flag: bool)
        ensures
            flag == (field(self.word, 5, 1) == 1),
            flag == (self.fields()[5] == 1),
    {
        get_flag(self.word, 5)
    }

    /// Writes bit 5 and leaves all other bits as they are.
    pub fn set_diag0_error(&mut self, flag: bool)
        ensures
            final(self).word == with_field(old(self).word, 5, 1, bit(flag)),
            final(self).fields() == old(self).fields().update(5, bit(flag)),
    {
        proof {
            lemma_bit_values(flag);
            lemma_field_updated(Self::layout(), self.word, 5, bit(flag));
        }
        self.word = set_flag(self.word, 5, flag);
    }

    /// Bit 6: signal the overtemperature prewarning on the first diagnostic output.
    pub fn diag0_otpw(&self) -> (flag: bool)
        ensures
            flag == (field(self.word, 6, 1) == 1),
            flag == (self.fields()[6] == 1),
    {
        get_flag(self.word, 6)
    }

    /// Writes bit 6 and leaves all other bits as they are.
    pub fn set_diag0_otpw(&mut self, flag: bool)
        ensures
            final(self).word == with_field(old(self).word, 6, 1, bit(flag)),
            final(self).fields() == old(self).fields().update(6, bit(flag)),
    {
        proof {
            lemma_bit_values(flag);
            lemma_field_updated(Self::layout(), self.word, 6, bit(flag));
        }
        self.word = set_flag(self.word, 6, flag);
    }

    /// Bit 7: signal a motor stall on the first diagnostic output.
    pub fn diag0_stall(&self) -> (flag: bool)
        ensures
            flag == (field(self.word, 7, 1) == 1),
            flag == (self.fields()[7] == 1),
    {
        get_flag(self.word, 7)
    }

    /// Writes bit 7 and leaves all other bits as they are.
    pub fn set_diag0_stall(&mut self, flag: bool)
        ensures
            final(self).word == with_field(old(self).word, 7, 1, bit(flag)),
            final(self).fields() == old(self).fields().update(7, bit(flag)),
    {
        proof {
            lemma_bit_values(flag);
            lemma_field_updated(Self::layout(), self.word, 7, bit(flag));
        }
        self.word = set_flag(self.word, 7, flag);
    }

    /// Bit 8: signal a motor stall on the second diagnostic output.
    pub fn diag1_stall(&self) -> (flag: bool)
        ensures
            flag == (field(self.word, 8, 1) == 1),
            flag == (self.fields()[8] == 1),
    {
        get_flag(self.word, 8)
    }

    /// Writes bit 8 and leaves all other bits as they are.
    pub fn set_diag1_stall(&mut self, flag: bool)
        ensures
            final(self).word == with_field(old(self).word, 8, 1, bit(flag)),
            final(self).fields() == old(self).fields().update(8, bit(flag)),
    {
        proof {
            lemma_bit_values(flag);
            lemma_field_updated(Self::layout(), self.word, 8, bit(flag));
        }
        self.word = set_flag(self.word, 8, flag);
    }

    /// Bit 9: signal the microstep index position on the second diagnostic output.
    pub fn diag1_index(&self) -> (flag: bool)
        ensures
            flag == (field(self.word, 9, 1) == 1),
            flag == (self.fields()[9] == 1),
    {
        get_flag(self.word, 9)
    }

    /// Writes bit 9 and leaves all other bits as they are.
    pub fn set_diag1_index(&mut self, flag: bool)
        ensures
            final(self).word == with_field(old(self).word, 9, 1, bit(flag)),
            final(self).fields() == old(self).fields().update(9, bit(flag)),
    {
        proof {
            lemma_bit_values(flag);
            lemma_field_updated(Self::layout(), self.word, 9, bit(flag));
        }
        self.word = set_flag(self.word, 9, flag);
    }

    /// Bit 10: signal the chopper on-state on the second diagnostic output.
    pub fn diag1_onstate(&self) -> (flag: bool)
        ensures
            flag == (field(self.word, 10, 1) == 1),
            flag == (self.fields()[10] == 1),
    {
        get_flag(self.word, 10)
    }

    /// Writes bit 10 and leaves all other bits as they are.
    pub fn set_diag1_onstate(&mut self, flag: bool)
        ensures
            final(self).word == with_field(old(self).word, 10, 1, bit(flag)),
            final(self).fields() == old(self).fields().update(10, bit(flag)),
    {
        proof {
            lemma_bit_values(flag);
            lemma_field_updated(Self::layout(), self.word, 10, bit(flag));
        }
        self.word = set_flag(self.word, 10, flag);
    }

    /// Bit 11: toggle the second diagnostic output when steps are skipped.
    pub fn diag1_steps_skipped(&self) -> (flag: bool)
        ensures
            flag == (field(self.word, 11, 1) == 1),
            flag == (self.fields()[11] == 1),
    {
        get_flag(self.word, 11)
    }

    /// Writes bit 11 and leaves all other bits as they are.
    pub fn set_diag1_steps_skipped(&mut self, flag: bool)
        ensures
            final(self).word == with_field(old(self).word, 11, 1, bit(flag)),
            final(self).fields() == old(self).fields().update(11, bit(flag)),
    {
        proof {
            lemma_bit_values(flag);
            lemma_field_updated(Self::layout(), self.word, 11, bit(flag));
        }
        self.word = set_flag(self.word, 11, flag);
    }

    /// Bit 12: drive the first diagnostic output push-pull instead of open-collector.
    pub fn diag0_int_pushpull(&self) -> (flag: bool)
        ensures
            flag == (field(self.word, 12, 1) == 1),
            flag == (self.fields()[12] == 1),
    {
        get_flag(self.word, 12)
    }

    /// Writes bit 12 and leaves all other bits as they are.
    pub fn set_diag0_int_pushpull(&mut self, flag: bool)
        ensures
            final(self).word == with_field(old(self).word, 12, 1, bit(flag)),
            final(self).fields() == old(self).fields().update(12, bit(flag)),
    {
        proof {
            lemma_bit_values(flag);
            lemma_field_updated(Self::layout(), self.word, 12, bit(flag));
        }
        self.word = set_flag(self.word, 12, flag);
    }

    /// Bit 13: drive the second diagnostic output push-pull instead of open-collector.
    pub fn diag1_poscomp_pushpull(&self) -> (flag: bool)
        ensures
            flag == (field(self.word, 13, 1) == 1),
            flag == (self.fields()[13] == 1),
    {
        get_flag(self.word, 13)
    }

    /// Writes bit 13 and leaves all other bits as they are.
    pub fn set_diag1_poscomp_pushpull(&mut self, flag: bool)
        ensures
            final(self).word == with_field(old(self).word, 13, 1, bit(flag)),
            final(self).fields() == old(self).fields().update(13, bit(flag)),
    {
        proof {
            lemma_bit_values(flag);
            lemma_field_updated(Self::layout(), self.word, 13, bit(flag));
        }
        self.word = set_flag(self.word, 13, flag);
    }

    /// Bit 14: use the smaller hysteresis for the step-frequency comparison.
    pub fn small_hysteresis(&self) -> (flag: bool)
        ensures
            flag == (field(self.word, 14, 1) == 1),
            flag == (self.fields()[14] == 1),
    {
        get_flag(self.word, 14)
    }

    /// Writes bit 14 and leaves all other bits as they are.
    pub fn set_small_hysteresis(&mut self, flag: bool)
        ensures
            final(self).word == with_field(old(self).word, 14, 1, bit(flag)),
            final(self).fields() == old(self).fields().update(14, bit(flag)),
    {
        proof {
            lemma_bit_values(flag);
            lemma_field_updated(Self::layout(), self.word, 14, bit(flag));
        }
        self.word = set_flag(self.word, 14, flag);
    }

    /// Bit 15: let the enable input act as an emergency stop.
    pub fn stop_enable(&self) -> (flag: bool)
        ensures
            flag == (field(self.word, 15, 1) == 1),
            flag == (self.fields()[15] == 1),
    {
        get_flag(self.word, 15)
    }

    /// Writes bit 15 and leaves all other bits as they are.
    pub fn set_stop_enable(&mut self, flag: bool)
        ensures
            final(self).word == with_field(old(self).word, 15, 1, bit(flag)),
            final(self).fields() == old(self).fields().update(15, bit(flag)),
    {
        proof {
            lemma_bit_values(flag);
            lemma_field_updated(Self::layout(), self.word, 15, bit(flag));
        }
        self.word = set_flag(self.word, 15, flag);
    }

    /// Bit 16: take the coil currents directly from the target register.
    pub fn direct_mode(&self) -> (flag: bool)
        ensures
            flag == (field(self.word, 16, 1) == 1),
            flag == (self.fields()[16] == 1),
    {
        get_flag(self.word, 16)
    }

    /// Writes bit 16 and leaves all other bits as they are.
    pub fn set_direct_mode(&mut self, flag: bool)
        ensures
            final(self).word == with_field(old(self).word, 16, 1, bit(flag)),
            final(self).fields() == old(self).fields().update(16, bit(flag)),
    {
        proof {
            lemma_bit_values(flag);
            lemma_field_updated(Self::layout(), self.word, 16, bit(flag));
        }
        self.word = set_flag(self.word, 16, flag);
    }

    /// Bit 17: factory test mode; keep clear in normal operation.
    pub fn test_mode(&self) -> (flag: bool)
        ensures
            flag == (field(self.word, 17, 1) == 1),
            flag == (self.fields()[17] == 1),
    {
        get_flag(self.word, 17)
    }

    /// Writes bit 17 and leaves all other bits as they are.
    pub fn set_test_mode(&mut self, flag: bool)
        ensures
            final(self).word == with_field(old(self).word, 17, 1, bit(flag)),
            final(self).fields() == old(self).fields().update(17, bit(flag)),
    {
        proof {
            lemma_bit_values(flag);
            lemma_field_updated(Self::layout(), self.word, 17, bit(flag));
        }
        self.word = set_flag(self.word, 17, flag);
    }
}

/// Global status flags, each cleared by writing a one to it.
#[derive(Clone, Copy, Debug, PartialEq, Eq, Structural)]
pub struct GStat {
    /// The register word; bit 0 is the lowest bit of the first field.
    pub word: u32,
}

impl GStat {
    /// Where each field lies: the lowest bit and the width of every field, in the
    /// order of the accessors below.
    pub open spec fn layout() -> Seq<(u32, u32)> {
        seq![
            (0u32, 1u32), (1u32, 1u32), (2u32, 1u32),
        ]
    }

    /// The values of the fields, in the order of the layout.
    pub open spec fn fields(self) -> Seq<u32> {
        unpack(Self::layout(), self.word)
    }

    /// The register that holds the given values in its fields and zero in every
    /// other bit.
    pub open spec fn of_fields(values: Seq<u32>) -> Self {
        GStat { word: pack(Self::layout(), values) }
    }

    /// Every field lies within the word, and no two fields share a bit.
    pub proof fn lemma_layout_sound()
        ensures
            sound(Self::layout()),
    {
    }

    /// Field values that fit their widths come out of the register as they went
    /// in.
    pub proof fn lemma_fields_round_trip(values: Seq<u32>)
        requires
            fitting(Self::layout(), values),
        ensures
            Self::of_fields(values).fields() == values,
    {
        lemma_pack_unpack(Self::layout(), values);
    }

    /// The register with every bit clear.
    pub open spec fn spec_new() -> Self {
        GStat { word: 0 }
    }

    /// The register that holds `word`.
    pub open spec fn spec_from_word(word: u32) -> Self {
        GStat { word }
    }

    /// The word of the register.
    pub open spec fn spec_to_word(&self) -> u32 {
        self.word
    }

    /// Turning a register into its word and back gives the same register, and
    /// turning a word into a register and back gives the same word.
    pub proof fn lemma_word_round_trip(self, word: u32)
        ensures
            Self::from_word(self.to_word()) == self,
            Self::from_word(word).to_word() == word,
    {
    }

    /// The register with every bit clear.
    #[verifier::when_used_as_spec(spec_new)]
    pub fn new() -> (register: Self)
        ensures
            register == Self::spec_new(),
            register.word == 0,
    {
        GStat { word: 0 }
    }

    /// The register that holds `word`. All 32 bits are kept, those outside every
    /// field too.
    #[verifier::when_used_as_spec(spec_from_word)]
    pub fn from_word(word: u32) -> (register: Self)
        ensures
            register == Self::spec_from_word(word),
    {
        GStat { word }
    }

    /// The register word.
    #[verifier::when_used_as_spec(spec_to_word)]
    pub fn to_word(&self) -> (word: u32)
        ensures
            word == self.word,
    {
        self.word
    }

    /// The register held by four bytes, least significant first.
    pub fn from_bytes(bytes: [u8; 4]) -> (register: Self)
        ensures
            register.word == le_value(bytes@),
            le_bytes(register.word) == bytes@,
    {
        GStat { word: from_le_bytes(bytes) }
    }

    /// The register word as four bytes, least significant first.
    pub fn into_bytes(self) -> (bytes: [u8; 4])
        ensures
            bytes@ == le_bytes(self.word),
            le_value(bytes@) == self.word,
    {
        to_le_bytes(self.word)
    }

    /// Bit 0: the chip has been reset since the flags were last cleared.
    pub fn reset(&self) -> (flag: bool)
        ensures
            flag == (field(self.word, 0, 1) == 1),
            flag == (self.fields()[0] == 1),
    {
        get_flag(self.word, 0)
    }

    /// Writes bit 0 and leaves all other bits as they are.
    pub fn set_reset(&mut self, flag: bool)
        ensures
            final(self).word == with_field(old(self).word, 0, 1, bit(flag)),
            final(self).fields() == old(self).fields().update(0, bit(flag)),
    {
        proof {
            lemma_bit_values(flag);
            lemma_field_updated(Self::layout(), self.word, 0, bit(flag));
        }
        self.word = set_flag(self.word, 0, flag);
    }

    /// Bit 1: the driver was shut down by overtemperature or a short circuit.
    pub fn drv_err(&self) -> (flag: bool)
        ensures
            flag == (field(self.word, 1, 1) == 1),
            flag == (self.fields()[1] == 1),
    {
        get_flag(self.word, 1)
    }

    /// Writes bit 1 and leaves all other bits as they are.
    pub fn set_drv_err(&mut self, flag: bool)
        ensures
            final(self).word == with_field(old(self).word, 1, 1, bit(flag)),
            final(self).fields() == old(self).fields().update(1, bit(flag)),
    {
        proof {
            lemma_bit_values(flag);
            lemma_field_updated(Self::layout(), self.word, 1, bit(flag));
        }
        self.word = set_flag(self.word, 1, flag);
    }

    /// Bit 2: the charge pump is undervoltage.
    pub fn uv_cp(&self) -> (flag: bool)
        ensures
            flag == (field(self.word, 2, 1) == 1),
            flag == (self.fields()[2] == 1),
    {
        get_flag(self.word, 2)
    }

    /// Writes bit 2 and leaves all other bits as they are.
    pub fn set_uv_cp(&mut self, flag: bool)
        ensures
            final(self).word == with_field(old(self).word, 2, 1, bit(flag)),
            final(self).fields() == old(self).fields().update(2, bit(flag)),
    {
        proof {
            lemma_bit_values(flag);
            lemma_field_updated(Self::layout(), self.word, 2, bit(flag));
        }
        self.word = set_flag(self.word, 2, flag);
    }
}

/// Address and reply delay on the single-wire interface.
#[derive(Clone, Copy, Debug, PartialEq, Eq, Structural)]
pub struct NodeConf {
    /// The register word; bit 0 is the lowest bit of the first field.
    pub word: u32,
}

impl NodeConf {
    /// Where each field lies: the lowest bit and the width of every field, in the
    /// order of the accessors below.
    pub open spec fn layout() -> Seq<(u32, u32)> {
        seq![
            (0u32, 8u32), (8u32, 4u32),
        ]
    }

    /// The values of the fields, in the order of the layout.
    pub open spec fn fields(self) -> Seq<u32> {
        unpack(Self::layout(), self.word)
    }

    /// The register that holds the given values in its fields and zero in every
    /// other bit.
    pub open spec fn of_fields(values: Seq<u32>) -> Self {
        NodeConf { word: pack(Self::layout(), values) }
    }

    /// Every field lies within the word, and no two fields share a bit.
    pub proof fn lemma_layout_sound()
        ensures
            sound(Self::layout()),
    {
    }

    /// Field values that fit their widths come out of the register as they went
    /// in.
    pub proof fn lemma_fields_round_trip(values: Seq<u32>)
        requires
            fitting(Self::layout(), values),
        ensures
            Self::of_fields(values).fields() == values,
    {
        lemma_pack_unpack(Self::layout(), values);
    }

    /// The register as the chip holds it after power-on: every bit clear.
    pub open spec fn spec_new() -> Self {
        NodeConf { word: 0 }
    }

    /// The register that holds `word`.
    pub open spec fn spec_from_word(word: u32) -> Self {
        NodeConf { word }
    }

    /// The word of the register.
    pub open spec fn spec_to_word(&self) -> u32 {
        self.word
    }

    /// Turning a register into its word and back gives the same register, and
    /// turning a word into a register and back gives the same word.
    pub proof fn lemma_word_round_trip(self, word: u32)
        ensures
            Self::from_word(self.to_word()) == self,
            Self::from_word(word).to_word() == word,
    {
    }

    /// The register as the chip holds it after power-on: every bit clear.
    #[verifier::when_used_as_spec(spec_new)]
    pub fn new() -> (register: Self)
        ensures
            register == Self::spec_new(),
            register.word == 0,
    {
        NodeConf { word: 0 }
    }

    /// The register that holds `word`. All 32 bits are kept, those outside every
    /// field too.
    #[verifier::when_used_as_spec(spec_from_word)]
    pub fn from_word(word: u32) -> (register: Self)
        ensures
            register == Self::spec_from_word(word),
    {
        NodeConf { word }
    }

    /// The register word.
    #[verifier::when_used_as_spec(spec_to_word)]
    pub fn to_word(&self) -> (word: u32)
        ensures
            word == self.word,
    {
        self.word
    }

    /// The register held by four bytes, least significant first.
    pub fn from_bytes(bytes: [u8; 4]) -> (register: Self)
        ensures
            register.word == le_value(bytes@),
            le_bytes(register.word) == bytes@,
    {
        NodeConf { word: from_le_bytes(bytes) }
    }

    /// The register word as four bytes, least significant first.
    pub fn into_bytes(self) -> (bytes: [u8; 4])
        ensures
            bytes@ == le_bytes(self.word),
            le_value(bytes@) == self.word,
    {
        to_le_bytes(self.word)
    }

    /// Bits 7 to 0: address of this chip on the single-wire interface.
    pub fn node_addr(&self) -> (value: u8)
        ensures
            value == field(self.word, 0, 8),
            value == self.fields()[0],
    {
        proof {
            lemma_field_fits(self.word, 0, 8);
            lemma_mask_values();
        }
        get_field(self.word, 0, 8) as u8
    }

    /// Writes bits 7 to 0 from `value` and leaves all other bits as they are.
    pub fn set_node_addr(&mut self, value: u8)
        ensures
            final(self).word == with_field(old(self).word, 0, 8, value as u32),
            final(self).fields() == old(self).fields().update(
                0,
                value as u32 & 0xFF,
            ),
            value <= 0xFF ==> final(self).fields()[0] == value,
    {
        proof {
            lemma_mask_values();
            lemma_field_updated(Self::layout(), self.word, 0, value as u32);
            lemma_field_written(self.word, 0, 8, value as u32);
        }
        self.word = set_field(self.word, 0, 8, value as u32);
    }

    /// Bits 11 to 8: delay before a reply is sent, in units of eight bit times.
    pub fn send_delay(&self) -> (value: u8)
        ensures
            value == field(self.word, 8, 4),
            value == self.fields()[1],
            value <= 0xF,
    {
        proof {
            lemma_field_fits(self.word, 8, 4);
            lemma_mask_values();
        }
        get_field(self.word, 8, 4) as u8
    }

    /// Writes bits 11 to 8 from the lowest four bits of `value` and leaves all other bits as
    /// they are.
    pub fn set_send_delay(&mut self, value: u8)
        ensures
            final(self).word == with_field(old(self).word, 8, 4, value as u32),
            final(self).fields() == old(self).fields().update(
                1,
                value as u32 & 0xF,
            ),
            value <= 0xF ==> final(self).fields()[1] == value,
    {
        proof {
            lemma_mask_values();
            lemma_field_updated(Self::layout(), self.word, 1, value as u32);
            lemma_field_written(self.word, 8, 4, value as u32);
        }
        self.word = set_field(self.word, 8, 4, value as u32);
    }
}

/// Programming command for the one-time programmable memory.
#[derive(Clone, Copy, Debug, PartialEq, Eq, Structural)]
pub struct OtpProg {
    /// The register word; bit 0 is the lowest bit of the first field.
    pub word: u32,
}

impl OtpProg {
    /// Where each field lies: the lowest bit and the width of every field, in the
    /// order of the accessors below.
    pub open spec fn layout() -> Seq<(u32, u32)> {
        seq![
            (0u32, 3u32), (4u32, 2u32), (8u32, 8u32),
        ]
    }

    /// The values of the fields, in the order of the layout.
    pub open spec fn fields(self) -> Seq<u32> {
        unpack(Self::layout(), self.word)
    }

    /// The register that holds the given values in its fields and zero in every
    /// other bit.
    pub open spec fn of_fields(values: Seq<u32>) -> Self {
        OtpProg { word: pack(Self::layout(), values) }
    }

    /// Every field lies within the word, and no two fields share a bit.
    pub proof fn lemma_layout_sound()
        ensures
            sound(Self::layout()),
    {
    }

    /// Field values that fit their widths come out of the register as they went
    /// in.
    pub proof fn lemma_fields_round_trip(values: Seq<u32>)
        requires
            fitting(Self::layout(), values),
        ensures
            Self::of_fields(values).fields() == values,
    {
        lemma_pack_unpack(Self::layout(), values);
    }

    /// The register as the chip holds it after power-on: every bit clear.
    pub open spec fn spec_new() -> Self {
        OtpProg { word: 0 }
    }

    /// The register that holds `word`.
    pub open spec fn spec_from_word(word: u32) -> Self {
        OtpProg { word }
    }

    /// The word of the register.
    pub open spec fn spec_to_word(&self) -> u32 {
        self.word
    }

    /// Turning a register into its word and back gives the same register, and
    /// turning a word into a register and back gives the same word.
    pub proof fn lemma_word_round_trip(self, word: u32)
        ensures
            Self::from_word(self.to_word()) == self,
            Self::from_word(word).to_word() == word,
    {
    }

    /// The register as the chip holds it after power-on: every bit clear.
    #[verifier::when_used_as_spec(spec_new)]
    pub fn new() -> (register: Self)
        ensures
            register == Self::spec_new(),
            register.word == 0,
    {
        OtpProg { word: 0 }
    }

    /// The register that holds `word`. All 32 bits are kept, those outside every
    /// field too.
    #[verifier::when_used_as_spec(spec_from_word)]
    pub fn from_word(word: u32) -> (register: Self)
        ensures
            register == Self::spec_from_word(word),
    {
        OtpProg { word }
    }

    /// The register word.
    #[verifier::when_used_as_spec(spec_to_word)]
    pub fn to_word(&self) -> (word: u32)
        ensures
            word == self.word,
    {
        self.word
    }

    /// The register held by four bytes, least significant first.
    pub fn from_bytes(bytes: [u8; 4]) -> (register: Self)
        ensures
            register.word == le_value(bytes@),
            le_bytes(register.word) == bytes@,
    {
        OtpProg { word: from_le_bytes(bytes) }
    }

    /// The register word as four bytes, least significant first.
    pub fn into_bytes(self) -> (bytes: [u8; 4])
        ensures
            bytes@ == le_bytes(self.word),
            le_value(bytes@) == self.word,
    {
        to_le_bytes(self.word)
    }

    /// Bits 2 to 0: bit to program within the selected byte.
    pub fn otp_bit(&self) -> (value: u8)
        ensures
            value == field(self.word, 0, 3),
            value == self.fields()[0],
            value <= 0x7,
    {
        proof {
            lemma_field_fits(self.word, 0, 3);
            lemma_mask_values();
        }
        get_field(self.word, 0, 3) as u8
    }

    /// Writes bits 2 to 0 from the lowest three bits of `value` and leaves all other bits as
    /// they are.
    pub fn set_otp_bit(&mut self, value: u8)
        ensures
            final(self).word == with_field(old(self).word, 0, 3, value as u32),
            final(self).fields() == old(self).fields().update(
                0,
                value as u32 & 0x7,
            ),
            value <= 0x7 ==> final(self).fields()[0] == value,
    {
        proof {
            lemma_mask_values();
            lemma_field_updated(Self::layout(), self.word, 0, value as u32);
            lemma_field_written(self.word, 0, 3, value as u32);
        }
        self.word = set_field(self.word, 0, 3, value as u32);
    }

    /// Bits 5 to 4: byte of the memory to program; only byte 0 exists.
    pub fn otp_byte(&self) -> (value: u8)
        ensures
            value == field(self.word, 4, 2),
            value == self.fields()[1],
            value <= 0x3,
    {
        proof {
            lemma_field_fits(self.word, 4, 2);
            lemma_mask_values();
        }
        get_field(self.word, 4, 2) as u8
    }

    /// Writes bits 5 to 4 from the lowest two bits of `value` and leaves all other bits as
    /// they are.
    pub fn set_otp_byte(&mut self, value: u8)
        ensures
            final(self).word == with_field(old(self).word, 4, 2, value as u32),
            final(self).fields() == old(self).fields().update(
                1,
                value as u32 & 0x3,
            ),
            value <= 0x3 ==> final(self).fields()[1] == value,
    {
        proof {
            lemma_mask_values();
            lemma_field_updated(Self::layout(), self.word, 1, value as u32);
            lemma_field_written(self.word, 4, 2, value as u32);
        }
        self.word = set_field(self.word, 4, 2, value as u32);
    }

    /// Bits 15 to 8: key that arms the programming; 0xBD starts it.
    pub fn otp_magic(&self) -> (value: u8)
        ensures
            value == field(self.word, 8, 8),
            value == self.fields()[2],
    {
        proof {
            lemma_field_fits(self.word, 8, 8);
            lemma_mask_values();
        }
        get_field(self.word, 8, 8) as u8
    }

    /// Writes bits 15 to 8 from `value` and leaves all other bits as they are.
    pub fn set_otp_magic(&mut self, value: u8)
        ensures
            final(self).word == with_field(old(self).word, 8, 8, value as u32),
            final(self).fields() == old(self).fields().update(
                2,
                value as u32 & 0xFF,
            ),
            value <= 0xFF ==> final(self).fields()[2] == value,
    {
        proof {
            lemma_mask_values();
            lemma_field_updated(Self::layout(), self.word, 2, value as u32);
            lemma_field_written(self.word, 8, 8, value as u32);
        }
        self.word = set_field(self.word, 8, 8, value as u32);
    }
}

/// Short-circuit detector thresholds.
#[derive(Clone, Copy, Debug, PartialEq, Eq, Structural)]
pub struct ShortConf {
    /// The register word; bit 0 is the lowest bit of the first field.
    pub word: u32,
}

impl ShortConf {
    /// Where each field lies: the lowest bit and the width of every field, in the
    /// order of the accessors below.
    pub open spec fn layout() -> Seq<(u32, u32)> {
        seq![
            (0u32, 4u32), (8u32, 4u32), (16u32, 2u32), (18u32, 1u32),
        ]
    }

    /// The values of the fields, in the order of the layout.
    pub open spec fn fields(self) -> Seq<u32> {
        unpack(Self::layout(), self.word)
    }

    /// The register that holds the given values in its fields and zero in every
    /// other bit.
    pub open spec fn of_fields(values: Seq<u32>) -> Self {
        ShortConf { word: pack(Self::layout(), values) }
    }

    /// Every field lies within the word, and no two fields share a bit.
    pub proof fn lemma_layout_sound()
        ensures
            sound(Self::layout()),
    {
    }

    /// Field values that fit their widths come out of the register as they went
    /// in.
    pub proof fn lemma_fields_round_trip(values: Seq<u32>)
        requires
            fitting(Self::layout(), values),
        ensures
            Self::of_fields(values).fields() == values,
    {
        lemma_pack_unpack(Self::layout(), values);
    }

    /// The register as the chip holds it after power-on.
    pub open spec fn spec_new() -> Self {
        ShortConf { word: 0x1_0606 }
    }

    /// The register that holds `word`.
    pub open spec fn spec_from_word(word: u32) -> Self {
        ShortConf { word }
    }

    /// The word of the register.
    pub open spec fn spec_to_word(&self) -> u32 {
        self.word
    }

    /// Turning a register into its word and back gives the same register, and
    /// turning a word into a register and back gives the same word.
    pub proof fn lemma_word_round_trip(self, word: u32)
        ensures
            Self::from_word(self.to_word()) == self,
            Self::from_word(word).to_word() == word,
    {
    }

    /// The register as the chip holds it after power-on.
    #[verifier::when_used_as_spec(spec_new)]
    pub fn new() -> (register: Self)
        ensures
            register == Self::spec_new(),
            register.word == 0x1_0606,
    {
        ShortConf { word: 0x1_0606 }
    }

    /// The register that holds `word`. All 32 bits are kept, those outside every
    /// field too.
    #[verifier::when_used_as_spec(spec_from_word)]
    pub fn from_word(word: u32) -> (register: Self)
        ensures
            register == Self::spec_from_word(word),
    {
        ShortConf { word }
    }

    /// The register word.
    #[verifier::when_used_as_spec(spec_to_word)]
    pub fn to_word(&self) -> (word: u32)
        ensures
            word == self.word,
    {
        self.word
    }

    /// The register held by four bytes, least significant first.
    pub fn from_bytes(bytes: [u8; 4]) -> (register: Self)
        ensures
            register.word == le_value(bytes@),
            le_bytes(register.word) == bytes@,
    {
        ShortConf { word: from_le_bytes(bytes) }
    }

    /// The register word as four bytes, least significant first.
    pub fn into_bytes(self) -> (bytes: [u8; 4])
        ensures
            bytes@ == le_bytes(self.word),
            le_value(bytes@) == self.word,
    {
        to_le_bytes(self.word)
    }

    /// Bits 3 to 0: sensitivity of the short-to-supply detector; lower is more sensitive.
    pub fn s2vs_level(&self) -> (value: u8)
        ensures
            value == field(self.word, 0, 4),
            value == self.fields()[0],
            value <= 0xF,
    {
        proof {
            lemma_field_fits(self.word, 0, 4);
            lemma_mask_values();
        }
        get_field(self.word, 0, 4) as u8
    }

    /// Writes bits 3 to 0 from the lowest four bits of `value` and leaves all other bits as
    /// they are.
    pub fn set_s2vs_level(&mut self, value: u8)
        ensures
            final(self).word == with_field(old(self).word, 0, 4, value as u32),
            final(self).fields() == old(self).fields().update(
                0,
                value as u32 & 0xF,
            ),
            value <= 0xF ==> final(self).fields()[0] == value,
    {
        proof {
            lemma_mask_values();
            lemma_field_updated(Self::layout(), self.word, 0, value as u32);
            lemma_field_written(self.word, 0, 4, value as u32);
        }
        self.word = set_field(self.word, 0, 4, value as u32);
    }

    /// Bits 11 to 8: sensitivity of the short-to-ground detector; lower is more sensitive.
    pub fn s2g_level(&self) -> (value: u8)
        ensures
            value == field(self.word, 8, 4),
            value == self.fields()[1],
            value <= 0xF,
    {
        proof {
            lemma_field_fits(self.word, 8, 4);
            lemma_mask_values();
        }
        get_field(self.word, 8, 4) as u8
    }

    /// Writes bits 11 to 8 from the lowest four bits of `value` and leaves all other bits as
    /// they are.
    pub fn set_s2g_level(&mut self, value: u8)
        ensures
            final(self).word == with_field(old(self).word, 8, 4, value as u32),
            final(self).fields() == old(self).fields().update(
                1,
                value as u32 & 0xF,
            ),
            value <= 0xF ==> final(self).fields()[1] == value,
    {
        proof {
            lemma_mask_values();
            lemma_field_updated(Self::layout(), self.word, 1, value as u32);
            lemma_field_written(self.word, 8, 4, value as u32);
        }
        self.word = set_field(self.word, 8, 4, value as u32);
    }

    /// Bits 17 to 16: bandwidth of the spike filter in front of the detectors.
    pub fn short_filter(&self) -> (value: u8)
        ensures
            value == field(self.word, 16, 2),
            value == self.fields()[2],
            value <= 0x3,
    {
        proof {
            lemma_field_fits(self.word, 16, 2);
            lemma_mask_values();
        }
        get_field(self.word, 16, 2) as u8
    }

    /// Writes bits 17 to 16 from the lowest two bits of `value` and leaves all other bits as
    /// they are.
    pub fn set_short_filter(&mut self, value: u8)
        ensures
            final(self).word == with_field(old(self).word, 16, 2, value as u32),
            final(self).fields() == old(self).fields().update(
                2,
                value as u32 & 0x3,
            ),
            value <= 0x3 ==> final(self).fields()[2] == value,
    {
        proof {
            lemma_mask_values();
            lemma_field_updated(Self::layout(), self.word, 2, value as u32);
            lemma_field_written(self.word, 16, 2, value as u32);
        }
        self.word = set_field(self.word, 16, 2, value as u32);
    }

    /// Bit 18: use the longer detection delay.
    pub fn short_delay(&self) -> (flag: bool)
        ensures
            flag == (field(self.word, 18, 1) == 1),
            flag == (self.fields()[3] == 1),
    {
        get_flag(self.word, 18)
    }

    /// Writes bit 18 and leaves all other bits as they are.
    pub fn set_short_delay(&mut self, flag: bool)
        ensures
            final(self).word == with_field(old(self).word, 18, 1, bit(flag)),
            final(self).fields() == old(self).fields().update(3, bit(flag)),
    {
        proof {
            lemma_bit_values(flag);
            lemma_field_updated(Self::layout(), self.word, 3, bit(flag));
        }
        self.word = set_flag(self.word, 18, flag);
    }
}

/// Power-stage timing and strength.
#[derive(Clone, Copy, Debug, PartialEq, Eq, Structural)]
pub struct DrvConf {
    /// The register word; bit 0 is the lowest bit of the first field.
    pub word: u32,
}

impl DrvConf {
    /// Where each field lies: the lowest bit and the width of every field, in the
    /// order of the accessors below.
    pub open spec fn layout() -> Seq<(u32, u32)> {
        seq![
            (0u32, 5u32), (8u32, 4u32), (16u32, 2u32), (18u32, 2u32), (20u32, 2u32),
        ]
    }

    /// The values of the fields, in the order of the layout.
    pub open spec fn fields(self) -> Seq<u32> {
        unpack(Self::layout(), self.word)
    }

    /// The register that holds the given values in its fields and zero in every
    /// other bit.
    pub open spec fn of_fields(values: Seq<u32>) -> Self {
        DrvConf { word: pack(Self::layout(), values) }
    }

    /// Every field lies within the word, and no two fields share a bit.
    pub proof fn lemma_layout_sound()
        ensures
            sound(Self::layout()),
    {
    }

    /// Field values that fit their widths come out of the register as they went
    /// in.
    pub proof fn lemma_fields_round_trip(values: Seq<u32>)
        requires
            fitting(Self::layout(), values),
        ensures
            Self::of_fields(values).fields() == values,
    {
        lemma_pack_unpack(Self::layout(), values);
    }

    /// The register as the chip holds it after power-on.
    pub open spec fn spec_new() -> Self {
        DrvConf { word: 0x8_0400 }
    }

    /// The register that holds `word`.
    pub open spec fn spec_from_word(word: u32) -> Self {
        DrvConf { word }
    }

    /// The word of the register.
    pub open spec fn spec_to_word(&self) -> u32 {
        self.word
    }

    /// Turning a register into its word and back gives the same register, and
    /// turning a word into a register and back gives the same word.
    pub proof fn lemma_word_round_trip(self, word: u32)
        ensures
            Self::from_word(self.to_word()) == self,
            Self::from_word(word).to_word() == word,
    {
    }

    /// The register as the chip holds it after power-on.
    #[verifier::when_used_as_spec(spec_new)]
    pub fn new() -> (register: Self)
        ensures
            register == Self::spec_new(),
            register.word == 0x8_0400,
    {
        DrvConf { word: 0x8_0400 }
    }

    /// The register that holds `word`. All 32 bits are kept, those outside every
    /// field too.
    #[verifier::when_used_as_spec(spec_from_word)]
    pub fn from_word(word: u32) -> (register: Self)
        ensures
            register == Self::spec_from_word(word),
    {
        DrvConf { word }
    }

    /// The register word.
    #[verifier::when_used_as_spec(spec_to_word)]
    pub fn to_word(&self) -> (word: u32)
        ensures
            word == self.word,
    {
        self.word
    }

    /// The register held by four bytes, least significant first.
    pub fn from_bytes(bytes: [u8; 4]) -> (register: Self)
        ensures
            register.word == le_value(bytes@),
            le_bytes(register.word) == bytes@,
    {
        DrvConf { word: from_le_bytes(bytes) }
    }

    /// The register word as four bytes, least significant first.
    pub fn into_bytes(self) -> (bytes: [u8; 4])
        ensures
            bytes@ == le_bytes(self.word),
            le_value(bytes@) == self.word,
    {
        to_le_bytes(self.word)
    }

    /// Bits 4 to 0: break-before-make delay in steps of the analogue timer.
    pub fn bbm_time(&self) -> (value: u8)
        ensures
            value == field(self.word, 0, 5),
            value == self.fields()[0],
            value <= 0x1F,
    {
        proof {
            lemma_field_fits(self.word, 0, 5);
            lemma_mask_values();
        }
        get_field(self.word, 0, 5) as u8
    }

    /// Writes bits 4 to 0 from the lowest five bits of `value` and leaves all other bits as
    /// they are.
    pub fn set_bbm_time(&mut self, value: u8)
        ensures
            final(self).word == with_field(old(self).word, 0, 5, value as u32),
            final(self).fields() == old(self).fields().update(
                0,
                value as u32 & 0x1F,
            ),
            value <= 0x1F ==> final(self).fields()[0] == value,
    {
        proof {
            lemma_mask_values();
            lemma_field_updated(Self::layout(), self.word, 0, value as u32);
            lemma_field_written(self.word, 0, 5, value as u32);
        }
        self.word = set_field(self.word, 0, 5, value as u32);
    }

    /// Bits 11 to 8: break-before-make delay in clock cycles.
    pub fn bbm_clks(&self) -> (value: u8)
        ensures
            value == field(self.word, 8, 4),
            value == self.fields()[1],
            value <= 0xF,
    {
        proof {
            lemma_field_fits(self.word, 8, 4);
            lemma_mask_values();
        }
        get_field(self.word, 8, 4) as u8
    }

    /// Writes bits 11 to 8 from the lowest four bits of `value` and leaves all other bits as
    /// they are.
    pub fn set_bbm_clks(&mut self, value: u8)
        ensures
            final(self).word == with_field(old(self).word, 8, 4, value as u32),
            final(self).fields() == old(self).fields().update(
                1,
                value as u32 & 0xF,
            ),
            value <= 0xF ==> final(self).fields()[1] == value,
    {
        proof {
            lemma_mask_values();
            lemma_field_updated(Self::layout(), self.word, 1, value as u32);
            lemma_field_written(self.word, 8, 4, value as u32);
        }
        self.word = set_field(self.word, 8, 4, value as u32);
    }

    /// Bits 17 to 16: overtemperature shutdown level.
    pub fn ot_select(&self) -> (value: u8)
        ensures
            value == field(self.word, 16, 2),
            value == self.fields()[2],
            value <= 0x3,
    {
        proof {
            lemma_field_fits(self.word, 16, 2);
            lemma_mask_values();
        }
        get_field(self.word, 16, 2) as u8
    }

    /// Writes bits 17 to 16 from the lowest two bits of `value` and leaves all other bits as
    /// they are.
    pub fn set_ot_select(&mut self, value: u8)
        ensures
            final(self).word == with_field(old(self).word, 16, 2, value as u32),
            final(self).fields() == old(self).fields().update(
                2,
                value as u32 & 0x3,
            ),
            value <= 0x3 ==> final(self).fields()[2] == value,
    {
        proof {
            lemma_mask_values();
            lemma_field_updated(Self::layout(), self.word, 2, value as u32);
            lemma_field_written(self.word, 16, 2, value as u32);
        }
        self.word = set_field(self.word, 16, 2, value as u32);
    }

    /// Bits 19 to 18: gate driver current.
    pub fn drv_strength(&self) -> (value: u8)
        ensures
            value == field(self.word, 18, 2),
            value == self.fields()[3],
            value <= 0x3,
    {
        proof {
            lemma_field_fits(self.word, 18, 2);
            lemma_mask_values();
        }
        get_field(self.word, 18, 2) as u8
    }

    /// Writes bits 19 to 18 from the lowest two bits of `value` and leaves all other bits as
    /// they are.
    pub fn set_drv_strength(&mut self, value: u8)
        ensures
            final(self).word == with_field(old(self).word, 18, 2, value as u32),
            final(self).fields() == old(self).fields().update(
                3,
                value as u32 & 0x3,
            ),
            value <= 0x3 ==> final(self).fields()[3] == value,
    {
        proof {
            lemma_mask_values();
            lemma_field_updated(Self::layout(), self.word, 3, value as u32);
            lemma_field_written(self.word, 18, 2, value as u32);
        }
        self.word = set_field(self.word, 18, 2, value as u32);
    }

    /// Bits 21 to 20: time constant of the sense-amplifier filter.
    pub fn filt_isense(&self) -> (value: u8)
        ensures
            value == field(self.word, 20, 2),
            value == self.fields()[4],
            value <= 0x3,
    {
        proof {
            lemma_field_fits(self.word, 20, 2);
            lemma_mask_values();
        }
        get_field(self.word, 20, 2) as u8
    }

    /// Writes bits 21 to 20 from the lowest two bits of `value` and leaves all other bits as
    /// they are.
    pub fn set_filt_isense(&mut self, value: u8)
        ensures
            final(self).word == with_field(old(self).word, 20, 2, value as u32),
            final(self).fields() == old(self).fields().update(
                4,
                value as u32 & 0x3,
            ),
            value <= 0x3 ==> final(self).fields()[4] == value,
    {
        proof {
            lemma_mask_values();
            lemma_field_updated(Self::layout(), self.word, 4, value as u32);
            lemma_field_written(self.word, 20, 2, value as u32);
        }
        self.word = set_field(self.word, 20, 2, value as u32);
    }
}

/// Motor current while standing and while running.
#[derive(Clone, Copy, Debug, PartialEq, Eq, Structural)]
pub struct IHoldIRun {
    /// The register word; bit 0 is the lowest bit of the first field.
    pub word: u32,
}

impl IHoldIRun {
    /// Where each field lies: the lowest bit and the width of every field, in the
    /// order of the accessors below.
    pub open spec fn layout() -> Seq<(u32, u32)> {
        seq![
            (0u32, 5u32), (8u32, 5u32), (16u32, 4u32),
        ]
    }

    /// The values of the fields, in the order of the layout.
    pub open spec fn fields(self) -> Seq<u32> {
        unpack(Self::layout(), self.word)
    }

    /// The register that holds the given values in its fields and zero in every
    /// other bit.
    pub open spec fn of_fields(values: Seq<u32>) -> Self {
        IHoldIRun { word: pack(Self::layout(), values) }
    }

    /// Every field lies within the word, and no two fields share a bit.
    pub proof fn lemma_layout_sound()
        ensures
            sound(Self::layout()),
    {
    }

    /// Field values that fit their widths come out of the register as they went
    /// in.
    pub proof fn lemma_fields_round_trip(values: Seq<u32>)
        requires
            fitting(Self::layout(), values),
        ensures
            Self::of_fields(values).fields() == values,
    {
        lemma_pack_unpack(Self::layout(), values);
    }

    /// The register as the chip holds it after power-on: every bit clear.
    pub open spec fn spec_new() -> Self {
        IHoldIRun { word: 0 }
    }

    /// The register that holds `word`.
    pub open spec fn spec_from_word(word: u32) -> Self {
        IHoldIRun { word }
    }

    /// The word of the register.
    pub open spec fn spec_to_word(&self) -> u32 {
        self.word
    }

    /// Turning a register into its word and back gives the same register, and
    /// turning a word into a register and back gives the same word.
    pub proof fn lemma_word_round_trip(self, word: u32)
        ensures
            Self::from_word(self.to_word()) == self,
            Self::from_word(word).to_word() == word,
    {
    }

    /// The register as the chip holds it after power-on: every bit clear.
    #[verifier::when_used_as_spec(spec_new)]
    pub fn new() -> (register: Self)
        ensures
            register == Self::spec_new(),
            register.word == 0,
    {
        IHoldIRun { word: 0 }
    }

    /// The register that holds `word`. All 32 bits are kept, those outside every
    /// field too.
    #[verifier::when_used_as_spec(spec_from_word)]
    pub fn from_word(word: u32) -> (register: Self)
        ensures
            register == Self::spec_from_word(word),
    {
        IHoldIRun { word }
    }

    /// The register word.
    #[verifier::when_used_as_spec(spec_to_word)]
    pub fn to_word(&self) -> (word: u32)
        ensures
            word == self.word,
    {
        self.word
    }

    /// The register held by four bytes, least significant first.
    pub fn from_bytes(bytes: [u8; 4]) -> (register: Self)
        ensures
            register.word == le_value(bytes@),
            le_bytes(register.word) == bytes@,
    {
        IHoldIRun { word: from_le_bytes(bytes) }
    }

    /// The register word as four bytes, least significant first.
    pub fn into_bytes(self) -> (bytes: [u8; 4])
        ensures
            bytes@ == le_bytes(self.word),
            le_value(bytes@) == self.word,
    {
        to_le_bytes(self.word)
    }

    /// Bits 4 to 0: standstill current in thirty-seconds of full scale.
    pub fn ihold(&self) -> (value: u8)
        ensures
            value == field(self.word, 0, 5),
            value == self.fields()[0],
            value <= 0x1F,
    {
        proof {
            lemma_field_fits(self.word, 0, 5);
            lemma_mask_values();
        }
        get_field(self.word, 0, 5) as u8
    }

    /// Writes bits 4 to 0 from the lowest five bits of `value` and leaves all other bits as
    /// they are.
    pub fn set_ihold(&mut self, value: u8)
        ensures
            final(self).word == with_field(old(self).word, 0, 5, value as u32),
            final(self).fields() == old(self).fields().update(
                0,
                value as u32 & 0x1F,
            ),
            value <= 0x1F ==> final(self).fields()[0] == value,
    {
        proof {
            lemma_mask_values();
            lemma_field_updated(Self::layout(), self.word, 0, value as u32);
            lemma_field_written(self.word, 0, 5, value as u32);
        }
        self.word = set_field(self.word, 0, 5, value as u32);
    }

    /// Bits 12 to 8: run current in thirty-seconds of full scale.
    pub fn irun(&self) -> (value: u8)
        ensures
            value == field(self.word, 8, 5),
            value == self.fields()[1],
            value <= 0x1F,
    {
        proof {
            lemma_field_fits(self.word, 8, 5);
            lemma_mask_values();
        }
        get_field(self.word, 8, 5) as u8
    }

    /// Writes bits 12 to 8 from the lowest five bits of `value` and leaves all other bits as
    /// they are.
    pub fn set_irun(&mut self, value: u8)
        ensures
            final(self).word == with_field(old(self).word, 8, 5, value as u32),
            final(self).fields() == old(self).fields().update(
                1,
                value as u32 & 0x1F,
            ),
            value <= 0x1F ==> final(self).fields()[1] == value,
    {
        proof {
            lemma_mask_values();
            lemma_field_updated(Self::layout(), self.word, 1, value as u32);
            lemma_field_written(self.word, 8, 5, value as u32);
        }
        self.word = set_field(self.word, 8, 5, value as u32);
    }

    /// Bits 19 to 16: number of clock periods per current step when powering down.
    pub fn ihold_delay(&self) -> (value: u8)
        ensures
            value == field(self.word, 16, 4),
            value == self.fields()[2],
            value <= 0xF,
    {
        proof {
            lemma_field_fits(self.word, 16, 4);
            lemma_mask_values();
        }
        get_field(self.word, 16, 4) as u8
    }

    /// Writes bits 19 to 16 from the lowest four bits of `value` and leaves all other bits as
    /// they are.
    pub fn set_ihold_delay(&mut self, value: u8)
        ensures
            final(self).word == with_field(old(self).word, 16, 4, value as u32),
            final(self).fields() == old(self).fields().update(
                2,
                value as u32 & 0xF,
            ),
            value <= 0xF ==> final(self).fields()[2] == value,
    {
        proof {
            lemma_mask_values();
            lemma_field_updated(Self::layout(), self.word, 2, value as u32);
            lemma_field_written(self.word, 16, 4, value as u32);
        }
        self.word = set_field(self.word, 16, 4, value as u32);
    }
}

} // verus!
