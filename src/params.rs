//! The noise parameter block that the shader reads from a uniform buffer, and
//! its assembly from the control panel's settings.
//!
//! Floating-point values are carried as their IEEE-754 single-precision bit
//! patterns: this library only places them in the block and never computes
//! with them.

use vstd::arithmetic::div_mod::lemma_fundamental_div_mod_converse;
use vstd::prelude::*;

verus! {

/// Bit pattern of the single-precision value `1.0`, the alpha of both colors.
pub const ONE_BITS: u32 = 0x3f80_0000;

/// Number of 32-bit words in the parameter block.
pub const PARAMS_WORDS: usize = 16;

/// Size in bytes of the parameter block on the GPU.
pub const PARAMS_BYTES: usize = 64;

/// The noise settings of the control panel.
#[derive(Clone, Copy, Debug)]
pub struct NoiseSetting {
    /// Which noise the shader evaluates; must be set before an update.
    pub simu_ty: Option<i32>,
    pub back_color: [u32; 3],
    pub front_color: [u32; 3],
    pub noise_scale: u32,
    pub octave: i32,
    pub lacunarity: u32,
    pub gain: u32,
}

/// The parameter block, in the field order the shader decodes: two RGBA colors,
/// scale, octave count, lacunarity, gain, noise type and three words of padding.
#[derive(Clone, Copy, Debug)]
pub struct TexGeneratorParams {
    pub bg_color: [u32; 4],
    pub front_color: [u32; 4],
    pub noise_scale: u32,
    pub octave: i32,
    pub lacunarity: u32,
    pub gain: u32,
    pub ty: i32,
    pub padding: [i32; 3],
}

impl TexGeneratorParams {
    /// The block as the sixteen 32-bit words the shader reads, in order.
    pub open spec fn words(self) -> Seq<u32> {
        seq![
            self.bg_color[0], self.bg_color[1], self.bg_color[2], self.bg_color[3],
            self.front_color[0], self.front_color[1], self.front_color[2], self.front_color[3],
            self.noise_scale, self.octave as u32, self.lacunarity, self.gain,
            self.ty as u32, self.padding[0] as u32, self.padding[1] as u32, self.padding[2] as u32,
        ]
    }

    /// Every word of the block is zero.
    pub open spec fn is_zeroed(self) -> bool {
        self.words() == Seq::new(PARAMS_WORDS as nat, |i: int| 0u32)
    }

    /// The block holds `s` with an alpha of one appended to both colors, the
    /// noise type of `s`, and zero padding.
    pub open spec fn assembled_from(self, s: NoiseSetting) -> bool {
        &&& s.simu_ty is Some
        &&& self.bg_color@ == seq![s.back_color[0], s.back_color[1], s.back_color[2], ONE_BITS]
        &&& self.front_color@ == seq![
            s.front_color[0],
            s.front_color[1],
            s.front_color[2],
            ONE_BITS,
        ]
        &&& self.noise_scale == s.noise_scale
        &&& self.octave == s.octave
        &&& self.lacunarity == s.lacunarity
        &&& self.gain == s.gain
        &&& self.ty == s.simu_ty->Some_0
        &&& self.padding@ == seq![0i32, 0i32, 0i32]
    }

    /// The block with every field zero.
    pub fn zeroed() -> (r: TexGeneratorParams)
        ensures
            r.is_zeroed(),
    {
        let r = TexGeneratorParams {
            bg_color: [0, 0, 0, 0],
            front_color: [0, 0, 0, 0],
            noise_scale: 0,
            octave: 0,
            lacunarity: 0,
            gain: 0,
            ty: 0,
            padding: [0, 0, 0],
        };
        assert(r.words() =~= Seq::new(PARAMS_WORDS as nat, |i: int| 0u32));
        r
    }

    /// Assembles the block from the settings, appending an alpha of one to
    /// both colors.
    pub fn from_setting(setting: &NoiseSetting) -> (r: TexGeneratorParams)
        requires
            setting.simu_ty is Some,
        ensures
            r.assembled_from(*setting),
    {
        let ty = match setting.simu_ty {
            Some(t) => t,
            None => 0,
        };
        let back = setting.back_color;
        let front = setting.front_color;
        let r = TexGeneratorParams {
            bg_color: [back[0], back[1], back[2], ONE_BITS],
            front_color: [front[0], front[1], front[2], ONE_BITS],
            noise_scale: setting.noise_scale,
            octave: setting.octave,
            lacunarity: setting.lacunarity,
            gain: setting.gain,
            ty,
            padding: [0, 0, 0],
        };
        assert(r.bg_color@ =~= seq![back[0], back[1], back[2], ONE_BITS]);
        assert(r.front_color@ =~= seq![front[0], front[1], front[2], ONE_BITS]);
        assert(r.padding@ =~= seq![0i32, 0i32, 0i32]);
        r
    }

    /// The block's bytes as the uniform buffer holds them: each word in
    /// little-endian order, words in field order.
    pub fn to_bytes(&self) -> (r: Vec<u8>)
        ensures
            r@ == le_bytes(self.words()),
            r@.len() == PARAMS_BYTES,
    {
        let words: [u32; 16] = [
            self.bg_color[0],
            self.bg_color[1],
            self.bg_color[2],
            self.bg_color[3],
            self.front_color[0],
            self.front_color[1],
            self.front_color[2],
            self.front_color[3],
            self.noise_scale,
            self.octave as u32,
            self.lacunarity,
            self.gain,
            self.ty as u32,
            self.padding[0] as u32,
            self.padding[1] as u32,
            self.padding[2] as u32,
        ];
        assert(words@ =~= self.words());
        let mut bytes: Vec<u8> = Vec::with_capacity(PARAMS_BYTES);
        let mut i: usize = 0;
        while i < PARAMS_WORDS
            invariant
                words@ == self.words(),
                i <= PARAMS_WORDS,
                bytes@.len() == 4 * i,
                forall|k: int| 0 <= k < 4 * i ==> #[trigger] bytes@[k] == le_bytes(words@)[k],
            decreases PARAMS_WORDS - i,
        {
            let w = words[i];
            proof {
                lemma_fundamental_div_mod_converse(4 * i + 0, 4, i as int, 0);
                lemma_fundamental_div_mod_converse(4 * i + 1, 4, i as int, 1);
                lemma_fundamental_div_mod_converse(4 * i + 2, 4, i as int, 2);
                lemma_fundamental_div_mod_converse(4 * i + 3, 4, i as int, 3);
            }
            bytes.push((w % 256) as u8);
            bytes.push((w / 256 % 256) as u8);
            bytes.push((w / 65536 % 256) as u8);
            bytes.push((w / 16777216) as u8);
            i = i + 1;
        }
        assert(bytes@ =~= le_bytes(self.words()));
        bytes
    }
}

/// Byte `k` (0 being the least significant) of the word `w`.
pub open spec fn word_byte(w: u32, k: int) -> u8 {
    if k == 0 {
        (w % 256) as u8
    } else if k == 1 {
        (w / 256 % 256) as u8
    } else if k == 2 {
        (w / 65536 % 256) as u8
    } else {
        (w / 16777216) as u8
    }
}

/// The words laid out one after another, each in little-endian byte order.
pub open spec fn le_bytes(words: Seq<u32>) -> Seq<u8> {
    Seq::new(4 * words.len(), |k: int| word_byte(words[k / 4], k % 4))
}

} // verus!
