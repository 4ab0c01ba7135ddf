//! Colours as the display stores them: three channels of five bits each,
//! packed into sixteen bits with red lowest.

use vstd::prelude::*;

verus! {

/// The five low bits of a channel value: what a channel can hold.
pub open spec fn channel(value: u16) -> u16 {
    value & 0x1f
}

/// The packed word for three channel values, each cut to five bits.
pub open spec fn packed(r: u16, g: u16, b: u16) -> u16 {
    channel(r) | (channel(g) << 5) | (channel(b) << 10)
}

/// A colour of fifteen bits: red in bits 0 to 4, green in bits 5 to 9,
/// blue in bits 10 to 14. Bit 15 is not used.
#[derive(Clone, Copy, Debug, PartialEq, Eq, Structural)]
pub struct RGB5(pub u16);

impl RGB5 {
    /// The red channel.
    pub fn get_r(&self) -> (r: u16)
        ensures
            r == channel(self.0),
            r < 32,
    {
        let word = self.0;
        let r = word & 0x1f;
        assert(r < 32) by (bit_vector)
            requires
                r == word & 0x1f,
        ;
        r
    }

    /// The green channel.
    pub fn get_g(&self) -> (g: u16)
        ensures
            g == channel(self.0 >> 5),
            g < 32,
    {
        let word = self.0;
        let g = (word >> 5) & 0x1f;
        assert(g < 32) by (bit_vector)
            requires
                g == (word >> 5) & 0x1f,
        ;
        g
    }

    /// The blue channel.
    pub fn get_b(&self) -> (b: u16)
        ensures
            b == channel(self.0 >> 10),
            b < 32,
    {
        let word = self.0;
        let b = (word >> 10) & 0x1f;
        assert(b < 32) by (bit_vector)
            requires
                b == (word >> 10) & 0x1f,
        ;
        b
    }

    /// Stores the five low bits of `value` as the red channel.
    pub fn set_r(&mut self, value: u16)
        ensures
            final(self).0 == (old(self).0 & !0x1fu16) | channel(value),
    {
        self.0 = (self.0 & !0x1fu16) | (value & 0x1f);
    }

    /// Stores the five low bits of `value` as the green channel.
    pub fn set_g(&mut self, value: u16)
        ensures
            final(self).0 == (old(self).0 & !0x3e0u16) | (channel(value) << 5),
    {
        self.0 = (self.0 & !0x3e0u16) | ((value & 0x1f) << 5);
    }

    /// Stores the five low bits of `value` as the blue channel.
    pub fn set_b(&mut self, value: u16)
        ensures
            final(self).0 == (old(self).0 & !0x7c00u16) | (channel(value) << 10),
    {
        self.0 = (self.0 & !0x7c00u16) | ((value & 0x1f) << 10);
    }

    /// The colour with the given channels, each cut to five bits.
    pub fn from_rgb(r: u16, g: u16, b: u16) -> (rgb: RGB5)
        ensures
            rgb.0 == packed(r, g, b),
            channel(rgb.0) == channel(r),
            channel(rgb.0 >> 5) == channel(g),
            channel(rgb.0 >> 10) == channel(b),
            rgb.0 < 0x8000,
    {
        let mut rgb = RGB5(0);
        rgb.set_r(r);
        rgb.set_g(g);
        rgb.set_b(b);
        proof {
            lemma_packed_channels(r, g, b);
            let word = rgb.0;
            assert(word == (r & 0x1f) | ((g & 0x1f) << 5) | ((b & 0x1f) << 10)) by (bit_vector)
                requires
                    word == (((((0u16 & !0x1fu16) | (r & 0x1f)) & !0x3e0u16) | ((g & 0x1f) << 5))
                        & !0x7c00u16) | ((b & 0x1f) << 10),
            ;
        }
        rgb
    }
}

/// Each channel of a packed colour is the channel value that went in, cut
/// to five bits, and the unused bit is clear.
pub proof fn lemma_packed_channels(r: u16, g: u16, b: u16)
    ensures
        channel(packed(r, g, b)) == channel(r),
        channel(packed(r, g, b) >> 5) == channel(g),
        channel(packed(r, g, b) >> 10) == channel(b),
        packed(r, g, b) < 0x8000,
{
    let word = packed(r, g, b);
    assert(word & 0x1f == r & 0x1f && (word >> 5) & 0x1f == g & 0x1f && (word >> 10) & 0x1f == b
        & 0x1f && word < 0x8000) by (bit_vector)
        requires
            word == (r & 0x1f) | ((g & 0x1f) << 5) | ((b & 0x1f) << 10),
    ;
}

} // verus!
