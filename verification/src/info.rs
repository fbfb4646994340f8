//! The flash geometry that the device reports in its Info response.

use crate::bootloader::Bootloader;
use crate::status::{dumb_from, reason_of, BootloaderReason};
use vstd::arithmetic::div_mod::lemma_mod_multiples_basic;
use vstd::arithmetic::power2::{lemma2_to64, lemma_pow2_strictly_increases, pow2};
use vstd::bits::lemma_u32_shl_is_mul;
use vstd::prelude::*;

verus! {

/// The exponent of the flash size: a 16-bit number, low byte first, in
/// bytes 2 and 3 of the Info response.
pub open spec fn flash_exponent(frame: Seq<u8>) -> nat {
    (frame[3] * 256 + frame[2]) as nat
}

/// The application offset in units of the flash size: a 16-bit number, low
/// byte first, in bytes 6 and 7 of the Info response.
pub open spec fn offset_units(frame: Seq<u8>) -> nat {
    (frame[7] * 256 + frame[6]) as nat
}

/// The flash size that an Info response reports: two to the power of its
/// exponent.
pub open spec fn flash_size_of(frame: Seq<u8>) -> nat {
    pow2(flash_exponent(frame))
}

/// The application offset that an Info response reports, in bytes.
pub open spec fn app_offset_of(frame: Seq<u8>) -> nat {
    offset_units(frame) * flash_size_of(frame)
}

/// Whether the geometry of an Info response can be held: both the flash
/// size and the application offset fit in 32 bits.
pub open spec fn info_decodable(frame: Seq<u8>) -> bool {
    flash_size_of(frame) <= u32::MAX && app_offset_of(frame) <= u32::MAX
}

/// Whether a number is a power of two.
pub open spec fn is_power_of_two(n: nat) -> bool {
    exists|e: nat| n == pow2(e)
}

/// What a `BootloaderInfo` holds.
pub struct InfoView {
    pub response_code: nat,
    pub flash_size: nat,
    pub bootloader_version: nat,
    pub bootloader_reason: BootloaderReason,
    pub app_offset: nat,
}

/// What an Info response reports.
pub open spec fn info_view_of(frame: Seq<u8>) -> InfoView {
    InfoView {
        response_code: frame[1] as nat,
        flash_size: flash_size_of(frame),
        bootloader_version: frame[5] as nat,
        bootloader_reason: reason_of(frame[4]),
        app_offset: app_offset_of(frame),
    }
}

/// The decoded Info response.  The flash size is always a power of two,
/// and the application starts at a multiple of it.
#[derive(Clone, Copy, Debug, PartialEq, Eq)]
pub struct BootloaderInfo {
    response_code: u32,
    flash_size: u32,
    bootloader_version: u32,
    bootloader_reason: BootloaderReason,
    app_offset: u32,
}

impl View for BootloaderInfo {
    type V = InfoView;

    closed spec fn view(&self) -> InfoView {
        InfoView {
            response_code: self.response_code as nat,
            flash_size: self.flash_size as nat,
            bootloader_version: self.bootloader_version as nat,
            bootloader_reason: self.bootloader_reason,
            app_offset: self.app_offset as nat,
        }
    }
}

impl BootloaderInfo {
    #[verifier::type_invariant]
    spec fn geometry_holds(self) -> bool {
        &&& is_power_of_two(self.flash_size as nat)
        &&& self.app_offset as nat % self.flash_size as nat == 0
    }

    /// The status byte of the Info response.
    pub fn response_code(&self) -> (code: u32)
        ensures
            code == self@.response_code,
    {
        self.response_code
    }

    /// The size of the flash in bytes.
    pub fn flash_size(&self) -> (size: u32)
        ensures
            size == self@.flash_size,
            is_power_of_two(size as nat),
    {
        proof {
            use_type_invariant(self);
        }
        self.flash_size
    }

    /// The version of the bootloader.
    pub fn bootloader_version(&self) -> (version: u32)
        ensures
            version == self@.bootloader_version,
    {
        self.bootloader_version
    }

    /// Why the device is in its bootloader.
    pub fn bootloader_reason(&self) -> (reason: BootloaderReason)
        ensures
            reason == self@.bootloader_reason,
    {
        self.bootloader_reason
    }

    /// The byte offset at which the application starts in flash.
    pub fn app_offset(&self) -> (offset: u32)
        ensures
            offset == self@.app_offset,
            offset as nat % self@.flash_size == 0,
    {
        proof {
            use_type_invariant(self);
        }
        self.app_offset
    }
}

impl Bootloader {
    /// Decodes an Info response.  There is no result where the reported
    /// flash size or application offset does not fit in 32 bits.
    pub fn decode_bootloader_info(data: [u8; 8]) -> (info: Option<BootloaderInfo>)
        ensures
            info_decodable(data@) ==> info.is_some() && info.unwrap()@ == info_view_of(data@),
            !info_decodable(data@) ==> info.is_none(),
    {
        let exponent_low = data[2] as u32;
        let exponent_high = data[3] as u32;
        let exponent: u32 = (exponent_high << 8) | exponent_low;
        assert(exponent == exponent_high * 256 + exponent_low) by (bit_vector)
            requires
                exponent == (exponent_high << 8) | exponent_low,
                exponent_low < 256,
                exponent_high < 256,
        ;
        let units_low = data[6] as u32;
        let units_high = data[7] as u32;
        let units: u32 = (units_high << 8) | units_low;
        assert(units == units_high * 256 + units_low) by (bit_vector)
            requires
                units == (units_high << 8) | units_low,
                units_low < 256,
                units_high < 256,
        ;
        proof {
            lemma_flash_size_fits(data@);
        }
        if exponent >= 32 {
            return None;
        }
        proof {
            lemma_u32_shl_is_mul(1, exponent);
        }
        let flash_size: u32 = 1u32 << exponent;
        match units.checked_mul(flash_size) {
            Some(app_offset) => {
                proof {
                    lemma_mod_multiples_basic(units as int, flash_size as int);
                }
                Some(
                    BootloaderInfo {
                        response_code: data[1] as u32,
                        flash_size,
                        bootloader_version: data[5] as u32,
                        bootloader_reason: dumb_from(data[4]),
                        app_offset,
                    },
                )
            },
            None => None,
        }
    }
}

/// The flash size fits in 32 bits exactly when its exponent is below 32.
pub proof fn lemma_flash_size_fits(frame: Seq<u8>)
    ensures
        flash_size_of(frame) <= u32::MAX <==> flash_exponent(frame) < 32,
        flash_size_of(frame) > 0,
{
    let e = flash_exponent(frame);
    lemma2_to64();
    vstd::arithmetic::power2::lemma_pow2_pos(e);
    if e < 32 {
        vstd::bits::lemma_u32_pow2_no_overflow(e);
    } else if e > 32 {
        lemma_pow2_strictly_increases(32, e);
    }
}

/// The flash size that an Info response reports is a power of two,
/// whatever its bytes, and the application offset is a multiple of it.
pub proof fn lemma_geometry_of_info(frame: Seq<u8>)
    ensures
        is_power_of_two(info_view_of(frame).flash_size),
        info_view_of(frame).app_offset % info_view_of(frame).flash_size == 0,
        info_view_of(frame).app_offset == offset_units(frame) * info_view_of(frame).flash_size,
{
    lemma_flash_size_fits(frame);
    lemma_mod_multiples_basic(offset_units(frame) as int, flash_size_of(frame) as int);
}

} // verus!
