//! VKey state parser for the section `Local\VKeySharedState`.
//! Pure bytes, no FFI. The layout is frozen by a static assertion in VKey
//! (SharedState.h, structVersion 4): magic at 0, version at 4, flags at 16, all
//! little-endian `u32`; bit 0 of the flags is "Vietnamese on".
use vstd::prelude::*;
use crate::text::{decimal, hex_fixed_upper, le_u32, owned, push_decimal, push_hex_fixed_upper, push_str, read_u32_le};

verus! {

/// "NKEY" read little-endian.
pub const VKEY_MAGIC: u32 = 0x5945_4B4E;

/// Newest structure version this parser understands.
pub const MAX_STRUCT_VERSION: u32 = 4;

/// Offset of the flags word.
pub const FLAGS_OFFSET: usize = 16;

/// Flag bit: Vietnamese input on.
pub const FLAG_VIETNAMESE: u32 = 0x0001;

/// Why a section could not be read as VKey state.
#[derive(Debug, PartialEq, Eq, Structural)]
pub enum ShmError {
    /// Fewer than the 20 bytes that the flags word needs.
    TooShort(usize),
    /// The first word is not VKey's magic.
    BadMagic(u32),
    /// A structure version newer than [`MAX_STRUCT_VERSION`].
    UnsupportedVersion(u32),
}

/// What [`parse_vietnamese_flag`] answers for `b`.
pub open spec fn spec_parse_vietnamese_flag(b: Seq<u8>) -> Result<bool, ShmError> {
    if b.len() < FLAGS_OFFSET + 4 {
        Err(ShmError::TooShort(b.len() as usize))
    } else if le_u32(b, 0) != VKEY_MAGIC {
        Err(ShmError::BadMagic(le_u32(b, 0) as u32))
    } else if le_u32(b, 4) > MAX_STRUCT_VERSION {
        Err(ShmError::UnsupportedVersion(le_u32(b, 4) as u32))
    } else {
        Ok(le_u32(b, FLAGS_OFFSET as int) % 2 == 1)
    }
}

/// Reads the Vietnamese bit from a VKey section: the length is checked first,
/// then the magic, then the version, and only then the flags.
pub fn parse_vietnamese_flag(bytes: &[u8]) -> (r: Result<bool, ShmError>)
    ensures
        r == spec_parse_vietnamese_flag(bytes@),
{
    if bytes.len() < FLAGS_OFFSET + 4 {
        return Err(ShmError::TooShort(bytes.len()));
    }
    let magic = read_u32_le(bytes, 0);
    if magic != VKEY_MAGIC {
        return Err(ShmError::BadMagic(magic));
    }
    let version = read_u32_le(bytes, 4);
    if version > MAX_STRUCT_VERSION {
        return Err(ShmError::UnsupportedVersion(version));
    }
    let flags = read_u32_le(bytes, FLAGS_OFFSET);
    let on = flags & FLAG_VIETNAMESE != 0;
    assert((flags & 1u32 != 0u32) == (flags % 2 == 1)) by (bit_vector);
    Ok(on)
}

impl ShmError {
    /// The message shown for this error.
    pub open spec fn spec_message(self) -> Seq<char> {
        match self {
            ShmError::TooShort(n) => "shared memory quá ngắn ("@ + decimal(n as nat) + " byte)"@,
            ShmError::BadMagic(m) => "magic không khớp (0x"@ + hex_fixed_upper(m as nat, 8)
                + ") — không phải VKey?"@,
            ShmError::UnsupportedVersion(v) => "structVersion "@ + decimal(v as nat)
                + " mới hơn mức tongue hiểu ("@ + decimal(MAX_STRUCT_VERSION as nat)
                + ") — VKey vừa nâng cấp?"@,
        }
    }

    /// The message shown for this error (what `Display` printed).
    pub fn message(&self) -> (s: String)
        ensures
            s@ == self.spec_message(),
    {
        match self {
            ShmError::TooShort(n) => {
                let mut s = owned("shared memory quá ngắn (");
                push_decimal(&mut s, *n as u64);
                push_str(&mut s, " byte)");
                s
            },
            ShmError::BadMagic(m) => {
                let mut s = owned("magic không khớp (0x");
                push_hex_fixed_upper(&mut s, *m as u64, 8);
                push_str(&mut s, ") — không phải VKey?");
                s
            },
            ShmError::UnsupportedVersion(v) => {
                let mut s = owned("structVersion ");
                push_decimal(&mut s, *v as u64);
                push_str(&mut s, " mới hơn mức tongue hiểu (");
                push_decimal(&mut s, MAX_STRUCT_VERSION as u64);
                push_str(&mut s, ") — VKey vừa nâng cấp?");
                s
            },
        }
    }
}

} // verus!
