//! The identifiers of the decoding routines that a charset label can
//! resolve to.

use vstd::prelude::*;

verus! {

/// Identifies one of the supported decoding routines.
///
/// Many aliases map to the same identifier. The identifier is an opaque
/// handle: the routines themselves (byte-to-text transformation per encoding
/// family) live outside this crate, behind a uniform decoding interface.
#[derive(Clone, Copy, Debug, PartialEq, Eq, Structural)]
pub enum Decoder {
    Big5,
    Cp1250,
    Cp1251,
    Cp1252,
    Cp1253,
    Cp1254,
    Cp1255,
    Cp1256,
    Cp1257,
    Cp1258,
    EucJp,
    EucKr,
    Gb18030,
    Gbk,
    Ibm850,
    Ibm866,
    Iso2022Jp,
    Iso8859_1,
    Iso8859_2,
    Iso8859_3,
    Iso8859_4,
    Iso8859_5,
    Iso8859_6,
    Iso8859_7,
    Iso8859_8,
    Iso8859_9,
    Iso8859_10,
    Iso8859_13,
    Iso8859_14,
    Iso8859_15,
    Iso8859_16,
    Koi8R,
    Koi8U,
    Macintosh,
    ShiftJis,
    Tis620,
    Utf16,
    Utf16Be,
    Utf16Le,
    Utf7,
    Windows874,
}

} // verus!
