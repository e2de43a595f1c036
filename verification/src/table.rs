//! The alias table: exact-match lookup of a canonical key against every
//! supported charset alias.
//!
//! Entries are grouped by key length, so that a lookup compares the key
//! only against the aliases of its own length. Each comparison is byte
//! for byte; the byte values spell the alias named inside the branch.

use vstd::prelude::*;

use crate::decoder::Decoder;

verus! {

/// Whether `key` spells the longest alias in the table,
/// `extended_unix_code_packed_format_for_japanese`.
pub open spec fn spells_longest_alias(key: Seq<u8>) -> bool {
    key.len() == 45 && key[0] == 101 && key[1] == 120 && key[2] == 116 && key[3] == 101
        && key[4] == 110 && key[5] == 100 && key[6] == 101 && key[7] == 100 && key[8] == 95
        && key[9] == 117 && key[10] == 110 && key[11] == 105 && key[12] == 120 && key[13] == 95
        && key[14] == 99 && key[15] == 111 && key[16] == 100 && key[17] == 101 && key[18] == 95
        && key[19] == 112 && key[20] == 97 && key[21] == 99 && key[22] == 107 && key[23] == 101
        && key[24] == 100 && key[25] == 95 && key[26] == 102 && key[27] == 111 && key[28] == 114
        && key[29] == 109 && key[30] == 97 && key[31] == 116 && key[32] == 95 && key[33] == 102
        && key[34] == 111 && key[35] == 114 && key[36] == 95 && key[37] == 106 && key[38] == 97
        && key[39] == 112 && key[40] == 97 && key[41] == 110 && key[42] == 101 && key[43] == 115
        && key[44] == 101
}

/// Alias-table entries whose key is 2 bytes long.
pub open spec fn table_len_2(key: Seq<u8>) -> Option<Decoder>
    recommends
        key.len() == 2,
{
    if key[0] == 108 && key[1] == 49 {
        // l1
        Some(Decoder::Iso8859_1)
    } else if key[0] == 108 && key[1] == 50 {
        // l2
        Some(Decoder::Iso8859_2)
    } else if key[0] == 108 && key[1] == 51 {
        // l3
        Some(Decoder::Iso8859_3)
    } else if key[0] == 108 && key[1] == 52 {
        // l4
        Some(Decoder::Iso8859_4)
    } else if key[0] == 108 && key[1] == 53 {
        // l5
        Some(Decoder::Iso8859_9)
    } else if key[0] == 108 && key[1] == 54 {
        // l6
        Some(Decoder::Iso8859_10)
    } else if key[0] == 108 && key[1] == 56 {
        // l8
        Some(Decoder::Iso8859_14)
    } else {
        None
    }
}

/// Alias-table entries whose key is 3 bytes long.
pub open spec fn table_len_3(key: Seq<u8>) -> Option<Decoder>
    recommends
        key.len() == 3,
{
    if key[0] == 56 && key[1] == 53 && key[2] == 48 {
        // 850
        Some(Decoder::Ibm850)
    } else if key[0] == 56 && key[1] == 54 && key[2] == 54 {
        // 866
        Some(Decoder::Ibm866)
    } else if key[0] == 103 && key[1] == 98 && key[2] == 107 {
        // gbk
        Some(Decoder::Gbk)
    } else if key[0] == 108 && key[1] == 49 && key[2] == 48 {
        // l10
        Some(Decoder::Iso8859_16)
    } else if key[0] == 109 && key[1] == 97 && key[2] == 99 {
        // mac
        Some(Decoder::Macintosh)
    } else {
        None
    }
}

/// Alias-table entries whose key is 4 bytes long.
pub open spec fn table_len_4(key: Seq<u8>) -> Option<Decoder>
    recommends
        key.len() == 4,
{
    if key[0] == 98 && key[1] == 105 && key[2] == 103 && key[3] == 53 {
        // big5
        Some(Decoder::Big5)
    } else {
        None
    }
}

/// Alias-table entries whose key is 5 bytes long.
pub open spec fn table_len_5(key: Seq<u8>) -> Option<Decoder>
    recommends
        key.len() == 5,
{
    if key[0] == 99 && key[1] == 112 && key[2] == 56 && key[3] == 49 && key[4] == 57 {
        // cp819
        Some(Decoder::Iso8859_1)
    } else if key[0] == 99 && key[1] == 112 && key[2] == 56 && key[3] == 53 && key[4] == 48 {
        // cp850
        Some(Decoder::Ibm850)
    } else if key[0] == 99 && key[1] == 112 && key[2] == 56 && key[3] == 54 && key[4] == 54 {
        // cp866
        Some(Decoder::Ibm866)
    } else if key[0] == 99 && key[1] == 112 && key[2] == 57 && key[3] == 51 && key[4] == 54 {
        // cp936
        Some(Decoder::Gbk)
    } else if key[0] == 99 && key[1] == 115 && key[2] == 103 && key[3] == 98 && key[4] == 107 {
        // csgbk
        Some(Decoder::Gbk)
    } else if key[0] == 103 && key[1] == 114 && key[2] == 101 && key[3] == 101 && key[4] == 107 {
        // greek
        Some(Decoder::Iso8859_7)
    } else if key[0] == 109 && key[1] == 115 && key[2] == 57 && key[3] == 51 && key[4] == 54 {
        // ms936
        Some(Decoder::Gbk)
    } else if key[0] == 117 && key[1] == 116 && key[2] == 102 && key[3] == 95 && key[4] == 55 {
        // utf_7
        Some(Decoder::Utf7)
    } else {
        None
    }
}

/// Alias-table entries whose key is 6 bytes long.
pub open spec fn table_len_6(key: Seq<u8>) -> Option<Decoder>
    recommends
        key.len() == 6,
{
    if key[0] == 97 && key[1] == 114 && key[2] == 97 && key[3] == 98 && key[4] == 105
        && key[5] == 99 {
        // arabic
        Some(Decoder::Iso8859_6)
    } else if key[0] == 99 && key[1] == 115 && key[2] == 98 && key[3] == 105 && key[4] == 103
        && key[5] == 53 {
        // csbig5
        Some(Decoder::Big5)
    } else if key[0] == 99 && key[1] == 115 && key[2] == 117 && key[3] == 116 && key[4] == 102
        && key[5] == 55 {
        // csutf7
        Some(Decoder::Utf7)
    } else if key[0] == 101 && key[1] == 117 && key[2] == 99 && key[3] == 95 && key[4] == 106
        && key[5] == 112 {
        // euc_jp
        Some(Decoder::EucJp)
    } else if key[0] == 101 && key[1] == 117 && key[2] == 99 && key[3] == 95 && key[4] == 107
        && key[5] == 114 {
        // euc_kr
        Some(Decoder::EucKr)
    } else if key[0] == 103 && key[1] == 98 && key[2] == 50 && key[3] == 51 && key[4] == 49
        && key[5] == 50 {
        // gb2312
        Some(Decoder::Gb18030)
    } else if key[0] == 103 && key[1] == 114 && key[2] == 101 && key[3] == 101 && key[4] == 107
        && key[5] == 56 {
        // greek8
        Some(Decoder::Iso8859_7)
    } else if key[0] == 104 && key[1] == 101 && key[2] == 98 && key[3] == 114 && key[4] == 101
        && key[5] == 119 {
        // hebrew
        Some(Decoder::Iso8859_8)
    } else if key[0] == 105 && key[1] == 98 && key[2] == 109 && key[3] == 56 && key[4] == 49
        && key[5] == 57 {
        // ibm819
        Some(Decoder::Iso8859_1)
    } else if key[0] == 105 && key[1] == 98 && key[2] == 109 && key[3] == 56 && key[4] == 53
        && key[5] == 48 {
        // ibm850
        Some(Decoder::Ibm850)
    } else if key[0] == 105 && key[1] == 98 && key[2] == 109 && key[3] == 56 && key[4] == 54
        && key[5] == 54 {
        // ibm866
        Some(Decoder::Ibm866)
    } else if key[0] == 107 && key[1] == 111 && key[2] == 105 && key[3] == 56 && key[4] == 95
        && key[5] == 114 {
        // koi8_r
        Some(Decoder::Koi8R)
    } else if key[0] == 107 && key[1] == 111 && key[2] == 105 && key[3] == 56 && key[4] == 95
        && key[5] == 117 {
        // koi8_u
        Some(Decoder::Koi8U)
    } else if key[0] == 108 && key[1] == 97 && key[2] == 116 && key[3] == 105 && key[4] == 110
        && key[5] == 49 {
        // latin1
        Some(Decoder::Iso8859_1)
    } else if key[0] == 108 && key[1] == 97 && key[2] == 116 && key[3] == 105 && key[4] == 110
        && key[5] == 50 {
        // latin2
        Some(Decoder::Iso8859_2)
    } else if key[0] == 108 && key[1] == 97 && key[2] == 116 && key[3] == 105 && key[4] == 110
        && key[5] == 51 {
        // latin3
        Some(Decoder::Iso8859_3)
    } else if key[0] == 108 && key[1] == 97 && key[2] == 116 && key[3] == 105 && key[4] == 110
        && key[5] == 52 {
        // latin4
        Some(Decoder::Iso8859_4)
    } else if key[0] == 108 && key[1] == 97 && key[2] == 116 && key[3] == 105 && key[4] == 110
        && key[5] == 53 {
        // latin5
        Some(Decoder::Iso8859_9)
    } else if key[0] == 108 && key[1] == 97 && key[2] == 116 && key[3] == 105 && key[4] == 110
        && key[5] == 54 {
        // latin6
        Some(Decoder::Iso8859_10)
    } else if key[0] == 108 && key[1] == 97 && key[2] == 116 && key[3] == 105 && key[4] == 110
        && key[5] == 56 {
        // latin8
        Some(Decoder::Iso8859_14)
    } else if key[0] == 117 && key[1] == 116 && key[2] == 102 && key[3] == 95 && key[4] == 49
        && key[5] == 54 {
        // utf_16
        Some(Decoder::Utf16)
    } else {
        None
    }
}

/// Alias-table entries whose key is 7 bytes long.
pub open spec fn table_len_7(key: Seq<u8>) -> Option<Decoder>
    recommends
        key.len() == 7,
{
    if key[0] == 99 && key[1] == 115 && key[2] == 101 && key[3] == 117 && key[4] == 99
        && key[5] == 107 && key[6] == 114 {
        // cseuckr
        Some(Decoder::EucKr)
    } else if key[0] == 99 && key[1] == 115 && key[2] == 107 && key[3] == 111 && key[4] == 105
        && key[5] == 56 && key[6] == 114 {
        // cskoi8r
        Some(Decoder::Koi8R)
    } else if key[0] == 99 && key[1] == 115 && key[2] == 107 && key[3] == 111 && key[4] == 105
        && key[5] == 56 && key[6] == 117 {
        // cskoi8u
        Some(Decoder::Koi8U)
    } else if key[0] == 99 && key[1] == 115 && key[2] == 117 && key[3] == 116 && key[4] == 102
        && key[5] == 49 && key[6] == 54 {
        // csutf16
        Some(Decoder::Utf16)
    } else if key[0] == 103 && key[1] == 98 && key[2] == 49 && key[3] == 56 && key[4] == 48
        && key[5] == 51 && key[6] == 48 {
        // gb18030
        Some(Decoder::Gb18030)
    } else if key[0] == 108 && key[1] == 97 && key[2] == 116 && key[3] == 105 && key[4] == 110
        && key[5] == 49 && key[6] == 48 {
        // latin10
        Some(Decoder::Iso8859_16)
    } else if key[0] == 108 && key[1] == 97 && key[2] == 116 && key[3] == 105 && key[4] == 110
        && key[5] == 95 && key[6] == 57 {
        // latin_9
        Some(Decoder::Iso8859_15)
    } else if key[0] == 116 && key[1] == 105 && key[2] == 115 && key[3] == 95 && key[4] == 54
        && key[5] == 50 && key[6] == 48 {
        // tis_620
        Some(Decoder::Tis620)
    } else {
        None
    }
}

/// Alias-table entries whose key is 8 bytes long.
pub open spec fn table_len_8(key: Seq<u8>) -> Option<Decoder>
    recommends
        key.len() == 8,
{
    if key[0] == 97 && key[1] == 115 && key[2] == 109 && key[3] == 111 && key[4] == 95
        && key[5] == 55 && key[6] == 48 && key[7] == 56 {
        // asmo_708
        Some(Decoder::Iso8859_6)
    } else if key[0] == 99 && key[1] == 115 && key[2] == 105 && key[3] == 98 && key[4] == 109
        && key[5] == 56 && key[6] == 54 && key[7] == 54 {
        // csibm866
        Some(Decoder::Ibm866)
    } else if key[0] == 99 && key[1] == 115 && key[2] == 116 && key[3] == 105 && key[4] == 115
        && key[5] == 54 && key[6] == 50 && key[7] == 48 {
        // cstis620
        Some(Decoder::Tis620)
    } else if key[0] == 99 && key[1] == 121 && key[2] == 114 && key[3] == 105 && key[4] == 108
        && key[5] == 108 && key[6] == 105 && key[7] == 99 {
        // cyrillic
        Some(Decoder::Iso8859_5)
    } else if key[0] == 101 && key[1] == 99 && key[2] == 109 && key[3] == 97 && key[4] == 95
        && key[5] == 49 && key[6] == 49 && key[7] == 52 {
        // ecma_114
        Some(Decoder::Iso8859_6)
    } else if key[0] == 101 && key[1] == 99 && key[2] == 109 && key[3] == 97 && key[4] == 95
        && key[5] == 49 && key[6] == 49 && key[7] == 56 {
        // ecma_118
        Some(Decoder::Iso8859_7)
    } else if key[0] == 101 && key[1] == 108 && key[2] == 111 && key[3] == 116 && key[4] == 95
        && key[5] == 57 && key[6] == 50 && key[7] == 56 {
        // elot_928
        Some(Decoder::Iso8859_7)
    } else if key[0] == 109 && key[1] == 115 && key[2] == 95 && key[3] == 107 && key[4] == 97
        && key[5] == 110 && key[6] == 106 && key[7] == 105 {
        // ms_kanji
        Some(Decoder::ShiftJis)
    } else if key[0] == 117 && key[1] == 116 && key[2] == 102 && key[3] == 95 && key[4] == 49
        && key[5] == 54 && key[6] == 98 && key[7] == 101 {
        // utf_16be
        Some(Decoder::Utf16Be)
    } else if key[0] == 117 && key[1] == 116 && key[2] == 102 && key[3] == 95 && key[4] == 49
        && key[5] == 54 && key[6] == 108 && key[7] == 101 {
        // utf_16le
        Some(Decoder::Utf16Le)
    } else {
        None
    }
}

/// Alias-table entries whose key is 9 bytes long.
pub open spec fn table_len_9(key: Seq<u8>) -> Option<Decoder>
    recommends
        key.len() == 9,
{
    if key[0] == 99 && key[1] == 115 && key[2] == 103 && key[3] == 98 && key[4] == 49
        && key[5] == 56 && key[6] == 48 && key[7] == 51 && key[8] == 48 {
        // csgb18030
        Some(Decoder::Gb18030)
    } else if key[0] == 99 && key[1] == 115 && key[2] == 117 && key[3] == 116 && key[4] == 102
        && key[5] == 49 && key[6] == 54 && key[7] == 98 && key[8] == 101 {
        // csutf16be
        Some(Decoder::Utf16Be)
    } else if key[0] == 99 && key[1] == 115 && key[2] == 117 && key[3] == 116 && key[4] == 102
        && key[5] == 49 && key[6] == 54 && key[7] == 108 && key[8] == 101 {
        // csutf16le
        Some(Decoder::Utf16Le)
    } else if key[0] == 109 && key[1] == 97 && key[2] == 99 && key[3] == 105 && key[4] == 110
        && key[5] == 116 && key[6] == 111 && key[7] == 115 && key[8] == 104 {
        // macintosh
        Some(Decoder::Macintosh)
    } else if key[0] == 115 && key[1] == 104 && key[2] == 105 && key[3] == 102 && key[4] == 116
        && key[5] == 95 && key[6] == 106 && key[7] == 105 && key[8] == 115 {
        // shift_jis
        Some(Decoder::ShiftJis)
    } else {
        None
    }
}

/// Alias-table entries whose key is 10 bytes long.
pub open spec fn table_len_10(key: Seq<u8>) -> Option<Decoder>
    recommends
        key.len() == 10,
{
    if key[0] == 99 && key[1] == 115 && key[2] == 115 && key[3] == 104 && key[4] == 105
        && key[5] == 102 && key[6] == 116 && key[7] == 106 && key[8] == 105 && key[9] == 115 {
        // csshiftjis
        Some(Decoder::ShiftJis)
    } else if key[0] == 105 && key[1] == 115 && key[2] == 111 && key[3] == 95 && key[4] == 56
        && key[5] == 56 && key[6] == 53 && key[7] == 57 && key[8] == 95 && key[9] == 49 {
        // iso_8859_1
        Some(Decoder::Iso8859_1)
    } else if key[0] == 105 && key[1] == 115 && key[2] == 111 && key[3] == 95 && key[4] == 56
        && key[5] == 56 && key[6] == 53 && key[7] == 57 && key[8] == 95 && key[9] == 50 {
        // iso_8859_2
        Some(Decoder::Iso8859_2)
    } else if key[0] == 105 && key[1] == 115 && key[2] == 111 && key[3] == 95 && key[4] == 56
        && key[5] == 56 && key[6] == 53 && key[7] == 57 && key[8] == 95 && key[9] == 51 {
        // iso_8859_3
        Some(Decoder::Iso8859_3)
    } else if key[0] == 105 && key[1] == 115 && key[2] == 111 && key[3] == 95 && key[4] == 56
        && key[5] == 56 && key[6] == 53 && key[7] == 57 && key[8] == 95 && key[9] == 52 {
        // iso_8859_4
        Some(Decoder::Iso8859_4)
    } else if key[0] == 105 && key[1] == 115 && key[2] == 111 && key[3] == 95 && key[4] == 56
        && key[5] == 56 && key[6] == 53 && key[7] == 57 && key[8] == 95 && key[9] == 53 {
        // iso_8859_5
        Some(Decoder::Iso8859_5)
    } else if key[0] == 105 && key[1] == 115 && key[2] == 111 && key[3] == 95 && key[4] == 56
        && key[5] == 56 && key[6] == 53 && key[7] == 57 && key[8] == 95 && key[9] == 54 {
        // iso_8859_6
        Some(Decoder::Iso8859_6)
    } else if key[0] == 105 && key[1] == 115 && key[2] == 111 && key[3] == 95 && key[4] == 56
        && key[5] == 56 && key[6] == 53 && key[7] == 57 && key[8] == 95 && key[9] == 55 {
        // iso_8859_7
        Some(Decoder::Iso8859_7)
    } else if key[0] == 105 && key[1] == 115 && key[2] == 111 && key[3] == 95 && key[4] == 56
        && key[5] == 56 && key[6] == 53 && key[7] == 57 && key[8] == 95 && key[9] == 56 {
        // iso_8859_8
        Some(Decoder::Iso8859_8)
    } else if key[0] == 105 && key[1] == 115 && key[2] == 111 && key[3] == 95 && key[4] == 56
        && key[5] == 56 && key[6] == 53 && key[7] == 57 && key[8] == 95 && key[9] == 57 {
        // iso_8859_9
        Some(Decoder::Iso8859_9)
    } else if key[0] == 105 && key[1] == 115 && key[2] == 111 && key[3] == 95 && key[4] == 99
        && key[5] == 101 && key[6] == 108 && key[7] == 116 && key[8] == 105 && key[9] == 99 {
        // iso_celtic
        Some(Decoder::Iso8859_14)
    } else if key[0] == 105 && key[1] == 115 && key[2] == 111 && key[3] == 95 && key[4] == 105
        && key[5] == 114 && key[6] == 95 && key[7] == 49 && key[8] == 48 && key[9] == 48 {
        // iso_ir_100
        Some(Decoder::Iso8859_1)
    } else if key[0] == 105 && key[1] == 115 && key[2] == 111 && key[3] == 95 && key[4] == 105
        && key[5] == 114 && key[6] == 95 && key[7] == 49 && key[8] == 48 && key[9] == 49 {
        // iso_ir_101
        Some(Decoder::Iso8859_2)
    } else if key[0] == 105 && key[1] == 115 && key[2] == 111 && key[3] == 95 && key[4] == 105
        && key[5] == 114 && key[6] == 95 && key[7] == 49 && key[8] == 48 && key[9] == 57 {
        // iso_ir_109
        Some(Decoder::Iso8859_3)
    } else if key[0] == 105 && key[1] == 115 && key[2] == 111 && key[3] == 95 && key[4] == 105
        && key[5] == 114 && key[6] == 95 && key[7] == 49 && key[8] == 49 && key[9] == 48 {
        // iso_ir_110
        Some(Decoder::Iso8859_4)
    } else if key[0] == 105 && key[1] == 115 && key[2] == 111 && key[3] == 95 && key[4] == 105
        && key[5] == 114 && key[6] == 95 && key[7] == 49 && key[8] == 50 && key[9] == 54 {
        // iso_ir_126
        Some(Decoder::Iso8859_7)
    } else if key[0] == 105 && key[1] == 115 && key[2] == 111 && key[3] == 95 && key[4] == 105
        && key[5] == 114 && key[6] == 95 && key[7] == 49 && key[8] == 50 && key[9] == 55 {
        // iso_ir_127
        Some(Decoder::Iso8859_6)
    } else if key[0] == 105 && key[1] == 115 && key[2] == 111 && key[3] == 95 && key[4] == 105
        && key[5] == 114 && key[6] == 95 && key[7] == 49 && key[8] == 51 && key[9] == 56 {
        // iso_ir_138
        Some(Decoder::Iso8859_8)
    } else if key[0] == 105 && key[1] == 115 && key[2] == 111 && key[3] == 95 && key[4] == 105
        && key[5] == 114 && key[6] == 95 && key[7] == 49 && key[8] == 52 && key[9] == 52 {
        // iso_ir_144
        Some(Decoder::Iso8859_5)
    } else if key[0] == 105 && key[1] == 115 && key[2] == 111 && key[3] == 95 && key[4] == 105
        && key[5] == 114 && key[6] == 95 && key[7] == 49 && key[8] == 52 && key[9] == 56 {
        // iso_ir_148
        Some(Decoder::Iso8859_9)
    } else if key[0] == 105 && key[1] == 115 && key[2] == 111 && key[3] == 95 && key[4] == 105
        && key[5] == 114 && key[6] == 95 && key[7] == 49 && key[8] == 53 && key[9] == 55 {
        // iso_ir_157
        Some(Decoder::Iso8859_10)
    } else if key[0] == 105 && key[1] == 115 && key[2] == 111 && key[3] == 95 && key[4] == 105
        && key[5] == 114 && key[6] == 95 && key[7] == 49 && key[8] == 57 && key[9] == 57 {
        // iso_ir_199
        Some(Decoder::Iso8859_14)
    } else if key[0] == 105 && key[1] == 115 && key[2] == 111 && key[3] == 95 && key[4] == 105
        && key[5] == 114 && key[6] == 95 && key[7] == 50 && key[8] == 50 && key[9] == 54 {
        // iso_ir_226
        Some(Decoder::Iso8859_16)
    } else {
        None
    }
}

/// Alias-table entries whose key is 11 bytes long.
pub open spec fn table_len_11(key: Seq<u8>) -> Option<Decoder>
    recommends
        key.len() == 11,
{
    if key[0] == 99 && key[1] == 115 && key[2] == 105 && key[3] == 115 && key[4] == 111
        && key[5] == 50 && key[6] == 48 && key[7] == 50 && key[8] == 50 && key[9] == 106
        && key[10] == 112 {
        // csiso2022jp
        Some(Decoder::Iso2022Jp)
    } else if key[0] == 99 && key[1] == 115 && key[2] == 105 && key[3] == 115 && key[4] == 111
        && key[5] == 56 && key[6] == 56 && key[7] == 53 && key[8] == 57 && key[9] == 49
        && key[10] == 51 {
        // csiso885913
        Some(Decoder::Iso8859_13)
    } else if key[0] == 99 && key[1] == 115 && key[2] == 105 && key[3] == 115 && key[4] == 111
        && key[5] == 56 && key[6] == 56 && key[7] == 53 && key[8] == 57 && key[9] == 49
        && key[10] == 52 {
        // csiso885914
        Some(Decoder::Iso8859_14)
    } else if key[0] == 99 && key[1] == 115 && key[2] == 105 && key[3] == 115 && key[4] == 111
        && key[5] == 56 && key[6] == 56 && key[7] == 53 && key[8] == 57 && key[9] == 49
        && key[10] == 53 {
        // csiso885915
        Some(Decoder::Iso8859_15)
    } else if key[0] == 99 && key[1] == 115 && key[2] == 105 && key[3] == 115 && key[4] == 111
        && key[5] == 56 && key[6] == 56 && key[7] == 53 && key[8] == 57 && key[9] == 49
        && key[10] == 54 {
        // csiso885916
        Some(Decoder::Iso8859_16)
    } else if key[0] == 99 && key[1] == 115 && key[2] == 105 && key[3] == 115 && key[4] == 111
        && key[5] == 108 && key[6] == 97 && key[7] == 116 && key[8] == 105 && key[9] == 110
        && key[10] == 49 {
        // csisolatin1
        Some(Decoder::Iso8859_1)
    } else if key[0] == 99 && key[1] == 115 && key[2] == 105 && key[3] == 115 && key[4] == 111
        && key[5] == 108 && key[6] == 97 && key[7] == 116 && key[8] == 105 && key[9] == 110
        && key[10] == 50 {
        // csisolatin2
        Some(Decoder::Iso8859_2)
    } else if key[0] == 99 && key[1] == 115 && key[2] == 105 && key[3] == 115 && key[4] == 111
        && key[5] == 108 && key[6] == 97 && key[7] == 116 && key[8] == 105 && key[9] == 110
        && key[10] == 51 {
        // csisolatin3
        Some(Decoder::Iso8859_3)
    } else if key[0] == 99 && key[1] == 115 && key[2] == 105 && key[3] == 115 && key[4] == 111
        && key[5] == 108 && key[6] == 97 && key[7] == 116 && key[8] == 105 && key[9] == 110
        && key[10] == 52 {
        // csisolatin4
        Some(Decoder::Iso8859_4)
    } else if key[0] == 99 && key[1] == 115 && key[2] == 105 && key[3] == 115 && key[4] == 111
        && key[5] == 108 && key[6] == 97 && key[7] == 116 && key[8] == 105 && key[9] == 110
        && key[10] == 53 {
        // csisolatin5
        Some(Decoder::Iso8859_9)
    } else if key[0] == 99 && key[1] == 115 && key[2] == 105 && key[3] == 115 && key[4] == 111
        && key[5] == 108 && key[6] == 97 && key[7] == 116 && key[8] == 105 && key[9] == 110
        && key[10] == 54 {
        // csisolatin6
        Some(Decoder::Iso8859_10)
    } else if key[0] == 99 && key[1] == 115 && key[2] == 109 && key[3] == 97 && key[4] == 99
        && key[5] == 105 && key[6] == 110 && key[7] == 116 && key[8] == 111 && key[9] == 115
        && key[10] == 104 {
        // csmacintosh
        Some(Decoder::Macintosh)
    } else if key[0] == 105 && key[1] == 115 && key[2] == 111 && key[3] == 95 && key[4] == 50
        && key[5] == 48 && key[6] == 50 && key[7] == 50 && key[8] == 95 && key[9] == 106
        && key[10] == 112 {
        // iso_2022_jp
        Some(Decoder::Iso2022Jp)
    } else if key[0] == 105 && key[1] == 115 && key[2] == 111 && key[3] == 95 && key[4] == 56
        && key[5] == 56 && key[6] == 53 && key[7] == 57 && key[8] == 95 && key[9] == 49
        && key[10] == 48 {
        // iso_8859_10
        Some(Decoder::Iso8859_10)
    } else if key[0] == 105 && key[1] == 115 && key[2] == 111 && key[3] == 95 && key[4] == 56
        && key[5] == 56 && key[6] == 53 && key[7] == 57 && key[8] == 95 && key[9] == 49
        && key[10] == 49 {
        // iso_8859_11
        Some(Decoder::Tis620)
    } else if key[0] == 105 && key[1] == 115 && key[2] == 111 && key[3] == 95 && key[4] == 56
        && key[5] == 56 && key[6] == 53 && key[7] == 57 && key[8] == 95 && key[9] == 49
        && key[10] == 51 {
        // iso_8859_13
        Some(Decoder::Iso8859_13)
    } else if key[0] == 105 && key[1] == 115 && key[2] == 111 && key[3] == 95 && key[4] == 56
        && key[5] == 56 && key[6] == 53 && key[7] == 57 && key[8] == 95 && key[9] == 49
        && key[10] == 52 {
        // iso_8859_14
        Some(Decoder::Iso8859_14)
    } else if key[0] == 105 && key[1] == 115 && key[2] == 111 && key[3] == 95 && key[4] == 56
        && key[5] == 56 && key[6] == 53 && key[7] == 57 && key[8] == 95 && key[9] == 49
        && key[10] == 53 {
        // iso_8859_15
        Some(Decoder::Iso8859_15)
    } else if key[0] == 105 && key[1] == 115 && key[2] == 111 && key[3] == 95 && key[4] == 56
        && key[5] == 56 && key[6] == 53 && key[7] == 57 && key[8] == 95 && key[9] == 49
        && key[10] == 54 {
        // iso_8859_16
        Some(Decoder::Iso8859_16)
    } else if key[0] == 119 && key[1] == 105 && key[2] == 110 && key[3] == 100 && key[4] == 111
        && key[5] == 119 && key[6] == 115 && key[7] == 95 && key[8] == 56 && key[9] == 55
        && key[10] == 52 {
        // windows_874
        Some(Decoder::Windows874)
    } else if key[0] == 119 && key[1] == 105 && key[2] == 110 && key[3] == 100 && key[4] == 111
        && key[5] == 119 && key[6] == 115 && key[7] == 95 && key[8] == 57 && key[9] == 51
        && key[10] == 54 {
        // windows_936
        Some(Decoder::Gbk)
    } else {
        None
    }
}

/// Alias-table entries whose key is 12 bytes long.
pub open spec fn table_len_12(key: Seq<u8>) -> Option<Decoder>
    recommends
        key.len() == 12,
{
    if key[0] == 99 && key[1] == 115 && key[2] == 119 && key[3] == 105 && key[4] == 110
        && key[5] == 100 && key[6] == 111 && key[7] == 119 && key[8] == 115 && key[9] == 56
        && key[10] == 55 && key[11] == 52 {
        // cswindows874
        Some(Decoder::Windows874)
    } else if key[0] == 119 && key[1] == 105 && key[2] == 110 && key[3] == 100 && key[4] == 111
        && key[5] == 119 && key[6] == 115 && key[7] == 95 && key[8] == 49 && key[9] == 50
        && key[10] == 53 && key[11] == 48 {
        // windows_1250
        Some(Decoder::Cp1250)
    } else if key[0] == 119 && key[1] == 105 && key[2] == 110 && key[3] == 100 && key[4] == 111
        && key[5] == 119 && key[6] == 115 && key[7] == 95 && key[8] == 49 && key[9] == 50
        && key[10] == 53 && key[11] == 49 {
        // windows_1251
        Some(Decoder::Cp1251)
    } else if key[0] == 119 && key[1] == 105 && key[2] == 110 && key[3] == 100 && key[4] == 111
        && key[5] == 119 && key[6] == 115 && key[7] == 95 && key[8] == 49 && key[9] == 50
        && key[10] == 53 && key[11] == 50 {
        // windows_1252
        Some(Decoder::Cp1252)
    } else if key[0] == 119 && key[1] == 105 && key[2] == 110 && key[3] == 100 && key[4] == 111
        && key[5] == 119 && key[6] == 115 && key[7] == 95 && key[8] == 49 && key[9] == 50
        && key[10] == 53 && key[11] == 51 {
        // windows_1253
        Some(Decoder::Cp1253)
    } else if key[0] == 119 && key[1] == 105 && key[2] == 110 && key[3] == 100 && key[4] == 111
        && key[5] == 119 && key[6] == 115 && key[7] == 95 && key[8] == 49 && key[9] == 50
        && key[10] == 53 && key[11] == 52 {
        // windows_1254
        Some(Decoder::Cp1254)
    } else if key[0] == 119 && key[1] == 105 && key[2] == 110 && key[3] == 100 && key[4] == 111
        && key[5] == 119 && key[6] == 115 && key[7] == 95 && key[8] == 49 && key[9] == 50
        && key[10] == 53 && key[11] == 53 {
        // windows_1255
        Some(Decoder::Cp1255)
    } else if key[0] == 119 && key[1] == 105 && key[2] == 110 && key[3] == 100 && key[4] == 111
        && key[5] == 119 && key[6] == 115 && key[7] == 95 && key[8] == 49 && key[9] == 50
        && key[10] == 53 && key[11] == 54 {
        // windows_1256
        Some(Decoder::Cp1256)
    } else if key[0] == 119 && key[1] == 105 && key[2] == 110 && key[3] == 100 && key[4] == 111
        && key[5] == 119 && key[6] == 115 && key[7] == 95 && key[8] == 49 && key[9] == 50
        && key[10] == 53 && key[11] == 55 {
        // windows_1257
        Some(Decoder::Cp1257)
    } else if key[0] == 119 && key[1] == 105 && key[2] == 110 && key[3] == 100 && key[4] == 111
        && key[5] == 119 && key[6] == 115 && key[7] == 95 && key[8] == 49 && key[9] == 50
        && key[10] == 53 && key[11] == 56 {
        // windows_1258
        Some(Decoder::Cp1258)
    } else {
        None
    }
}

/// Alias-table entries whose key is 13 bytes long.
pub open spec fn table_len_13(key: Seq<u8>) -> Option<Decoder>
    recommends
        key.len() == 13,
{
    if key[0] == 99 && key[1] == 115 && key[2] == 119 && key[3] == 105 && key[4] == 110
        && key[5] == 100 && key[6] == 111 && key[7] == 119 && key[8] == 115 && key[9] == 49
        && key[10] == 50 && key[11] == 53 && key[12] == 48 {
        // cswindows1250
        Some(Decoder::Cp1250)
    } else if key[0] == 99 && key[1] == 115 && key[2] == 119 && key[3] == 105 && key[4] == 110
        && key[5] == 100 && key[6] == 111 && key[7] == 119 && key[8] == 115 && key[9] == 49
        && key[10] == 50 && key[11] == 53 && key[12] == 49 {
        // cswindows1251
        Some(Decoder::Cp1251)
    } else if key[0] == 99 && key[1] == 115 && key[2] == 119 && key[3] == 105 && key[4] == 110
        && key[5] == 100 && key[6] == 111 && key[7] == 119 && key[8] == 115 && key[9] == 49
        && key[10] == 50 && key[11] == 53 && key[12] == 50 {
        // cswindows1252
        Some(Decoder::Cp1252)
    } else if key[0] == 99 && key[1] == 115 && key[2] == 119 && key[3] == 105 && key[4] == 110
        && key[5] == 100 && key[6] == 111 && key[7] == 119 && key[8] == 115 && key[9] == 49
        && key[10] == 50 && key[11] == 53 && key[12] == 51 {
        // cswindows1253
        Some(Decoder::Cp1253)
    } else if key[0] == 99 && key[1] == 115 && key[2] == 119 && key[3] == 105 && key[4] == 110
        && key[5] == 100 && key[6] == 111 && key[7] == 119 && key[8] == 115 && key[9] == 49
        && key[10] == 50 && key[11] == 53 && key[12] == 52 {
        // cswindows1254
        Some(Decoder::Cp1254)
    } else if key[0] == 99 && key[1] == 115 && key[2] == 119 && key[3] == 105 && key[4] == 110
        && key[5] == 100 && key[6] == 111 && key[7] == 119 && key[8] == 115 && key[9] == 49
        && key[10] == 50 && key[11] == 53 && key[12] == 53 {
        // cswindows1255
        Some(Decoder::Cp1255)
    } else if key[0] == 99 && key[1] == 115 && key[2] == 119 && key[3] == 105 && key[4] == 110
        && key[5] == 100 && key[6] == 111 && key[7] == 119 && key[8] == 115 && key[9] == 49
        && key[10] == 50 && key[11] == 53 && key[12] == 54 {
        // cswindows1256
        Some(Decoder::Cp1256)
    } else if key[0] == 99 && key[1] == 115 && key[2] == 119 && key[3] == 105 && key[4] == 110
        && key[5] == 100 && key[6] == 111 && key[7] == 119 && key[8] == 115 && key[9] == 49
        && key[10] == 50 && key[11] == 53 && key[12] == 55 {
        // cswindows1257
        Some(Decoder::Cp1257)
    } else if key[0] == 99 && key[1] == 115 && key[2] == 119 && key[3] == 105 && key[4] == 110
        && key[5] == 100 && key[6] == 111 && key[7] == 119 && key[8] == 115 && key[9] == 49
        && key[10] == 50 && key[11] == 53 && key[12] == 56 {
        // cswindows1258
        Some(Decoder::Cp1258)
    } else {
        None
    }
}

/// Alias-table entries whose key is 14 bytes long.
pub open spec fn table_len_14(key: Seq<u8>) -> Option<Decoder>
    recommends
        key.len() == 14,
{
    if key[0] == 107 && key[1] == 115 && key[2] == 95 && key[3] == 99 && key[4] == 95
        && key[5] == 53 && key[6] == 54 && key[7] == 48 && key[8] == 49 && key[9] == 95
        && key[10] == 49 && key[11] == 57 && key[12] == 56 && key[13] == 55 {
        // ks_c_5601_1987
        Some(Decoder::EucKr)
    } else if key[0] == 107 && key[1] == 115 && key[2] == 95 && key[3] == 99 && key[4] == 95
        && key[5] == 53 && key[6] == 54 && key[7] == 48 && key[8] == 49 && key[9] == 95
        && key[10] == 49 && key[11] == 57 && key[12] == 56 && key[13] == 57 {
        // ks_c_5601_1989
        Some(Decoder::EucKr)
    } else {
        None
    }
}

/// Alias-table entries whose key is 15 bytes long.
pub open spec fn table_len_15(key: Seq<u8>) -> Option<Decoder>
    recommends
        key.len() == 15,
{
    if key[0] == 99 && key[1] == 115 && key[2] == 105 && key[3] == 115 && key[4] == 111
        && key[5] == 108 && key[6] == 97 && key[7] == 116 && key[8] == 105 && key[9] == 110
        && key[10] == 103 && key[11] == 114 && key[12] == 101 && key[13] == 101
        && key[14] == 107 {
        // csisolatingreek
        Some(Decoder::Iso8859_7)
    } else if key[0] == 105 && key[1] == 115 && key[2] == 111 && key[3] == 95 && key[4] == 56
        && key[5] == 56 && key[6] == 53 && key[7] == 57 && key[8] == 95 && key[9] == 49
        && key[10] == 58 && key[11] == 49 && key[12] == 57 && key[13] == 56 && key[14] == 55 {
        // iso_8859_1:1987
        Some(Decoder::Iso8859_1)
    } else if key[0] == 105 && key[1] == 115 && key[2] == 111 && key[3] == 95 && key[4] == 56
        && key[5] == 56 && key[6] == 53 && key[7] == 57 && key[8] == 95 && key[9] == 50
        && key[10] == 58 && key[11] == 49 && key[12] == 57 && key[13] == 56 && key[14] == 55 {
        // iso_8859_2:1987
        Some(Decoder::Iso8859_2)
    } else if key[0] == 105 && key[1] == 115 && key[2] == 111 && key[3] == 95 && key[4] == 56
        && key[5] == 56 && key[6] == 53 && key[7] == 57 && key[8] == 95 && key[9] == 51
        && key[10] == 58 && key[11] == 49 && key[12] == 57 && key[13] == 56 && key[14] == 56 {
        // iso_8859_3:1988
        Some(Decoder::Iso8859_3)
    } else if key[0] == 105 && key[1] == 115 && key[2] == 111 && key[3] == 95 && key[4] == 56
        && key[5] == 56 && key[6] == 53 && key[7] == 57 && key[8] == 95 && key[9] == 52
        && key[10] == 58 && key[11] == 49 && key[12] == 57 && key[13] == 56 && key[14] == 56 {
        // iso_8859_4:1988
        Some(Decoder::Iso8859_4)
    } else if key[0] == 105 && key[1] == 115 && key[2] == 111 && key[3] == 95 && key[4] == 56
        && key[5] == 56 && key[6] == 53 && key[7] == 57 && key[8] == 95 && key[9] == 53
        && key[10] == 58 && key[11] == 49 && key[12] == 57 && key[13] == 56 && key[14] == 56 {
        // iso_8859_5:1988
        Some(Decoder::Iso8859_5)
    } else if key[0] == 105 && key[1] == 115 && key[2] == 111 && key[3] == 95 && key[4] == 56
        && key[5] == 56 && key[6] == 53 && key[7] == 57 && key[8] == 95 && key[9] == 54
        && key[10] == 58 && key[11] == 49 && key[12] == 57 && key[13] == 56 && key[14] == 55 {
        // iso_8859_6:1987
        Some(Decoder::Iso8859_6)
    } else if key[0] == 105 && key[1] == 115 && key[2] == 111 && key[3] == 95 && key[4] == 56
        && key[5] == 56 && key[6] == 53 && key[7] == 57 && key[8] == 95 && key[9] == 55
        && key[10] == 58 && key[11] == 49 && key[12] == 57 && key[13] == 56 && key[14] == 55 {
        // iso_8859_7:1987
        Some(Decoder::Iso8859_7)
    } else if key[0] == 105 && key[1] == 115 && key[2] == 111 && key[3] == 95 && key[4] == 56
        && key[5] == 56 && key[6] == 53 && key[7] == 57 && key[8] == 95 && key[9] == 56
        && key[10] == 58 && key[11] == 49 && key[12] == 57 && key[13] == 56 && key[14] == 56 {
        // iso_8859_8:1988
        Some(Decoder::Iso8859_8)
    } else if key[0] == 105 && key[1] == 115 && key[2] == 111 && key[3] == 95 && key[4] == 56
        && key[5] == 56 && key[6] == 53 && key[7] == 57 && key[8] == 95 && key[9] == 57
        && key[10] == 58 && key[11] == 49 && key[12] == 57 && key[13] == 56 && key[14] == 57 {
        // iso_8859_9:1989
        Some(Decoder::Iso8859_9)
    } else {
        None
    }
}

/// Alias-table entries whose key is 16 bytes long.
pub open spec fn table_len_16(key: Seq<u8>) -> Option<Decoder>
    recommends
        key.len() == 16,
{
    if key[0] == 99 && key[1] == 115 && key[2] == 105 && key[3] == 115 && key[4] == 111
        && key[5] == 108 && key[6] == 97 && key[7] == 116 && key[8] == 105 && key[9] == 110
        && key[10] == 97 && key[11] == 114 && key[12] == 97 && key[13] == 98 && key[14] == 105
        && key[15] == 99 {
        // csisolatinarabic
        Some(Decoder::Iso8859_6)
    } else if key[0] == 99 && key[1] == 115 && key[2] == 105 && key[3] == 115 && key[4] == 111
        && key[5] == 108 && key[6] == 97 && key[7] == 116 && key[8] == 105 && key[9] == 110
        && key[10] == 104 && key[11] == 101 && key[12] == 98 && key[13] == 114 && key[14] == 101
        && key[15] == 119 {
        // csisolatinhebrew
        Some(Decoder::Iso8859_8)
    } else if key[0] == 105 && key[1] == 115 && key[2] == 111 && key[3] == 95 && key[4] == 56
        && key[5] == 56 && key[6] == 53 && key[7] == 57 && key[8] == 95 && key[9] == 49
        && key[10] == 48 && key[11] == 58 && key[12] == 49 && key[13] == 57 && key[14] == 57
        && key[15] == 50 {
        // iso_8859_10:1992
        Some(Decoder::Iso8859_10)
    } else if key[0] == 105 && key[1] == 115 && key[2] == 111 && key[3] == 95 && key[4] == 56
        && key[5] == 56 && key[6] == 53 && key[7] == 57 && key[8] == 95 && key[9] == 49
        && key[10] == 52 && key[11] == 58 && key[12] == 49 && key[13] == 57 && key[14] == 57
        && key[15] == 56 {
        // iso_8859_14:1998
        Some(Decoder::Iso8859_14)
    } else if key[0] == 105 && key[1] == 115 && key[2] == 111 && key[3] == 95 && key[4] == 56
        && key[5] == 56 && key[6] == 53 && key[7] == 57 && key[8] == 95 && key[9] == 49
        && key[10] == 54 && key[11] == 58 && key[12] == 50 && key[13] == 48 && key[14] == 48
        && key[15] == 49 {
        // iso_8859_16:2001
        Some(Decoder::Iso8859_16)
    } else {
        None
    }
}

/// Alias-table entries whose key is 18 bytes long.
pub open spec fn table_len_18(key: Seq<u8>) -> Option<Decoder>
    recommends
        key.len() == 18,
{
    if key[0] == 99 && key[1] == 115 && key[2] == 105 && key[3] == 115 && key[4] == 111
        && key[5] == 108 && key[6] == 97 && key[7] == 116 && key[8] == 105 && key[9] == 110
        && key[10] == 99 && key[11] == 121 && key[12] == 114 && key[13] == 105 && key[14] == 108
        && key[15] == 108 && key[16] == 105 && key[17] == 99 {
        // csisolatincyrillic
        Some(Decoder::Iso8859_5)
    } else {
        None
    }
}

/// Alias-table entries whose key is 19 bytes long.
pub open spec fn table_len_19(key: Seq<u8>) -> Option<Decoder>
    recommends
        key.len() == 19,
{
    if key[0] == 99 && key[1] == 115 && key[2] == 101 && key[3] == 117 && key[4] == 99
        && key[5] == 112 && key[6] == 107 && key[7] == 100 && key[8] == 102 && key[9] == 109
        && key[10] == 116 && key[11] == 106 && key[12] == 97 && key[13] == 112 && key[14] == 97
        && key[15] == 110 && key[16] == 101 && key[17] == 115 && key[18] == 101 {
        // cseucpkdfmtjapanese
        Some(Decoder::EucJp)
    } else if key[0] == 99 && key[1] == 115 && key[2] == 112 && key[3] == 99 && key[4] == 56
        && key[5] == 53 && key[6] == 48 && key[7] == 109 && key[8] == 117 && key[9] == 108
        && key[10] == 116 && key[11] == 105 && key[12] == 108 && key[13] == 105
        && key[14] == 110 && key[15] == 103 && key[16] == 117 && key[17] == 97 && key[18] == 108 {
        // cspc850multilingual
        Some(Decoder::Ibm850)
    } else {
        None
    }
}

/// Alias-table entries whose key is 45 bytes long.
pub open spec fn table_len_45(key: Seq<u8>) -> Option<Decoder>
    recommends
        key.len() == 45,
{
    if spells_longest_alias(key) {
        // extended_unix_code_packed_format_for_japanese
        Some(Decoder::EucJp)
    } else {
        None
    }
}

/// The whole alias table: the decoder identifier registered for an exact
/// match of `key`, or `None` when no alias equals `key`.
pub open spec fn lookup(key: Seq<u8>) -> Option<Decoder> {
    if key.len() == 2 {
        table_len_2(key)
    } else if key.len() == 3 {
        table_len_3(key)
    } else if key.len() == 4 {
        table_len_4(key)
    } else if key.len() == 5 {
        table_len_5(key)
    } else if key.len() == 6 {
        table_len_6(key)
    } else if key.len() == 7 {
        table_len_7(key)
    } else if key.len() == 8 {
        table_len_8(key)
    } else if key.len() == 9 {
        table_len_9(key)
    } else if key.len() == 10 {
        table_len_10(key)
    } else if key.len() == 11 {
        table_len_11(key)
    } else if key.len() == 12 {
        table_len_12(key)
    } else if key.len() == 13 {
        table_len_13(key)
    } else if key.len() == 14 {
        table_len_14(key)
    } else if key.len() == 15 {
        table_len_15(key)
    } else if key.len() == 16 {
        table_len_16(key)
    } else if key.len() == 18 {
        table_len_18(key)
    } else if key.len() == 19 {
        table_len_19(key)
    } else if key.len() == 45 {
        table_len_45(key)
    } else {
        None
    }
}

fn find_len_2(key: &[u8]) -> (r: Option<Decoder>)
    requires
        key@.len() == 2,
    ensures
        r == table_len_2(key@),
{
    if key[0] == 108 && key[1] == 49 {
        // l1
        Some(Decoder::Iso8859_1)
    } else if key[0] == 108 && key[1] == 50 {
        // l2
        Some(Decoder::Iso8859_2)
    } else if key[0] == 108 && key[1] == 51 {
        // l3
        Some(Decoder::Iso8859_3)
    } else if key[0] == 108 && key[1] == 52 {
        // l4
        Some(Decoder::Iso8859_4)
    } else if key[0] == 108 && key[1] == 53 {
        // l5
        Some(Decoder::Iso8859_9)
    } else if key[0] == 108 && key[1] == 54 {
        // l6
        Some(Decoder::Iso8859_10)
    } else if key[0] == 108 && key[1] == 56 {
        // l8
        Some(Decoder::Iso8859_14)
    } else {
        None
    }
}

fn find_len_3(key: &[u8]) -> (r: Option<Decoder>)
    requires
        key@.len() == 3,
    ensures
        r == table_len_3(key@),
{
    if key[0] == 56 && key[1] == 53 && key[2] == 48 {
        // 850
        Some(Decoder::Ibm850)
    } else if key[0] == 56 && key[1] == 54 && key[2] == 54 {
        // 866
        Some(Decoder::Ibm866)
    } else if key[0] == 103 && key[1] == 98 && key[2] == 107 {
        // gbk
        Some(Decoder::Gbk)
    } else if key[0] == 108 && key[1] == 49 && key[2] == 48 {
        // l10
        Some(Decoder::Iso8859_16)
    } else if key[0] == 109 && key[1] == 97 && key[2] == 99 {
        // mac
        Some(Decoder::Macintosh)
    } else {
        None
    }
}

fn find_len_4(key: &[u8]) -> (r: Option<Decoder>)
    requires
        key@.len() == 4,
    ensures
        r == table_len_4(key@),
{
    if key[0] == 98 && key[1] == 105 && key[2] == 103 && key[3] == 53 {
        // big5
        Some(Decoder::Big5)
    } else {
        None
    }
}

fn find_len_5(key: &[u8]) -> (r: Option<Decoder>)
    requires
        key@.len() == 5,
    ensures
        r == table_len_5(key@),
{
    if key[0] == 99 && key[1] == 112 && key[2] == 56 && key[3] == 49 && key[4] == 57 {
        // cp819
        Some(Decoder::Iso8859_1)
    } else if key[0] == 99 && key[1] == 112 && key[2] == 56 && key[3] == 53 && key[4] == 48 {
        // cp850
        Some(Decoder::Ibm850)
    } else if key[0] == 99 && key[1] == 112 && key[2] == 56 && key[3] == 54 && key[4] == 54 {
        // cp866
        Some(Decoder::Ibm866)
    } else if key[0] == 99 && key[1] == 112 && key[2] == 57 && key[3] == 51 && key[4] == 54 {
        // cp936
        Some(Decoder::Gbk)
    } else if key[0] == 99 && key[1] == 115 && key[2] == 103 && key[3] == 98 && key[4] == 107 {
        // csgbk
        Some(Decoder::Gbk)
    } else if key[0] == 103 && key[1] == 114 && key[2] == 101 && key[3] == 101 && key[4] == 107 {
        // greek
        Some(Decoder::Iso8859_7)
    } else if key[0] == 109 && key[1] == 115 && key[2] == 57 && key[3] == 51 && key[4] == 54 {
        // ms936
        Some(Decoder::Gbk)
    } else if key[0] == 117 && key[1] == 116 && key[2] == 102 && key[3] == 95 && key[4] == 55 {
        // utf_7
        Some(Decoder::Utf7)
    } else {
        None
    }
}

fn find_len_6(key: &[u8]) -> (r: Option<Decoder>)
    requires
        key@.len() == 6,
    ensures
        r == table_len_6(key@),
{
    if key[0] == 97 && key[1] == 114 && key[2] == 97 && key[3] == 98 && key[4] == 105
        && key[5] == 99 {
        // arabic
        Some(Decoder::Iso8859_6)
    } else if key[0] == 99 && key[1] == 115 && key[2] == 98 && key[3] == 105 && key[4] == 103
        && key[5] == 53 {
        // csbig5
        Some(Decoder::Big5)
    } else if key[0] == 99 && key[1] == 115 && key[2] == 117 && key[3] == 116 && key[4] == 102
        && key[5] == 55 {
        // csutf7
        Some(Decoder::Utf7)
    } else if key[0] == 101 && key[1] == 117 && key[2] == 99 && key[3] == 95 && key[4] == 106
        && key[5] == 112 {
        // euc_jp
        Some(Decoder::EucJp)
    } else if key[0] == 101 && key[1] == 117 && key[2] == 99 && key[3] == 95 && key[4] == 107
        && key[5] == 114 {
        // euc_kr
        Some(Decoder::EucKr)
    } else if key[0] == 103 && key[1] == 98 && key[2] == 50 && key[3] == 51 && key[4] == 49
        && key[5] == 50 {
        // gb2312
        Some(Decoder::Gb18030)
    } else if key[0] == 103 && key[1] == 114 && key[2] == 101 && key[3] == 101 && key[4] == 107
        && key[5] == 56 {
        // greek8
        Some(Decoder::Iso8859_7)
    } else if key[0] == 104 && key[1] == 101 && key[2] == 98 && key[3] == 114 && key[4] == 101
        && key[5] == 119 {
        // hebrew
        Some(Decoder::Iso8859_8)
    } else if key[0] == 105 && key[1] == 98 && key[2] == 109 && key[3] == 56 && key[4] == 49
        && key[5] == 57 {
        // ibm819
        Some(Decoder::Iso8859_1)
    } else if key[0] == 105 && key[1] == 98 && key[2] == 109 && key[3] == 56 && key[4] == 53
        && key[5] == 48 {
        // ibm850
        Some(Decoder::Ibm850)
    } else if key[0] == 105 && key[1] == 98 && key[2] == 109 && key[3] == 56 && key[4] == 54
        && key[5] == 54 {
        // ibm866
        Some(Decoder::Ibm866)
    } else if key[0] == 107 && key[1] == 111 && key[2] == 105 && key[3] == 56 && key[4] == 95
        && key[5] == 114 {
        // koi8_r
        Some(Decoder::Koi8R)
    } else if key[0] == 107 && key[1] == 111 && key[2] == 105 && key[3] == 56 && key[4] == 95
        && key[5] == 117 {
        // koi8_u
        Some(Decoder::Koi8U)
    } else if key[0] == 108 && key[1] == 97 && key[2] == 116 && key[3] == 105 && key[4] == 110
        && key[5] == 49 {
        // latin1
        Some(Decoder::Iso8859_1)
    } else if key[0] == 108 && key[1] == 97 && key[2] == 116 && key[3] == 105 && key[4] == 110
        && key[5] == 50 {
        // latin2
        Some(Decoder::Iso8859_2)
    } else if key[0] == 108 && key[1] == 97 && key[2] == 116 && key[3] == 105 && key[4] == 110
        && key[5] == 51 {
        // latin3
        Some(Decoder::Iso8859_3)
    } else if key[0] == 108 && key[1] == 97 && key[2] == 116 && key[3] == 105 && key[4] == 110
        && key[5] == 52 {
        // latin4
        Some(Decoder::Iso8859_4)
    } else if key[0] == 108 && key[1] == 97 && key[2] == 116 && key[3] == 105 && key[4] == 110
        && key[5] == 53 {
        // latin5
        Some(Decoder::Iso8859_9)
    } else if key[0] == 108 && key[1] == 97 && key[2] == 116 && key[3] == 105 && key[4] == 110
        && key[5] == 54 {
        // latin6
        Some(Decoder::Iso8859_10)
    } else if key[0] == 108 && key[1] == 97 && key[2] == 116 && key[3] == 105 && key[4] == 110
        && key[5] == 56 {
        // latin8
        Some(Decoder::Iso8859_14)
    } else if key[0] == 117 && key[1] == 116 && key[2] == 102 && key[3] == 95 && key[4] == 49
        && key[5] == 54 {
        // utf_16
        Some(Decoder::Utf16)
    } else {
        None
    }
}

fn find_len_7(key: &[u8]) -> (r: Option<Decoder>)
    requires
        key@.len() == 7,
    ensures
        r == table_len_7(key@),
{
    if key[0] == 99 && key[1] == 115 && key[2] == 101 && key[3] == 117 && key[4] == 99
        && key[5] == 107 && key[6] == 114 {
        // cseuckr
        Some(Decoder::EucKr)
    } else if key[0] == 99 && key[1] == 115 && key[2] == 107 && key[3] == 111 && key[4] == 105
        && key[5] == 56 && key[6] == 114 {
        // cskoi8r
        Some(Decoder::Koi8R)
    } else if key[0] == 99 && key[1] == 115 && key[2] == 107 && key[3] == 111 && key[4] == 105
        && key[5] == 56 && key[6] == 117 {
        // cskoi8u
        Some(Decoder::Koi8U)
    } else if key[0] == 99 && key[1] == 115 && key[2] == 117 && key[3] == 116 && key[4] == 102
        && key[5] == 49 && key[6] == 54 {
        // csutf16
        Some(Decoder::Utf16)
    } else if key[0] == 103 && key[1] == 98 && key[2] == 49 && key[3] == 56 && key[4] == 48
        && key[5] == 51 && key[6] == 48 {
        // gb18030
        Some(Decoder::Gb18030)
    } else if key[0] == 108 && key[1] == 97 && key[2] == 116 && key[3] == 105 && key[4] == 110
        && key[5] == 49 && key[6] == 48 {
        // latin10
        Some(Decoder::Iso8859_16)
    } else if key[0] == 108 && key[1] == 97 && key[2] == 116 && key[3] == 105 && key[4] == 110
        && key[5] == 95 && key[6] == 57 {
        // latin_9
        Some(Decoder::Iso8859_15)
    } else if key[0] == 116 && key[1] == 105 && key[2] == 115 && key[3] == 95 && key[4] == 54
        && key[5] == 50 && key[6] == 48 {
        // tis_620
        Some(Decoder::Tis620)
    } else {
        None
    }
}

fn find_len_8(key: &[u8]) -> (r: Option<Decoder>)
    requires
        key@.len() == 8,
    ensures
        r == table_len_8(key@),
{
    if key[0] == 97 && key[1] == 115 && key[2] == 109 && key[3] == 111 && key[4] == 95
        && key[5] == 55 && key[6] == 48 && key[7] == 56 {
        // asmo_708
        Some(Decoder::Iso8859_6)
    } else if key[0] == 99 && key[1] == 115 && key[2] == 105 && key[3] == 98 && key[4] == 109
        && key[5] == 56 && key[6] == 54 && key[7] == 54 {
        // csibm866
        Some(Decoder::Ibm866)
    } else if key[0] == 99 && key[1] == 115 && key[2] == 116 && key[3] == 105 && key[4] == 115
        && key[5] == 54 && key[6] == 50 && key[7] == 48 {
        // cstis620
        Some(Decoder::Tis620)
    } else if key[0] == 99 && key[1] == 121 && key[2] == 114 && key[3] == 105 && key[4] == 108
        && key[5] == 108 && key[6] == 105 && key[7] == 99 {
        // cyrillic
        Some(Decoder::Iso8859_5)
    } else if key[0] == 101 && key[1] == 99 && key[2] == 109 && key[3] == 97 && key[4] == 95
        && key[5] == 49 && key[6] == 49 && key[7] == 52 {
        // ecma_114
        Some(Decoder::Iso8859_6)
    } else if key[0] == 101 && key[1] == 99 && key[2] == 109 && key[3] == 97 && key[4] == 95
        && key[5] == 49 && key[6] == 49 && key[7] == 56 {
        // ecma_118
        Some(Decoder::Iso8859_7)
    } else if key[0] == 101 && key[1] == 108 && key[2] == 111 && key[3] == 116 && key[4] == 95
        && key[5] == 57 && key[6] == 50 && key[7] == 56 {
        // elot_928
        Some(Decoder::Iso8859_7)
    } else if key[0] == 109 && key[1] == 115 && key[2] == 95 && key[3] == 107 && key[4] == 97
        && key[5] == 110 && key[6] == 106 && key[7] == 105 {
        // ms_kanji
        Some(Decoder::ShiftJis)
    } else if key[0] == 117 && key[1] == 116 && key[2] == 102 && key[3] == 95 && key[4] == 49
        && key[5] == 54 && key[6] == 98 && key[7] == 101 {
        // utf_16be
        Some(Decoder::Utf16Be)
    } else if key[0] == 117 && key[1] == 116 && key[2] == 102 && key[3] == 95 && key[4] == 49
        && key[5] == 54 && key[6] == 108 && key[7] == 101 {
        // utf_16le
        Some(Decoder::Utf16Le)
    } else {
        None
    }
}

fn find_len_9(key: &[u8]) -> (r: Option<Decoder>)
    requires
        key@.len() == 9,
    ensures
        r == table_len_9(key@),
{
    if key[0] == 99 && key[1] == 115 && key[2] == 103 && key[3] == 98 && key[4] == 49
        && key[5] == 56 && key[6] == 48 && key[7] == 51 && key[8] == 48 {
        // csgb18030
        Some(Decoder::Gb18030)
    } else if key[0] == 99 && key[1] == 115 && key[2] == 117 && key[3] == 116 && key[4] == 102
        && key[5] == 49 && key[6] == 54 && key[7] == 98 && key[8] == 101 {
        // csutf16be
        Some(Decoder::Utf16Be)
    } else if key[0] == 99 && key[1] == 115 && key[2] == 117 && key[3] == 116 && key[4] == 102
        && key[5] == 49 && key[6] == 54 && key[7] == 108 && key[8] == 101 {
        // csutf16le
        Some(Decoder::Utf16Le)
    } else if key[0] == 109 && key[1] == 97 && key[2] == 99 && key[3] == 105 && key[4] == 110
        && key[5] == 116 && key[6] == 111 && key[7] == 115 && key[8] == 104 {
        // macintosh
        Some(Decoder::Macintosh)
    } else if key[0] == 115 && key[1] == 104 && key[2] == 105 && key[3] == 102 && key[4] == 116
        && key[5] == 95 && key[6] == 106 && key[7] == 105 && key[8] == 115 {
        // shift_jis
        Some(Decoder::ShiftJis)
    } else {
        None
    }
}

fn find_len_10(key: &[u8]) -> (r: Option<Decoder>)
    requires
        key@.len() == 10,
    ensures
        r == table_len_10(key@),
{
    if key[0] == 99 && key[1] == 115 && key[2] == 115 && key[3] == 104 && key[4] == 105
        && key[5] == 102 && key[6] == 116 && key[7] == 106 && key[8] == 105 && key[9] == 115 {
        // csshiftjis
        Some(Decoder::ShiftJis)
    } else if key[0] == 105 && key[1] == 115 && key[2] == 111 && key[3] == 95 && key[4] == 56
        && key[5] == 56 && key[6] == 53 && key[7] == 57 && key[8] == 95 && key[9] == 49 {
        // iso_8859_1
        Some(Decoder::Iso8859_1)
    } else if key[0] == 105 && key[1] == 115 && key[2] == 111 && key[3] == 95 && key[4] == 56
        && key[5] == 56 && key[6] == 53 && key[7] == 57 && key[8] == 95 && key[9] == 50 {
        // iso_8859_2
        Some(Decoder::Iso8859_2)
    } else if key[0] == 105 && key[1] == 115 && key[2] == 111 && key[3] == 95 && key[4] == 56
        && key[5] == 56 && key[6] == 53 && key[7] == 57 && key[8] == 95 && key[9] == 51 {
        // iso_8859_3
        Some(Decoder::Iso8859_3)
    } else if key[0] == 105 && key[1] == 115 && key[2] == 111 && key[3] == 95 && key[4] == 56
        && key[5] == 56 && key[6] == 53 && key[7] == 57 && key[8] == 95 && key[9] == 52 {
        // iso_8859_4
        Some(Decoder::Iso8859_4)
    } else if key[0] == 105 && key[1] == 115 && key[2] == 111 && key[3] == 95 && key[4] == 56
        && key[5] == 56 && key[6] == 53 && key[7] == 57 && key[8] == 95 && key[9] == 53 {
        // iso_8859_5
        Some(Decoder::Iso8859_5)
    } else if key[0] == 105 && key[1] == 115 && key[2] == 111 && key[3] == 95 && key[4] == 56
        && key[5] == 56 && key[6] == 53 && key[7] == 57 && key[8] == 95 && key[9] == 54 {
        // iso_8859_6
        Some(Decoder::Iso8859_6)
    } else if key[0] == 105 && key[1] == 115 && key[2] == 111 && key[3] == 95 && key[4] == 56
        && key[5] == 56 && key[6] == 53 && key[7] == 57 && key[8] == 95 && key[9] == 55 {
        // iso_8859_7
        Some(Decoder::Iso8859_7)
    } else if key[0] == 105 && key[1] == 115 && key[2] == 111 && key[3] == 95 && key[4] == 56
        && key[5] == 56 && key[6] == 53 && key[7] == 57 && key[8] == 95 && key[9] == 56 {
        // iso_8859_8
        Some(Decoder::Iso8859_8)
    } else if key[0] == 105 && key[1] == 115 && key[2] == 111 && key[3] == 95 && key[4] == 56
        && key[5] == 56 && key[6] == 53 && key[7] == 57 && key[8] == 95 && key[9] == 57 {
        // iso_8859_9
        Some(Decoder::Iso8859_9)
    } else if key[0] == 105 && key[1] == 115 && key[2] == 111 && key[3] == 95 && key[4] == 99
        && key[5] == 101 && key[6] == 108 && key[7] == 116 && key[8] == 105 && key[9] == 99 {
        // iso_celtic
        Some(Decoder::Iso8859_14)
    } else if key[0] == 105 && key[1] == 115 && key[2] == 111 && key[3] == 95 && key[4] == 105
        && key[5] == 114 && key[6] == 95 && key[7] == 49 && key[8] == 48 && key[9] == 48 {
        // iso_ir_100
        Some(Decoder::Iso8859_1)
    } else if key[0] == 105 && key[1] == 115 && key[2] == 111 && key[3] == 95 && key[4] == 105
        && key[5] == 114 && key[6] == 95 && key[7] == 49 && key[8] == 48 && key[9] == 49 {
        // iso_ir_101
        Some(Decoder::Iso8859_2)
    } else if key[0] == 105 && key[1] == 115 && key[2] == 111 && key[3] == 95 && key[4] == 105
        && key[5] == 114 && key[6] == 95 && key[7] == 49 && key[8] == 48 && key[9] == 57 {
        // iso_ir_109
        Some(Decoder::Iso8859_3)
    } else if key[0] == 105 && key[1] == 115 && key[2] == 111 && key[3] == 95 && key[4] == 105
        && key[5] == 114 && key[6] == 95 && key[7] == 49 && key[8] == 49 && key[9] == 48 {
        // iso_ir_110
        Some(Decoder::Iso8859_4)
    } else if key[0] == 105 && key[1] == 115 && key[2] == 111 && key[3] == 95 && key[4] == 105
        && key[5] == 114 && key[6] == 95 && key[7] == 49 && key[8] == 50 && key[9] == 54 {
        // iso_ir_126
        Some(Decoder::Iso8859_7)
    } else if key[0] == 105 && key[1] == 115 && key[2] == 111 && key[3] == 95 && key[4] == 105
        && key[5] == 114 && key[6] == 95 && key[7] == 49 && key[8] == 50 && key[9] == 55 {
        // iso_ir_127
        Some(Decoder::Iso8859_6)
    } else if key[0] == 105 && key[1] == 115 && key[2] == 111 && key[3] == 95 && key[4] == 105
        && key[5] == 114 && key[6] == 95 && key[7] == 49 && key[8] == 51 && key[9] == 56 {
        // iso_ir_138
        Some(Decoder::Iso8859_8)
    } else if key[0] == 105 && key[1] == 115 && key[2] == 111 && key[3] == 95 && key[4] == 105
        && key[5] == 114 && key[6] == 95 && key[7] == 49 && key[8] == 52 && key[9] == 52 {
        // iso_ir_144
        Some(Decoder::Iso8859_5)
    } else if key[0] == 105 && key[1] == 115 && key[2] == 111 && key[3] == 95 && key[4] == 105
        && key[5] == 114 && key[6] == 95 && key[7] == 49 && key[8] == 52 && key[9] == 56 {
        // iso_ir_148
        Some(Decoder::Iso8859_9)
    } else if key[0] == 105 && key[1] == 115 && key[2] == 111 && key[3] == 95 && key[4] == 105
        && key[5] == 114 && key[6] == 95 && key[7] == 49 && key[8] == 53 && key[9] == 55 {
        // iso_ir_157
        Some(Decoder::Iso8859_10)
    } else if key[0] == 105 && key[1] == 115 && key[2] == 111 && key[3] == 95 && key[4] == 105
        && key[5] == 114 && key[6] == 95 && key[7] == 49 && key[8] == 57 && key[9] == 57 {
        // iso_ir_199
        Some(Decoder::Iso8859_14)
    } else if key[0] == 105 && key[1] == 115 && key[2] == 111 && key[3] == 95 && key[4] == 105
        && key[5] == 114 && key[6] == 95 && key[7] == 50 && key[8] == 50 && key[9] == 54 {
        // iso_ir_226
        Some(Decoder::Iso8859_16)
    } else {
        None
    }
}

fn find_len_11(key: &[u8]) -> (r: Option<Decoder>)
    requires
        key@.len() == 11,
    ensures
        r == table_len_11(key@),
{
    if key[0] == 99 && key[1] == 115 && key[2] == 105 && key[3] == 115 && key[4] == 111
        && key[5] == 50 && key[6] == 48 && key[7] == 50 && key[8] == 50 && key[9] == 106
        && key[10] == 112 {
        // csiso2022jp
        Some(Decoder::Iso2022Jp)
    } else if key[0] == 99 && key[1] == 115 && key[2] == 105 && key[3] == 115 && key[4] == 111
        && key[5] == 56 && key[6] == 56 && key[7] == 53 && key[8] == 57 && key[9] == 49
        && key[10] == 51 {
        // csiso885913
        Some(Decoder::Iso8859_13)
    } else if key[0] == 99 && key[1] == 115 && key[2] == 105 && key[3] == 115 && key[4] == 111
        && key[5] == 56 && key[6] == 56 && key[7] == 53 && key[8] == 57 && key[9] == 49
        && key[10] == 52 {
        // csiso885914
        Some(Decoder::Iso8859_14)
    } else if key[0] == 99 && key[1] == 115 && key[2] == 105 && key[3] == 115 && key[4] == 111
        && key[5] == 56 && key[6] == 56 && key[7] == 53 && key[8] == 57 && key[9] == 49
        && key[10] == 53 {
        // csiso885915
        Some(Decoder::Iso8859_15)
    } else if key[0] == 99 && key[1] == 115 && key[2] == 105 && key[3] == 115 && key[4] == 111
        && key[5] == 56 && key[6] == 56 && key[7] == 53 && key[8] == 57 && key[9] == 49
        && key[10] == 54 {
        // csiso885916
        Some(Decoder::Iso8859_16)
    } else if key[0] == 99 && key[1] == 115 && key[2] == 105 && key[3] == 115 && key[4] == 111
        && key[5] == 108 && key[6] == 97 && key[7] == 116 && key[8] == 105 && key[9] == 110
        && key[10] == 49 {
        // csisolatin1
        Some(Decoder::Iso8859_1)
    } else if key[0] == 99 && key[1] == 115 && key[2] == 105 && key[3] == 115 && key[4] == 111
        && key[5] == 108 && key[6] == 97 && key[7] == 116 && key[8] == 105 && key[9] == 110
        && key[10] == 50 {
        // csisolatin2
        Some(Decoder::Iso8859_2)
    } else if key[0] == 99 && key[1] == 115 && key[2] == 105 && key[3] == 115 && key[4] == 111
        && key[5] == 108 && key[6] == 97 && key[7] == 116 && key[8] == 105 && key[9] == 110
        && key[10] == 51 {
        // csisolatin3
        Some(Decoder::Iso8859_3)
    } else if key[0] == 99 && key[1] == 115 && key[2] == 105 && key[3] == 115 && key[4] == 111
        && key[5] == 108 && key[6] == 97 && key[7] == 116 && key[8] == 105 && key[9] == 110
        && key[10] == 52 {
        // csisolatin4
        Some(Decoder::Iso8859_4)
    } else if key[0] == 99 && key[1] == 115 && key[2] == 105 && key[3] == 115 && key[4] == 111
        && key[5] == 108 && key[6] == 97 && key[7] == 116 && key[8] == 105 && key[9] == 110
        && key[10] == 53 {
        // csisolatin5
        Some(Decoder::Iso8859_9)
    } else if key[0] == 99 && key[1] == 115 && key[2] == 105 && key[3] == 115 && key[4] == 111
        && key[5] == 108 && key[6] == 97 && key[7] == 116 && key[8] == 105 && key[9] == 110
        && key[10] == 54 {
        // csisolatin6
        Some(Decoder::Iso8859_10)
    } else if key[0] == 99 && key[1] == 115 && key[2] == 109 && key[3] == 97 && key[4] == 99
        && key[5] == 105 && key[6] == 110 && key[7] == 116 && key[8] == 111 && key[9] == 115
        && key[10] == 104 {
        // csmacintosh
        Some(Decoder::Macintosh)
    } else if key[0] == 105 && key[1] == 115 && key[2] == 111 && key[3] == 95 && key[4] == 50
        && key[5] == 48 && key[6] == 50 && key[7] == 50 && key[8] == 95 && key[9] == 106
        && key[10] == 112 {
        // iso_2022_jp
        Some(Decoder::Iso2022Jp)
    } else if key[0] == 105 && key[1] == 115 && key[2] == 111 && key[3] == 95 && key[4] == 56
        && key[5] == 56 && key[6] == 53 && key[7] == 57 && key[8] == 95 && key[9] == 49
        && key[10] == 48 {
        // iso_8859_10
        Some(Decoder::Iso8859_10)
    } else if key[0] == 105 && key[1] == 115 && key[2] == 111 && key[3] == 95 && key[4] == 56
        && key[5] == 56 && key[6] == 53 && key[7] == 57 && key[8] == 95 && key[9] == 49
        && key[10] == 49 {
        // iso_8859_11
        Some(Decoder::Tis620)
    } else if key[0] == 105 && key[1] == 115 && key[2] == 111 && key[3] == 95 && key[4] == 56
        && key[5] == 56 && key[6] == 53 && key[7] == 57 && key[8] == 95 && key[9] == 49
        && key[10] == 51 {
        // iso_8859_13
        Some(Decoder::Iso8859_13)
    } else if key[0] == 105 && key[1] == 115 && key[2] == 111 && key[3] == 95 && key[4] == 56
        && key[5] == 56 && key[6] == 53 && key[7] == 57 && key[8] == 95 && key[9] == 49
        && key[10] == 52 {
        // iso_8859_14
        Some(Decoder::Iso8859_14)
    } else if key[0] == 105 && key[1] == 115 && key[2] == 111 && key[3] == 95 && key[4] == 56
        && key[5] == 56 && key[6] == 53 && key[7] == 57 && key[8] == 95 && key[9] == 49
        && key[10] == 53 {
        // iso_8859_15
        Some(Decoder::Iso8859_15)
    } else if key[0] == 105 && key[1] == 115 && key[2] == 111 && key[3] == 95 && key[4] == 56
        && key[5] == 56 && key[6] == 53 && key[7] == 57 && key[8] == 95 && key[9] == 49
        && key[10] == 54 {
        // iso_8859_16
        Some(Decoder::Iso8859_16)
    } else if key[0] == 119 && key[1] == 105 && key[2] == 110 && key[3] == 100 && key[4] == 111
        && key[5] == 119 && key[6] == 115 && key[7] == 95 && key[8] == 56 && key[9] == 55
        && key[10] == 52 {
        // windows_874
        Some(Decoder::Windows874)
    } else if key[0] == 119 && key[1] == 105 && key[2] == 110 && key[3] == 100 && key[4] == 111
        && key[5] == 119 && key[6] == 115 && key[7] == 95 && key[8] == 57 && key[9] == 51
        && key[10] == 54 {
        // windows_936
        Some(Decoder::Gbk)
    } else {
        None
    }
}

fn find_len_12(key: &[u8]) -> (r: Option<Decoder>)
    requires
        key@.len() == 12,
    ensures
        r == table_len_12(key@),
{
    if key[0] == 99 && key[1] == 115 && key[2] == 119 && key[3] == 105 && key[4] == 110
        && key[5] == 100 && key[6] == 111 && key[7] == 119 && key[8] == 115 && key[9] == 56
        && key[10] == 55 && key[11] == 52 {
        // cswindows874
        Some(Decoder::Windows874)
    } else if key[0] == 119 && key[1] == 105 && key[2] == 110 && key[3] == 100 && key[4] == 111
        && key[5] == 119 && key[6] == 115 && key[7] == 95 && key[8] == 49 && key[9] == 50
        && key[10] == 53 && key[11] == 48 {
        // windows_1250
        Some(Decoder::Cp1250)
    } else if key[0] == 119 && key[1] == 105 && key[2] == 110 && key[3] == 100 && key[4] == 111
        && key[5] == 119 && key[6] == 115 && key[7] == 95 && key[8] == 49 && key[9] == 50
        && key[10] == 53 && key[11] == 49 {
        // windows_1251
        Some(Decoder::Cp1251)
    } else if key[0] == 119 && key[1] == 105 && key[2] == 110 && key[3] == 100 && key[4] == 111
        && key[5] == 119 && key[6] == 115 && key[7] == 95 && key[8] == 49 && key[9] == 50
        && key[10] == 53 && key[11] == 50 {
        // windows_1252
        Some(Decoder::Cp1252)
    } else if key[0] == 119 && key[1] == 105 && key[2] == 110 && key[3] == 100 && key[4] == 111
        && key[5] == 119 && key[6] == 115 && key[7] == 95 && key[8] == 49 && key[9] == 50
        && key[10] == 53 && key[11] == 51 {
        // windows_1253
        Some(Decoder::Cp1253)
    } else if key[0] == 119 && key[1] == 105 && key[2] == 110 && key[3] == 100 && key[4] == 111
        && key[5] == 119 && key[6] == 115 && key[7] == 95 && key[8] == 49 && key[9] == 50
        && key[10] == 53 && key[11] == 52 {
        // windows_1254
        Some(Decoder::Cp1254)
    } else if key[0] == 119 && key[1] == 105 && key[2] == 110 && key[3] == 100 && key[4] == 111
        && key[5] == 119 && key[6] == 115 && key[7] == 95 && key[8] == 49 && key[9] == 50
        && key[10] == 53 && key[11] == 53 {
        // windows_1255
        Some(Decoder::Cp1255)
    } else if key[0] == 119 && key[1] == 105 && key[2] == 110 && key[3] == 100 && key[4] == 111
        && key[5] == 119 && key[6] == 115 && key[7] == 95 && key[8] == 49 && key[9] == 50
        && key[10] == 53 && key[11] == 54 {
        // windows_1256
        Some(Decoder::Cp1256)
    } else if key[0] == 119 && key[1] == 105 && key[2] == 110 && key[3] == 100 && key[4] == 111
        && key[5] == 119 && key[6] == 115 && key[7] == 95 && key[8] == 49 && key[9] == 50
        && key[10] == 53 && key[11] == 55 {
        // windows_1257
        Some(Decoder::Cp1257)
    } else if key[0] == 119 && key[1] == 105 && key[2] == 110 && key[3] == 100 && key[4] == 111
        && key[5] == 119 && key[6] == 115 && key[7] == 95 && key[8] == 49 && key[9] == 50
        && key[10] == 53 && key[11] == 56 {
        // windows_1258
        Some(Decoder::Cp1258)
    } else {
        None
    }
}

fn find_len_13(key: &[u8]) -> (r: Option<Decoder>)
    requires
        key@.len() == 13,
    ensures
        r == table_len_13(key@),
{
    if key[0] == 99 && key[1] == 115 && key[2] == 119 && key[3] == 105 && key[4] == 110
        && key[5] == 100 && key[6] == 111 && key[7] == 119 && key[8] == 115 && key[9] == 49
        && key[10] == 50 && key[11] == 53 && key[12] == 48 {
        // cswindows1250
        Some(Decoder::Cp1250)
    } else if key[0] == 99 && key[1] == 115 && key[2] == 119 && key[3] == 105 && key[4] == 110
        && key[5] == 100 && key[6] == 111 && key[7] == 119 && key[8] == 115 && key[9] == 49
        && key[10] == 50 && key[11] == 53 && key[12] == 49 {
        // cswindows1251
        Some(Decoder::Cp1251)
    } else if key[0] == 99 && key[1] == 115 && key[2] == 119 && key[3] == 105 && key[4] == 110
        && key[5] == 100 && key[6] == 111 && key[7] == 119 && key[8] == 115 && key[9] == 49
        && key[10] == 50 && key[11] == 53 && key[12] == 50 {
        // cswindows1252
        Some(Decoder::Cp1252)
    } else if key[0] == 99 && key[1] == 115 && key[2] == 119 && key[3] == 105 && key[4] == 110
        && key[5] == 100 && key[6] == 111 && key[7] == 119 && key[8] == 115 && key[9] == 49
        && key[10] == 50 && key[11] == 53 && key[12] == 51 {
        // cswindows1253
        Some(Decoder::Cp1253)
    } else if key[0] == 99 && key[1] == 115 && key[2] == 119 && key[3] == 105 && key[4] == 110
        && key[5] == 100 && key[6] == 111 && key[7] == 119 && key[8] == 115 && key[9] == 49
        && key[10] == 50 && key[11] == 53 && key[12] == 52 {
        // cswindows1254
        Some(Decoder::Cp1254)
    } else if key[0] == 99 && key[1] == 115 && key[2] == 119 && key[3] == 105 && key[4] == 110
        && key[5] == 100 && key[6] == 111 && key[7] == 119 && key[8] == 115 && key[9] == 49
        && key[10] == 50 && key[11] == 53 && key[12] == 53 {
        // cswindows1255
        Some(Decoder::Cp1255)
    } else if key[0] == 99 && key[1] == 115 && key[2] == 119 && key[3] == 105 && key[4] == 110
        && key[5] == 100 && key[6] == 111 && key[7] == 119 && key[8] == 115 && key[9] == 49
        && key[10] == 50 && key[11] == 53 && key[12] == 54 {
        // cswindows1256
        Some(Decoder::Cp1256)
    } else if key[0] == 99 && key[1] == 115 && key[2] == 119 && key[3] == 105 && key[4] == 110
        && key[5] == 100 && key[6] == 111 && key[7] == 119 && key[8] == 115 && key[9] == 49
        && key[10] == 50 && key[11] == 53 && key[12] == 55 {
        // cswindows1257
        Some(Decoder::Cp1257)
    } else if key[0] == 99 && key[1] == 115 && key[2] == 119 && key[3] == 105 && key[4] == 110
        && key[5] == 100 && key[6] == 111 && key[7] == 119 && key[8] == 115 && key[9] == 49
        && key[10] == 50 && key[11] == 53 && key[12] == 56 {
        // cswindows1258
        Some(Decoder::Cp1258)
    } else {
        None
    }
}

fn find_len_14(key: &[u8]) -> (r: Option<Decoder>)
    requires
        key@.len() == 14,
    ensures
        r == table_len_14(key@),
{
    if key[0] == 107 && key[1] == 115 && key[2] == 95 && key[3] == 99 && key[4] == 95
        && key[5] == 53 && key[6] == 54 && key[7] == 48 && key[8] == 49 && key[9] == 95
        && key[10] == 49 && key[11] == 57 && key[12] == 56 && key[13] == 55 {
        // ks_c_5601_1987
        Some(Decoder::EucKr)
    } else if key[0] == 107 && key[1] == 115 && key[2] == 95 && key[3] == 99 && key[4] == 95
        && key[5] == 53 && key[6] == 54 && key[7] == 48 && key[8] == 49 && key[9] == 95
        && key[10] == 49 && key[11] == 57 && key[12] == 56 && key[13] == 57 {
        // ks_c_5601_1989
        Some(Decoder::EucKr)
    } else {
        None
    }
}

fn find_len_15(key: &[u8]) -> (r: Option<Decoder>)
    requires
        key@.len() == 15,
    ensures
        r == table_len_15(key@),
{
    if key[0] == 99 && key[1] == 115 && key[2] == 105 && key[3] == 115 && key[4] == 111
        && key[5] == 108 && key[6] == 97 && key[7] == 116 && key[8] == 105 && key[9] == 110
        && key[10] == 103 && key[11] == 114 && key[12] == 101 && key[13] == 101
        && key[14] == 107 {
        // csisolatingreek
        Some(Decoder::Iso8859_7)
    } else if key[0] == 105 && key[1] == 115 && key[2] == 111 && key[3] == 95 && key[4] == 56
        && key[5] == 56 && key[6] == 53 && key[7] == 57 && key[8] == 95 && key[9] == 49
        && key[10] == 58 && key[11] == 49 && key[12] == 57 && key[13] == 56 && key[14] == 55 {
        // iso_8859_1:1987
        Some(Decoder::Iso8859_1)
    } else if key[0] == 105 && key[1] == 115 && key[2] == 111 && key[3] == 95 && key[4] == 56
        && key[5] == 56 && key[6] == 53 && key[7] == 57 && key[8] == 95 && key[9] == 50
        && key[10] == 58 && key[11] == 49 && key[12] == 57 && key[13] == 56 && key[14] == 55 {
        // iso_8859_2:1987
        Some(Decoder::Iso8859_2)
    } else if key[0] == 105 && key[1] == 115 && key[2] == 111 && key[3] == 95 && key[4] == 56
        && key[5] == 56 && key[6] == 53 && key[7] == 57 && key[8] == 95 && key[9] == 51
        && key[10] == 58 && key[11] == 49 && key[12] == 57 && key[13] == 56 && key[14] == 56 {
        // iso_8859_3:1988
        Some(Decoder::Iso8859_3)
    } else if key[0] == 105 && key[1] == 115 && key[2] == 111 && key[3] == 95 && key[4] == 56
        && key[5] == 56 && key[6] == 53 && key[7] == 57 && key[8] == 95 && key[9] == 52
        && key[10] == 58 && key[11] == 49 && key[12] == 57 && key[13] == 56 && key[14] == 56 {
        // iso_8859_4:1988
        Some(Decoder::Iso8859_4)
    } else if key[0] == 105 && key[1] == 115 && key[2] == 111 && key[3] == 95 && key[4] == 56
        && key[5] == 56 && key[6] == 53 && key[7] == 57 && key[8] == 95 && key[9] == 53
        && key[10] == 58 && key[11] == 49 && key[12] == 57 && key[13] == 56 && key[14] == 56 {
        // iso_8859_5:1988
        Some(Decoder::Iso8859_5)
    } else if key[0] == 105 && key[1] == 115 && key[2] == 111 && key[3] == 95 && key[4] == 56
        && key[5] == 56 && key[6] == 53 && key[7] == 57 && key[8] == 95 && key[9] == 54
        && key[10] == 58 && key[11] == 49 && key[12] == 57 && key[13] == 56 && key[14] == 55 {
        // iso_8859_6:1987
        Some(Decoder::Iso8859_6)
    } else if key[0] == 105 && key[1] == 115 && key[2] == 111 && key[3] == 95 && key[4] == 56
        && key[5] == 56 && key[6] == 53 && key[7] == 57 && key[8] == 95 && key[9] == 55
        && key[10] == 58 && key[11] == 49 && key[12] == 57 && key[13] == 56 && key[14] == 55 {
        // iso_8859_7:1987
        Some(Decoder::Iso8859_7)
    } else if key[0] == 105 && key[1] == 115 && key[2] == 111 && key[3] == 95 && key[4] == 56
        && key[5] == 56 && key[6] == 53 && key[7] == 57 && key[8] == 95 && key[9] == 56
        && key[10] == 58 && key[11] == 49 && key[12] == 57 && key[13] == 56 && key[14] == 56 {
        // iso_8859_8:1988
        Some(Decoder::Iso8859_8)
    } else if key[0] == 105 && key[1] == 115 && key[2] == 111 && key[3] == 95 && key[4] == 56
        && key[5] == 56 && key[6] == 53 && key[7] == 57 && key[8] == 95 && key[9] == 57
        && key[10] == 58 && key[11] == 49 && key[12] == 57 && key[13] == 56 && key[14] == 57 {
        // iso_8859_9:1989
        Some(Decoder::Iso8859_9)
    } else {
        None
    }
}

fn find_len_16(key: &[u8]) -> (r: Option<Decoder>)
    requires
        key@.len() == 16,
    ensures
        r == table_len_16(key@),
{
    if key[0] == 99 && key[1] == 115 && key[2] == 105 && key[3] == 115 && key[4] == 111
        && key[5] == 108 && key[6] == 97 && key[7] == 116 && key[8] == 105 && key[9] == 110
        && key[10] == 97 && key[11] == 114 && key[12] == 97 && key[13] == 98 && key[14] == 105
        && key[15] == 99 {
        // csisolatinarabic
        Some(Decoder::Iso8859_6)
    } else if key[0] == 99 && key[1] == 115 && key[2] == 105 && key[3] == 115 && key[4] == 111
        && key[5] == 108 && key[6] == 97 && key[7] == 116 && key[8] == 105 && key[9] == 110
        && key[10] == 104 && key[11] == 101 && key[12] == 98 && key[13] == 114 && key[14] == 101
        && key[15] == 119 {
        // csisolatinhebrew
        Some(Decoder::Iso8859_8)
    } else if key[0] == 105 && key[1] == 115 && key[2] == 111 && key[3] == 95 && key[4] == 56
        && key[5] == 56 && key[6] == 53 && key[7] == 57 && key[8] == 95 && key[9] == 49
        && key[10] == 48 && key[11] == 58 && key[12] == 49 && key[13] == 57 && key[14] == 57
        && key[15] == 50 {
        // iso_8859_10:1992
        Some(Decoder::Iso8859_10)
    } else if key[0] == 105 && key[1] == 115 && key[2] == 111 && key[3] == 95 && key[4] == 56
        && key[5] == 56 && key[6] == 53 && key[7] == 57 && key[8] == 95 && key[9] == 49
        && key[10] == 52 && key[11] == 58 && key[12] == 49 && key[13] == 57 && key[14] == 57
        && key[15] == 56 {
        // iso_8859_14:1998
        Some(Decoder::Iso8859_14)
    } else if key[0] == 105 && key[1] == 115 && key[2] == 111 && key[3] == 95 && key[4] == 56
        && key[5] == 56 && key[6] == 53 && key[7] == 57 && key[8] == 95 && key[9] == 49
        && key[10] == 54 && key[11] == 58 && key[12] == 50 && key[13] == 48 && key[14] == 48
        && key[15] == 49 {
        // iso_8859_16:2001
        Some(Decoder::Iso8859_16)
    } else {
        None
    }
}

fn find_len_18(key: &[u8]) -> (r: Option<Decoder>)
    requires
        key@.len() == 18,
    ensures
        r == table_len_18(key@),
{
    if key[0] == 99 && key[1] == 115 && key[2] == 105 && key[3] == 115 && key[4] == 111
        && key[5] == 108 && key[6] == 97 && key[7] == 116 && key[8] == 105 && key[9] == 110
        && key[10] == 99 && key[11] == 121 && key[12] == 114 && key[13] == 105 && key[14] == 108
        && key[15] == 108 && key[16] == 105 && key[17] == 99 {
        // csisolatincyrillic
        Some(Decoder::Iso8859_5)
    } else {
        None
    }
}

fn find_len_19(key: &[u8]) -> (r: Option<Decoder>)
    requires
        key@.len() == 19,
    ensures
        r == table_len_19(key@),
{
    if key[0] == 99 && key[1] == 115 && key[2] == 101 && key[3] == 117 && key[4] == 99
        && key[5] == 112 && key[6] == 107 && key[7] == 100 && key[8] == 102 && key[9] == 109
        && key[10] == 116 && key[11] == 106 && key[12] == 97 && key[13] == 112 && key[14] == 97
        && key[15] == 110 && key[16] == 101 && key[17] == 115 && key[18] == 101 {
        // cseucpkdfmtjapanese
        Some(Decoder::EucJp)
    } else if key[0] == 99 && key[1] == 115 && key[2] == 112 && key[3] == 99 && key[4] == 56
        && key[5] == 53 && key[6] == 48 && key[7] == 109 && key[8] == 117 && key[9] == 108
        && key[10] == 116 && key[11] == 105 && key[12] == 108 && key[13] == 105
        && key[14] == 110 && key[15] == 103 && key[16] == 117 && key[17] == 97 && key[18] == 108 {
        // cspc850multilingual
        Some(Decoder::Ibm850)
    } else {
        None
    }
}

fn find_len_45(key: &[u8]) -> (r: Option<Decoder>)
    requires
        key@.len() == 45,
    ensures
        r == table_len_45(key@),
{
    if key[0] == 101 && key[1] == 120 && key[2] == 116 && key[3] == 101 && key[4] == 110
        && key[5] == 100 && key[6] == 101 && key[7] == 100 && key[8] == 95 && key[9] == 117
        && key[10] == 110 && key[11] == 105 && key[12] == 120 && key[13] == 95 && key[14] == 99
        && key[15] == 111 && key[16] == 100 && key[17] == 101 && key[18] == 95 && key[19] == 112
        && key[20] == 97 && key[21] == 99 && key[22] == 107 && key[23] == 101 && key[24] == 100
        && key[25] == 95 && key[26] == 102 && key[27] == 111 && key[28] == 114 && key[29] == 109
        && key[30] == 97 && key[31] == 116 && key[32] == 95 && key[33] == 102 && key[34] == 111
        && key[35] == 114 && key[36] == 95 && key[37] == 106 && key[38] == 97 && key[39] == 112
        && key[40] == 97 && key[41] == 110 && key[42] == 101 && key[43] == 115 && key[44] == 101 {
        // extended_unix_code_packed_format_for_japanese
        Some(Decoder::EucJp)
    } else {
        None
    }
}

/// Looks a canonical key up in the alias table.
pub fn find(key: &[u8]) -> (r: Option<Decoder>)
    ensures
        r == lookup(key@),
{
    match key.len() {
        2 => find_len_2(key),
        3 => find_len_3(key),
        4 => find_len_4(key),
        5 => find_len_5(key),
        6 => find_len_6(key),
        7 => find_len_7(key),
        8 => find_len_8(key),
        9 => find_len_9(key),
        10 => find_len_10(key),
        11 => find_len_11(key),
        12 => find_len_12(key),
        13 => find_len_13(key),
        14 => find_len_14(key),
        15 => find_len_15(key),
        16 => find_len_16(key),
        18 => find_len_18(key),
        19 => find_len_19(key),
        45 => find_len_45(key),
        _ => None,
    }
}

} // verus!
