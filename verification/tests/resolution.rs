use charset_map::charset_decoder;
use charset_map::Decoder;

#[test]
fn decoder_charset() {
    for input in ["gbk", "extended_unix_code_packed_format_for_japanese"] {
        if !input.is_empty() {
            assert!(
                charset_decoder(input.as_bytes()).is_some(),
                "Failed for {input}",
            );
        }
    }
}

#[test]
fn gbk_resolves() {
    assert_eq!(charset_decoder(b"GBK"), Some(Decoder::Gbk));
    assert_eq!(charset_decoder(b"gbk"), Some(Decoder::Gbk));
}

#[test]
fn longest_alias_resolves_to_euc_jp() {
    assert_eq!(
        charset_decoder(b"extended_unix_code_packed_format_for_japanese"),
        Some(Decoder::EucJp)
    );
}

#[test]
fn iso_8859_1_equals_latin1() {
    let a = charset_decoder(b"ISO-8859-1");
    let b = charset_decoder(b"latin1");
    assert_eq!(a, Some(Decoder::Iso8859_1));
    assert_eq!(a, b);
}

#[test]
fn empty_label_not_found() {
    assert_eq!(charset_decoder(b""), None);
}

#[test]
fn unknown_label_not_found() {
    assert_eq!(charset_decoder(b"totally-unknown-charset-xyz"), None);
}

#[test]
fn windows_1252_resolves() {
    let a = charset_decoder(b"Windows-1252");
    assert_eq!(a, Some(Decoder::Cp1252));
    assert_eq!(a, charset_decoder(b"cswindows1252"));
}

#[test]
fn case_permutations_agree() {
    for (upper, mixed, lower) in [
        ("GBK", "gBk", "gbk"),
        ("UTF-16", "Utf-16", "utf-16"),
        ("MACINTOSH", "MacIntosh", "macintosh"),
        ("SHIFT_JIS", "Shift_JIS", "shift_jis"),
        ("LATIN1", "Latin1", "latin1"),
    ] {
        let l = charset_decoder(lower.as_bytes());
        assert!(l.is_some(), "Failed for {lower}");
        assert_eq!(charset_decoder(upper.as_bytes()), l, "Failed for {upper}");
        assert_eq!(charset_decoder(mixed.as_bytes()), l, "Failed for {mixed}");
    }
}

#[test]
fn hyphen_and_underscore_agree() {
    for (dashed, plain) in [
        ("iso-8859-1", "iso_8859_1"),
        ("euc-jp", "euc_jp"),
        ("koi8-r", "koi8_r"),
        ("windows-874", "windows_874"),
        ("utf-7", "utf_7"),
        ("extended-unix-code-packed-format-for-japanese", "extended_unix_code_packed_format_for_japanese"),
    ] {
        let p = charset_decoder(plain.as_bytes());
        assert!(p.is_some(), "Failed for {plain}");
        assert_eq!(charset_decoder(dashed.as_bytes()), p, "Failed for {dashed}");
    }
}

#[test]
fn utf_16_family_aliases_agree() {
    let canonical = charset_decoder(b"utf_16");
    assert_eq!(canonical, Some(Decoder::Utf16));
    assert_eq!(charset_decoder(b"csutf16"), canonical);
    assert_eq!(charset_decoder(b"UTF-16"), canonical);
}

#[test]
fn oversized_label_not_found() {
    let long = [b'a'; 64];
    assert_eq!(charset_decoder(&long), None);
    let fits_after_truncation = [b'a'; 46];
    assert_eq!(charset_decoder(&fits_after_truncation), None);
    assert_eq!(
        charset_decoder(b"totally-unknown-charset-with-a-very-very-long-name"),
        None
    );
}

#[test]
fn oversized_longest_alias_prefix_not_found() {
    // Even a label whose first 45 bytes spell the longest alias is rejected
    // outright when it is longer than that alias: no truncated match.
    assert_eq!(
        charset_decoder(b"extended_unix_code_packed_format_for_japanesex"),
        None
    );
    assert_eq!(
        charset_decoder(b"EXTENDED-UNIX-CODE-PACKED-FORMAT-FOR-JAPANESE!"),
        None
    );
}

#[test]
fn near_miss_labels_not_found() {
    assert_eq!(charset_decoder(b"gb"), None);
    assert_eq!(charset_decoder(b"gbkk"), None);
    assert_eq!(charset_decoder(b"latin"), None);
    assert_eq!(charset_decoder(b"latin7"), None);
    assert_eq!(charset_decoder(b"utf_8"), None);
    assert_eq!(charset_decoder(b"iso_8859_12"), None);
    assert_eq!(charset_decoder(b"extended_unix_code_packed_format_for_japanes"), None);
}

#[test]
fn non_ascii_bytes_pass_through_unchanged() {
    assert_eq!(charset_decoder(&[0xC3, 0xA9]), None);
    assert_eq!(charset_decoder(b"gb\xFFk"), None);
    // A zero byte is not folded either, so it spoils a known alias.
    assert_eq!(charset_decoder(b"gb\x00k"), None);
}

#[test]
fn year_suffixed_aliases_resolve() {
    assert_eq!(charset_decoder(b"iso_8859_10:1992"), Some(Decoder::Iso8859_10));
    assert_eq!(charset_decoder(b"ISO-8859-1:1987"), Some(Decoder::Iso8859_1));
}

#[test]
fn every_decoder_family_reachable() {
    for (alias, expected) in [
        ("big5", Decoder::Big5),
        ("windows_1250", Decoder::Cp1250),
        ("cswindows1251", Decoder::Cp1251),
        ("windows-1252", Decoder::Cp1252),
        ("windows_1253", Decoder::Cp1253),
        ("windows_1254", Decoder::Cp1254),
        ("windows_1255", Decoder::Cp1255),
        ("windows_1256", Decoder::Cp1256),
        ("windows_1257", Decoder::Cp1257),
        ("windows_1258", Decoder::Cp1258),
        ("euc_jp", Decoder::EucJp),
        ("euc_kr", Decoder::EucKr),
        ("gb18030", Decoder::Gb18030),
        ("gb2312", Decoder::Gb18030),
        ("ms936", Decoder::Gbk),
        ("850", Decoder::Ibm850),
        ("866", Decoder::Ibm866),
        ("iso_2022_jp", Decoder::Iso2022Jp),
        ("cp819", Decoder::Iso8859_1),
        ("latin2", Decoder::Iso8859_2),
        ("latin3", Decoder::Iso8859_3),
        ("latin4", Decoder::Iso8859_4),
        ("cyrillic", Decoder::Iso8859_5),
        ("arabic", Decoder::Iso8859_6),
        ("greek", Decoder::Iso8859_7),
        ("hebrew", Decoder::Iso8859_8),
        ("latin5", Decoder::Iso8859_9),
        ("latin6", Decoder::Iso8859_10),
        ("iso_8859_13", Decoder::Iso8859_13),
        ("iso_celtic", Decoder::Iso8859_14),
        ("latin_9", Decoder::Iso8859_15),
        ("latin10", Decoder::Iso8859_16),
        ("koi8_r", Decoder::Koi8R),
        ("koi8_u", Decoder::Koi8U),
        ("mac", Decoder::Macintosh),
        ("ms_kanji", Decoder::ShiftJis),
        ("tis_620", Decoder::Tis620),
        ("iso_8859_11", Decoder::Tis620),
        ("utf_16", Decoder::Utf16),
        ("utf_16be", Decoder::Utf16Be),
        ("utf_16le", Decoder::Utf16Le),
        ("csutf7", Decoder::Utf7),
        ("cswindows874", Decoder::Windows874),
    ] {
        assert_eq!(
            charset_decoder(alias.as_bytes()),
            Some(expected),
            "Failed for {alias}",
        );
    }
}
