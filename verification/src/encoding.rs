//! Text-encoding handling: the encoding-precedence rule for attribute
//! tables, and the code-page round-trip used for archive entry names.
use vstd::prelude::*;

use crate::error::Ksj2GpError;
use crate::strutil::{contains_str, string_from_chars};

verus! {

/// The text encodings that appear in the target dataset family.
#[derive(Debug, Clone, Copy, PartialEq, Eq, Structural)]
pub enum TextEncoding {
    Utf8,
    ShiftJis,
}

/// ASCII lowercasing of a single character.
pub open spec fn spec_lower_char(c: char) -> char {
    match c {
        'A' => 'a',
        'B' => 'b',
        'C' => 'c',
        'D' => 'd',
        'E' => 'e',
        'F' => 'f',
        'G' => 'g',
        'H' => 'h',
        'I' => 'i',
        'J' => 'j',
        'K' => 'k',
        'L' => 'l',
        'M' => 'm',
        'N' => 'n',
        'O' => 'o',
        'P' => 'p',
        'Q' => 'q',
        'R' => 'r',
        'S' => 's',
        'T' => 't',
        'U' => 'u',
        'V' => 'v',
        'W' => 'w',
        'X' => 'x',
        'Y' => 'y',
        'Z' => 'z',
        _ => c,
    }
}

fn lower_char(c: char) -> (r: char)
    ensures
        r == spec_lower_char(c),
{
    match c {
        'A' => 'a',
        'B' => 'b',
        'C' => 'c',
        'D' => 'd',
        'E' => 'e',
        'F' => 'f',
        'G' => 'g',
        'H' => 'h',
        'I' => 'i',
        'J' => 'j',
        'K' => 'k',
        'L' => 'l',
        'M' => 'm',
        'N' => 'n',
        'O' => 'o',
        'P' => 'p',
        'Q' => 'q',
        'R' => 'r',
        'S' => 's',
        'T' => 't',
        'U' => 'u',
        'V' => 'v',
        'W' => 'w',
        'X' => 'x',
        'Y' => 'y',
        'Z' => 'z',
        _ => c,
    }
}

/// The filename, case-folded, with hyphens and underscores removed.
pub open spec fn spec_normalized(s: Seq<char>) -> Seq<char>
    decreases s.len(),
{
    if s.len() == 0 {
        seq![]
    } else {
        let rest = spec_normalized(s.drop_last());
        if s.last() == '-' || s.last() == '_' {
            rest
        } else {
            rest.push(spec_lower_char(s.last()))
        }
    }
}

fn normalized_chars(s: &str) -> (r: Vec<char>)
    ensures
        r@ == spec_normalized(s@),
{
    let n = s.unicode_len();
    let mut v: Vec<char> = Vec::new();
    let mut i: usize = 0;
    while i < n
        invariant
            i <= n,
            n == s@.len(),
            v@ == spec_normalized(s@.subrange(0, i as int)),
        decreases n - i,
    {
        let c = s.get_char(i);
        proof {
            assert(s@.subrange(0, i + 1).drop_last() =~= s@.subrange(0, i as int));
            assert(s@.subrange(0, i + 1).last() == s@[i as int]);
        }
        if !(c == '-' || c == '_') {
            v.push(lower_char(c));
        }
        i = i + 1;
    }
    proof {
        assert(s@.subrange(0, n as int) =~= s@);
    }
    v
}

/// The encoding-precedence rule: the language-driver byte wins, then an
/// exact declaration in the companion entry, then the filename heuristic,
/// and Shift-JIS is the default. `None` stands for an unreadable
/// declaration.
pub open spec fn spec_resolve_encoding(
    lang_driver: u8,
    cpg: Option<Seq<char>>,
    shp_filename: Seq<char>,
) -> Option<TextEncoding> {
    if lang_driver == 13 {
        Some(TextEncoding::ShiftJis)
    } else {
        match cpg {
            Some(decl) => if decl == "UTF-8"@ {
                Some(TextEncoding::Utf8)
            } else if decl == "CP932"@ {
                Some(TextEncoding::ShiftJis)
            } else {
                None
            },
            None => if crate::strutil::spec_contains(spec_normalized(shp_filename), "utf8"@) {
                Some(TextEncoding::Utf8)
            } else {
                Some(TextEncoding::ShiftJis)
            },
        }
    }
}

/// Picks the text encoding of an attribute table from its language-driver
/// byte, the optional content of a companion encoding-declaration entry,
/// and the dataset filename, in that order of precedence.
pub fn resolve_encoding(lang_driver: u8, cpg: Option<&str>, shp_filename: &str) -> (r: Result<
    TextEncoding,
    Ksj2GpError,
>)
    ensures
        match spec_resolve_encoding(
            lang_driver,
            match cpg {
                Some(s) => Some(s@),
                None => None,
            },
            shp_filename@,
        ) {
            Some(enc) => r == Ok::<TextEncoding, Ksj2GpError>(enc),
            None => r is Err,
        },
{
    if lang_driver == 13 {
        return Ok(TextEncoding::ShiftJis);
    }
    match cpg {
        Some(decl) => {
            if crate::strutil::str_eq(decl, "UTF-8") {
                Ok(TextEncoding::Utf8)
            } else if crate::strutil::str_eq(decl, "CP932") {
                Ok(TextEncoding::ShiftJis)
            } else {
                let mut msg = String::from_str("Unknown encoding is found in .cpg file: ");
                msg.append(decl);
                Err(Ksj2GpError::new(msg))
            }
        },
        None => {
            let norm = normalized_chars(shp_filename);
            let norm_str = string_from_chars(&norm);
            if contains_str(norm_str.as_str(), "utf8") {
                Ok(TextEncoding::Utf8)
            } else {
                Ok(TextEncoding::ShiftJis)
            }
        },
    }
}

/// The character that the legacy 8-bit code page assigns to a byte at or
/// above 128.
pub open spec fn spec_cp437_high_char(b: u8) -> char
    recommends
        b >= 128,
{
    match b {
            128 => '\u{00c7}',
            129 => '\u{00fc}',
            130 => '\u{00e9}',
            131 => '\u{00e2}',
            132 => '\u{00e4}',
            133 => '\u{00e0}',
            134 => '\u{00e5}',
            135 => '\u{00e7}',
            136 => '\u{00ea}',
            137 => '\u{00eb}',
            138 => '\u{00e8}',
            139 => '\u{00ef}',
            140 => '\u{00ee}',
            141 => '\u{00ec}',
            142 => '\u{00c4}',
            143 => '\u{00c5}',
            144 => '\u{00c9}',
            145 => '\u{00e6}',
            146 => '\u{00c6}',
            147 => '\u{00f4}',
            148 => '\u{00f6}',
            149 => '\u{00f2}',
            150 => '\u{00fb}',
            151 => '\u{00f9}',
            152 => '\u{00ff}',
            153 => '\u{00d6}',
            154 => '\u{00dc}',
            155 => '\u{00a2}',
            156 => '\u{00a3}',
            157 => '\u{00a5}',
            158 => '\u{20a7}',
            159 => '\u{0192}',
            160 => '\u{00e1}',
            161 => '\u{00ed}',
            162 => '\u{00f3}',
            163 => '\u{00fa}',
            164 => '\u{00f1}',
            165 => '\u{00d1}',
            166 => '\u{00aa}',
            167 => '\u{00ba}',
            168 => '\u{00bf}',
            169 => '\u{2310}',
            170 => '\u{00ac}',
            171 => '\u{00bd}',
            172 => '\u{00bc}',
            173 => '\u{00a1}',
            174 => '\u{00ab}',
            175 => '\u{00bb}',
            176 => '\u{2591}',
            177 => '\u{2592}',
            178 => '\u{2593}',
            179 => '\u{2502}',
            180 => '\u{2524}',
            181 => '\u{2561}',
            182 => '\u{2562}',
            183 => '\u{2556}',
            184 => '\u{2555}',
            185 => '\u{2563}',
            186 => '\u{2551}',
            187 => '\u{2557}',
            188 => '\u{255d}',
            189 => '\u{255c}',
            190 => '\u{255b}',
            191 => '\u{2510}',
            192 => '\u{2514}',
            193 => '\u{2534}',
            194 => '\u{252c}',
            195 => '\u{251c}',
            196 => '\u{2500}',
            197 => '\u{253c}',
            198 => '\u{255e}',
            199 => '\u{255f}',
            200 => '\u{255a}',
            201 => '\u{2554}',
            202 => '\u{2569}',
            203 => '\u{2566}',
            204 => '\u{2560}',
            205 => '\u{2550}',
            206 => '\u{256c}',
            207 => '\u{2567}',
            208 => '\u{2568}',
            209 => '\u{2564}',
            210 => '\u{2565}',
            211 => '\u{2559}',
            212 => '\u{2558}',
            213 => '\u{2552}',
            214 => '\u{2553}',
            215 => '\u{256b}',
            216 => '\u{256a}',
            217 => '\u{2518}',
            218 => '\u{250c}',
            219 => '\u{2588}',
            220 => '\u{2584}',
            221 => '\u{258c}',
            222 => '\u{2590}',
            223 => '\u{2580}',
            224 => '\u{03b1}',
            225 => '\u{00df}',
            226 => '\u{0393}',
            227 => '\u{03c0}',
            228 => '\u{03a3}',
            229 => '\u{03c3}',
            230 => '\u{00b5}',
            231 => '\u{03c4}',
            232 => '\u{03a6}',
            233 => '\u{0398}',
            234 => '\u{03a9}',
            235 => '\u{03b4}',
            236 => '\u{221e}',
            237 => '\u{03c6}',
            238 => '\u{03b5}',
            239 => '\u{2229}',
            240 => '\u{2261}',
            241 => '\u{00b1}',
            242 => '\u{2265}',
            243 => '\u{2264}',
            244 => '\u{2320}',
            245 => '\u{2321}',
            246 => '\u{00f7}',
            247 => '\u{2248}',
            248 => '\u{00b0}',
            249 => '\u{2219}',
            250 => '\u{00b7}',
            251 => '\u{221a}',
            252 => '\u{207f}',
            253 => '\u{00b2}',
            254 => '\u{25a0}',
            255 => '\u{00a0}',
        _ => '\u{0000}',
    }
}

/// The character that the legacy 8-bit code page assigns to a byte.
pub open spec fn spec_cp437_char(b: u8) -> char {
    if b < 128 {
        b as char
    } else {
        spec_cp437_high_char(b)
    }
}

fn cp437_char_of(b: u8) -> (c: char)
    ensures
        c == spec_cp437_char(b),
{
    if b < 128 {
        return b as char;
    }
    match b {
            128 => '\u{00c7}',
            129 => '\u{00fc}',
            130 => '\u{00e9}',
            131 => '\u{00e2}',
            132 => '\u{00e4}',
            133 => '\u{00e0}',
            134 => '\u{00e5}',
            135 => '\u{00e7}',
            136 => '\u{00ea}',
            137 => '\u{00eb}',
            138 => '\u{00e8}',
            139 => '\u{00ef}',
            140 => '\u{00ee}',
            141 => '\u{00ec}',
            142 => '\u{00c4}',
            143 => '\u{00c5}',
            144 => '\u{00c9}',
            145 => '\u{00e6}',
            146 => '\u{00c6}',
            147 => '\u{00f4}',
            148 => '\u{00f6}',
            149 => '\u{00f2}',
            150 => '\u{00fb}',
            151 => '\u{00f9}',
            152 => '\u{00ff}',
            153 => '\u{00d6}',
            154 => '\u{00dc}',
            155 => '\u{00a2}',
            156 => '\u{00a3}',
            157 => '\u{00a5}',
            158 => '\u{20a7}',
            159 => '\u{0192}',
            160 => '\u{00e1}',
            161 => '\u{00ed}',
            162 => '\u{00f3}',
            163 => '\u{00fa}',
            164 => '\u{00f1}',
            165 => '\u{00d1}',
            166 => '\u{00aa}',
            167 => '\u{00ba}',
            168 => '\u{00bf}',
            169 => '\u{2310}',
            170 => '\u{00ac}',
            171 => '\u{00bd}',
            172 => '\u{00bc}',
            173 => '\u{00a1}',
            174 => '\u{00ab}',
            175 => '\u{00bb}',
            176 => '\u{2591}',
            177 => '\u{2592}',
            178 => '\u{2593}',
            179 => '\u{2502}',
            180 => '\u{2524}',
            181 => '\u{2561}',
            182 => '\u{2562}',
            183 => '\u{2556}',
            184 => '\u{2555}',
            185 => '\u{2563}',
            186 => '\u{2551}',
            187 => '\u{2557}',
            188 => '\u{255d}',
            189 => '\u{255c}',
            190 => '\u{255b}',
            191 => '\u{2510}',
            192 => '\u{2514}',
            193 => '\u{2534}',
            194 => '\u{252c}',
            195 => '\u{251c}',
            196 => '\u{2500}',
            197 => '\u{253c}',
            198 => '\u{255e}',
            199 => '\u{255f}',
            200 => '\u{255a}',
            201 => '\u{2554}',
            202 => '\u{2569}',
            203 => '\u{2566}',
            204 => '\u{2560}',
            205 => '\u{2550}',
            206 => '\u{256c}',
            207 => '\u{2567}',
            208 => '\u{2568}',
            209 => '\u{2564}',
            210 => '\u{2565}',
            211 => '\u{2559}',
            212 => '\u{2558}',
            213 => '\u{2552}',
            214 => '\u{2553}',
            215 => '\u{256b}',
            216 => '\u{256a}',
            217 => '\u{2518}',
            218 => '\u{250c}',
            219 => '\u{2588}',
            220 => '\u{2584}',
            221 => '\u{258c}',
            222 => '\u{2590}',
            223 => '\u{2580}',
            224 => '\u{03b1}',
            225 => '\u{00df}',
            226 => '\u{0393}',
            227 => '\u{03c0}',
            228 => '\u{03a3}',
            229 => '\u{03c3}',
            230 => '\u{00b5}',
            231 => '\u{03c4}',
            232 => '\u{03a6}',
            233 => '\u{0398}',
            234 => '\u{03a9}',
            235 => '\u{03b4}',
            236 => '\u{221e}',
            237 => '\u{03c6}',
            238 => '\u{03b5}',
            239 => '\u{2229}',
            240 => '\u{2261}',
            241 => '\u{00b1}',
            242 => '\u{2265}',
            243 => '\u{2264}',
            244 => '\u{2320}',
            245 => '\u{2321}',
            246 => '\u{00f7}',
            247 => '\u{2248}',
            248 => '\u{00b0}',
            249 => '\u{2219}',
            250 => '\u{00b7}',
            251 => '\u{221a}',
            252 => '\u{207f}',
            253 => '\u{00b2}',
            254 => '\u{25a0}',
            255 => '\u{00a0}',
        _ => {
            proof {
                assert(false);
            }
            '\u{0000}'
        },
    }
}

/// The byte that the legacy 8-bit code page assigns to a character, if
/// any: ASCII maps to itself, the high half of the table is inverted, and
/// the alternate glyphs of the control range are accepted as well.
pub open spec fn spec_cp437_byte(c: char) -> Option<u8> {
    if (c as u32) < 128 {
        Some((c as u32) as u8)
    } else {
        match c {
            '\u{263a}' => Some(1),
            '\u{263b}' => Some(2),
            '\u{2665}' => Some(3),
            '\u{2666}' => Some(4),
            '\u{2663}' => Some(5),
            '\u{2660}' => Some(6),
            '\u{2022}' => Some(7),
            '\u{25d8}' => Some(8),
            '\u{25cb}' => Some(9),
            '\u{25d9}' => Some(10),
            '\u{2642}' => Some(11),
            '\u{2640}' => Some(12),
            '\u{266a}' => Some(13),
            '\u{266b}' => Some(14),
            '\u{263c}' => Some(15),
            '\u{25ba}' => Some(16),
            '\u{25c4}' => Some(17),
            '\u{2195}' => Some(18),
            '\u{203c}' => Some(19),
            '\u{00b6}' => Some(20),
            '\u{00a7}' => Some(21),
            '\u{25ac}' => Some(22),
            '\u{21a8}' => Some(23),
            '\u{2191}' => Some(24),
            '\u{2193}' => Some(25),
            '\u{2192}' => Some(26),
            '\u{2190}' => Some(27),
            '\u{221f}' => Some(28),
            '\u{2194}' => Some(29),
            '\u{25b2}' => Some(30),
            '\u{25bc}' => Some(31),
            '\u{2302}' => Some(127),
            '\u{00c7}' => Some(128),
            '\u{00fc}' => Some(129),
            '\u{00e9}' => Some(130),
            '\u{00e2}' => Some(131),
            '\u{00e4}' => Some(132),
            '\u{00e0}' => Some(133),
            '\u{00e5}' => Some(134),
            '\u{00e7}' => Some(135),
            '\u{00ea}' => Some(136),
            '\u{00eb}' => Some(137),
            '\u{00e8}' => Some(138),
            '\u{00ef}' => Some(139),
            '\u{00ee}' => Some(140),
            '\u{00ec}' => Some(141),
            '\u{00c4}' => Some(142),
            '\u{00c5}' => Some(143),
            '\u{00c9}' => Some(144),
            '\u{00e6}' => Some(145),
            '\u{00c6}' => Some(146),
            '\u{00f4}' => Some(147),
            '\u{00f6}' => Some(148),
            '\u{00f2}' => Some(149),
            '\u{00fb}' => Some(150),
            '\u{00f9}' => Some(151),
            '\u{00ff}' => Some(152),
            '\u{00d6}' => Some(153),
            '\u{00dc}' => Some(154),
            '\u{00a2}' => Some(155),
            '\u{00a3}' => Some(156),
            '\u{00a5}' => Some(157),
            '\u{20a7}' => Some(158),
            '\u{0192}' => Some(159),
            '\u{00e1}' => Some(160),
            '\u{00ed}' => Some(161),
            '\u{00f3}' => Some(162),
            '\u{00fa}' => Some(163),
            '\u{00f1}' => Some(164),
            '\u{00d1}' => Some(165),
            '\u{00aa}' => Some(166),
            '\u{00ba}' => Some(167),
            '\u{00bf}' => Some(168),
            '\u{2310}' => Some(169),
            '\u{00ac}' => Some(170),
            '\u{00bd}' => Some(171),
            '\u{00bc}' => Some(172),
            '\u{00a1}' => Some(173),
            '\u{00ab}' => Some(174),
            '\u{00bb}' => Some(175),
            '\u{2591}' => Some(176),
            '\u{2592}' => Some(177),
            '\u{2593}' => Some(178),
            '\u{2502}' => Some(179),
            '\u{2524}' => Some(180),
            '\u{2561}' => Some(181),
            '\u{2562}' => Some(182),
            '\u{2556}' => Some(183),
            '\u{2555}' => Some(184),
            '\u{2563}' => Some(185),
            '\u{2551}' => Some(186),
            '\u{2557}' => Some(187),
            '\u{255d}' => Some(188),
            '\u{255c}' => Some(189),
            '\u{255b}' => Some(190),
            '\u{2510}' => Some(191),
            '\u{2514}' => Some(192),
            '\u{2534}' => Some(193),
            '\u{252c}' => Some(194),
            '\u{251c}' => Some(195),
            '\u{2500}' => Some(196),
            '\u{253c}' => Some(197),
            '\u{255e}' => Some(198),
            '\u{255f}' => Some(199),
            '\u{255a}' => Some(200),
            '\u{2554}' => Some(201),
            '\u{2569}' => Some(202),
            '\u{2566}' => Some(203),
            '\u{2560}' => Some(204),
            '\u{2550}' => Some(205),
            '\u{256c}' => Some(206),
            '\u{2567}' => Some(207),
            '\u{2568}' => Some(208),
            '\u{2564}' => Some(209),
            '\u{2565}' => Some(210),
            '\u{2559}' => Some(211),
            '\u{2558}' => Some(212),
            '\u{2552}' => Some(213),
            '\u{2553}' => Some(214),
            '\u{256b}' => Some(215),
            '\u{256a}' => Some(216),
            '\u{2518}' => Some(217),
            '\u{250c}' => Some(218),
            '\u{2588}' => Some(219),
            '\u{2584}' => Some(220),
            '\u{258c}' => Some(221),
            '\u{2590}' => Some(222),
            '\u{2580}' => Some(223),
            '\u{03b1}' => Some(224),
            '\u{00df}' => Some(225),
            '\u{0393}' => Some(226),
            '\u{03c0}' => Some(227),
            '\u{03a3}' => Some(228),
            '\u{03c3}' => Some(229),
            '\u{00b5}' => Some(230),
            '\u{03c4}' => Some(231),
            '\u{03a6}' => Some(232),
            '\u{0398}' => Some(233),
            '\u{03a9}' => Some(234),
            '\u{03b4}' => Some(235),
            '\u{221e}' => Some(236),
            '\u{03c6}' => Some(237),
            '\u{03b5}' => Some(238),
            '\u{2229}' => Some(239),
            '\u{2261}' => Some(240),
            '\u{00b1}' => Some(241),
            '\u{2265}' => Some(242),
            '\u{2264}' => Some(243),
            '\u{2320}' => Some(244),
            '\u{2321}' => Some(245),
            '\u{00f7}' => Some(246),
            '\u{2248}' => Some(247),
            '\u{00b0}' => Some(248),
            '\u{2219}' => Some(249),
            '\u{00b7}' => Some(250),
            '\u{221a}' => Some(251),
            '\u{207f}' => Some(252),
            '\u{00b2}' => Some(253),
            '\u{25a0}' => Some(254),
            '\u{00a0}' => Some(255),
            _ => None,
        }
    }
}

fn cp437_byte_of(c: char) -> (r: Option<u8>)
    ensures
        r == spec_cp437_byte(c),
{
    let u = c as u32;
    if u < 128 {
        return Some(u as u8);
    }
    match c {
            '\u{263a}' => Some(1),
            '\u{263b}' => Some(2),
            '\u{2665}' => Some(3),
            '\u{2666}' => Some(4),
            '\u{2663}' => Some(5),
            '\u{2660}' => Some(6),
            '\u{2022}' => Some(7),
            '\u{25d8}' => Some(8),
            '\u{25cb}' => Some(9),
            '\u{25d9}' => Some(10),
            '\u{2642}' => Some(11),
            '\u{2640}' => Some(12),
            '\u{266a}' => Some(13),
            '\u{266b}' => Some(14),
            '\u{263c}' => Some(15),
            '\u{25ba}' => Some(16),
            '\u{25c4}' => Some(17),
            '\u{2195}' => Some(18),
            '\u{203c}' => Some(19),
            '\u{00b6}' => Some(20),
            '\u{00a7}' => Some(21),
            '\u{25ac}' => Some(22),
            '\u{21a8}' => Some(23),
            '\u{2191}' => Some(24),
            '\u{2193}' => Some(25),
            '\u{2192}' => Some(26),
            '\u{2190}' => Some(27),
            '\u{221f}' => Some(28),
            '\u{2194}' => Some(29),
            '\u{25b2}' => Some(30),
            '\u{25bc}' => Some(31),
            '\u{2302}' => Some(127),
            '\u{00c7}' => Some(128),
            '\u{00fc}' => Some(129),
            '\u{00e9}' => Some(130),
            '\u{00e2}' => Some(131),
            '\u{00e4}' => Some(132),
            '\u{00e0}' => Some(133),
            '\u{00e5}' => Some(134),
            '\u{00e7}' => Some(135),
            '\u{00ea}' => Some(136),
            '\u{00eb}' => Some(137),
            '\u{00e8}' => Some(138),
            '\u{00ef}' => Some(139),
            '\u{00ee}' => Some(140),
            '\u{00ec}' => Some(141),
            '\u{00c4}' => Some(142),
            '\u{00c5}' => Some(143),
            '\u{00c9}' => Some(144),
            '\u{00e6}' => Some(145),
            '\u{00c6}' => Some(146),
            '\u{00f4}' => Some(147),
            '\u{00f6}' => Some(148),
            '\u{00f2}' => Some(149),
            '\u{00fb}' => Some(150),
            '\u{00f9}' => Some(151),
            '\u{00ff}' => Some(152),
            '\u{00d6}' => Some(153),
            '\u{00dc}' => Some(154),
            '\u{00a2}' => Some(155),
            '\u{00a3}' => Some(156),
            '\u{00a5}' => Some(157),
            '\u{20a7}' => Some(158),
            '\u{0192}' => Some(159),
            '\u{00e1}' => Some(160),
            '\u{00ed}' => Some(161),
            '\u{00f3}' => Some(162),
            '\u{00fa}' => Some(163),
            '\u{00f1}' => Some(164),
            '\u{00d1}' => Some(165),
            '\u{00aa}' => Some(166),
            '\u{00ba}' => Some(167),
            '\u{00bf}' => Some(168),
            '\u{2310}' => Some(169),
            '\u{00ac}' => Some(170),
            '\u{00bd}' => Some(171),
            '\u{00bc}' => Some(172),
            '\u{00a1}' => Some(173),
            '\u{00ab}' => Some(174),
            '\u{00bb}' => Some(175),
            '\u{2591}' => Some(176),
            '\u{2592}' => Some(177),
            '\u{2593}' => Some(178),
            '\u{2502}' => Some(179),
            '\u{2524}' => Some(180),
            '\u{2561}' => Some(181),
            '\u{2562}' => Some(182),
            '\u{2556}' => Some(183),
            '\u{2555}' => Some(184),
            '\u{2563}' => Some(185),
            '\u{2551}' => Some(186),
            '\u{2557}' => Some(187),
            '\u{255d}' => Some(188),
            '\u{255c}' => Some(189),
            '\u{255b}' => Some(190),
            '\u{2510}' => Some(191),
            '\u{2514}' => Some(192),
            '\u{2534}' => Some(193),
            '\u{252c}' => Some(194),
            '\u{251c}' => Some(195),
            '\u{2500}' => Some(196),
            '\u{253c}' => Some(197),
            '\u{255e}' => Some(198),
            '\u{255f}' => Some(199),
            '\u{255a}' => Some(200),
            '\u{2554}' => Some(201),
            '\u{2569}' => Some(202),
            '\u{2566}' => Some(203),
            '\u{2560}' => Some(204),
            '\u{2550}' => Some(205),
            '\u{256c}' => Some(206),
            '\u{2567}' => Some(207),
            '\u{2568}' => Some(208),
            '\u{2564}' => Some(209),
            '\u{2565}' => Some(210),
            '\u{2559}' => Some(211),
            '\u{2558}' => Some(212),
            '\u{2552}' => Some(213),
            '\u{2553}' => Some(214),
            '\u{256b}' => Some(215),
            '\u{256a}' => Some(216),
            '\u{2518}' => Some(217),
            '\u{250c}' => Some(218),
            '\u{2588}' => Some(219),
            '\u{2584}' => Some(220),
            '\u{258c}' => Some(221),
            '\u{2590}' => Some(222),
            '\u{2580}' => Some(223),
            '\u{03b1}' => Some(224),
            '\u{00df}' => Some(225),
            '\u{0393}' => Some(226),
            '\u{03c0}' => Some(227),
            '\u{03a3}' => Some(228),
            '\u{03c3}' => Some(229),
            '\u{00b5}' => Some(230),
            '\u{03c4}' => Some(231),
            '\u{03a6}' => Some(232),
            '\u{0398}' => Some(233),
            '\u{03a9}' => Some(234),
            '\u{03b4}' => Some(235),
            '\u{221e}' => Some(236),
            '\u{03c6}' => Some(237),
            '\u{03b5}' => Some(238),
            '\u{2229}' => Some(239),
            '\u{2261}' => Some(240),
            '\u{00b1}' => Some(241),
            '\u{2265}' => Some(242),
            '\u{2264}' => Some(243),
            '\u{2320}' => Some(244),
            '\u{2321}' => Some(245),
            '\u{00f7}' => Some(246),
            '\u{2248}' => Some(247),
            '\u{00b0}' => Some(248),
            '\u{2219}' => Some(249),
            '\u{00b7}' => Some(250),
            '\u{221a}' => Some(251),
            '\u{207f}' => Some(252),
            '\u{00b2}' => Some(253),
            '\u{25a0}' => Some(254),
            '\u{00a0}' => Some(255),
        _ => None,
    }
}

/// The byte sequence a character sequence maps to under the legacy code
/// page, or `None` if some character has no image.
pub open spec fn spec_cp437_bytes(s: Seq<char>) -> Option<Seq<u8>>
    decreases s.len(),
{
    if s.len() == 0 {
        Some(seq![])
    } else {
        match (spec_cp437_bytes(s.drop_last()), spec_cp437_byte(s.last())) {
            (Some(bs), Some(b)) => Some(bs.push(b)),
            _ => None,
        }
    }
}

/// A sequence with an unmappable character maps to `None` as a whole.
proof fn lemma_cp437_bytes_unmapped(s: Seq<char>, i: int)
    requires
        0 <= i < s.len(),
        spec_cp437_byte(s[i]) is None,
    ensures
        spec_cp437_bytes(s) is None,
    decreases s.len(),
{
    if i < s.len() - 1 {
        lemma_cp437_bytes_unmapped(s.drop_last(), i);
    }
}

/// What the Shift-JIS decoder yields on a byte sequence: the decoded text
/// and whether malformed input was encountered.
pub uninterp spec fn sjis_decode(bytes: Seq<u8>) -> (Seq<char>, bool);

/// Decodes Shift-JIS bytes.
///
/// Relies on `encoding_rs::SHIFT_JIS.decode`: the decoded text and the
/// malformed-input flag are a function of the bytes alone.
#[verifier::external_body]
pub(crate) fn sjis_decode_bytes(bytes: &Vec<u8>) -> (r: (String, bool))
    ensures
        (r.0@, r.1) == sjis_decode(bytes@),
{
    let (out, _, had_errors) = encoding_rs::SHIFT_JIS.decode(bytes);
    (out.into_owned(), had_errors)
}

/// What the Shift-JIS encoder yields on a text: the encoded bytes and
/// whether unmappable characters were encountered.
pub uninterp spec fn sjis_encode(s: Seq<char>) -> (Seq<u8>, bool);

/// Encodes text as Shift-JIS bytes.
///
/// Relies on `encoding_rs::SHIFT_JIS.encode`: the encoded bytes and the
/// unmappable-character flag are a function of the text alone.
#[verifier::external_body]
fn sjis_encode_str(s: &str) -> (r: (Vec<u8>, bool))
    ensures
        (r.0@, r.1) == sjis_encode(s@),
{
    let (out, _, had_errors) = encoding_rs::SHIFT_JIS.encode(s);
    (out.into_owned(), had_errors)
}

/// Decodes an archive entry name that reached us as code-page characters
/// over Shift-JIS bytes; a name outside the code page is taken to be
/// proper text already and is returned unchanged.
pub fn decode_cp437cp932_to_utf8(input: &str) -> (r: Result<String, Ksj2GpError>)
    ensures
        match spec_cp437_bytes(input@) {
            None => r matches Ok(s) && s@ == input@,
            Some(bs) => if sjis_decode(bs).1 {
                r is Err
            } else {
                r matches Ok(s) && s@ == sjis_decode(bs).0
            },
        },
{
    let n = input.unicode_len();
    let mut cp932_bytes: Vec<u8> = Vec::new();
    let mut i: usize = 0;
    while i < n
        invariant
            i <= n,
            n == input@.len(),
            spec_cp437_bytes(input@.subrange(0, i as int)) == Some(cp932_bytes@),
        decreases n - i,
    {
        let c = input.get_char(i);
        proof {
            assert(input@.subrange(0, i + 1).drop_last() =~= input@.subrange(0, i as int));
            assert(input@.subrange(0, i + 1).last() == input@[i as int]);
        }
        match cp437_byte_of(c) {
            Some(b) => {
                cp932_bytes.push(b);
            },
            None => {
                proof {
                    lemma_cp437_bytes_unmapped(input@, i as int);
                }
                return Ok(input.to_owned());
            },
        }
        i = i + 1;
    }
    proof {
        assert(input@.subrange(0, n as int) =~= input@);
    }
    let (out, had_errors) = sjis_decode_bytes(&cp932_bytes);
    if had_errors {
        return Err(Ksj2GpError::new(String::from_str("Failed to decode from CP932")));
    }
    Ok(out)
}

/// Encodes text into code-page characters over Shift-JIS bytes, the form
/// in which archive entry names must be looked up.
pub fn encode_utf8_to_cp437cp932(input: &str) -> (r: Result<String, Ksj2GpError>)
    ensures
        if sjis_encode(input@).1 {
            r is Err
        } else {
            r matches Ok(s) && s@ == sjis_encode(input@).0.map_values(|b: u8| spec_cp437_char(b))
        },
{
    let (cp932_bytes, had_errors) = sjis_encode_str(input);
    if had_errors {
        return Err(Ksj2GpError::new(String::from_str("Failed to encode to CP932")));
    }
    let m = cp932_bytes.len();
    let mut v: Vec<char> = Vec::new();
    let mut i: usize = 0;
    while i < m
        invariant
            i <= m,
            m == cp932_bytes@.len(),
            v@ =~= cp932_bytes@.subrange(0, i as int).map_values(|b: u8| spec_cp437_char(b)),
        decreases m - i,
    {
        v.push(cp437_char_of(cp932_bytes[i]));
        proof {
            assert(v@ =~= cp932_bytes@.subrange(0, i + 1).map_values(
                |b: u8| spec_cp437_char(b),
            ));
        }
        i = i + 1;
    }
    proof {
        assert(cp932_bytes@.subrange(0, m as int) =~= cp932_bytes@);
    }
    Ok(string_from_chars(&v))
}

} // verus!

verus! {

/// Resolves the attribute table's text encoding from the raw bytes of its
/// header: a header shorter than 29 bytes is an error; otherwise byte 28,
/// the language-driver byte, enters the precedence rule of
/// [`resolve_encoding`] together with the optional declaration entry and
/// the filename.
pub fn encoding_from_header(header: &Vec<u8>, cpg: Option<&str>, shp_filename: &str) -> (r: Result<
    TextEncoding,
    Ksj2GpError,
>)
    ensures
        header@.len() < 29 ==> r is Err,
        header@.len() >= 29 ==> match spec_resolve_encoding(
            header@[28],
            match cpg {
                Some(s) => Some(s@),
                None => None,
            },
            shp_filename@,
        ) {
            Some(enc) => r == Ok::<TextEncoding, Ksj2GpError>(enc),
            None => r is Err,
        },
{
    if header.len() < 29 {
        return Err(
            Ksj2GpError::new(String::from_str("Attribute table is too short for a header")),
        );
    }
    resolve_encoding(header[28], cpg, shp_filename)
}

} // verus!
