//! The flags that players fly under.

use vstd::prelude::*;

use crate::text::{ascii_lower, ascii_lower_text, ascii_upper, ascii_upper_text, is_ascii_text, str_eq, str_to_uppercase, uppercase};

verus! {

/// A player's flag: a country, or one of a few special flags. The number of a
/// flag is what is sent in packets and lies between 1 and 125.
#[derive(Debug, Copy, Clone, PartialEq, Eq, Hash, Structural)]
pub struct FlagCode {
    code: u16,
}

/// The code of each flag number: the ISO-2 code of a country, or a special
/// name for a flag that is no country. The number 0 stands for no flag.
pub open spec fn spec_country_code(n: u16) -> Seq<char> {
    match n {
        1 => seq!['S', 'Y'],
        2 => seq!['T', 'H'],
        3 => seq!['T', 'M'],
        4 => seq!['T', 'N'],
        5 => seq!['T', 'R'],
        6 => seq!['T', 'T'],
        7 => seq!['T', 'W'],
        8 => seq!['T', 'Z'],
        9 => seq!['U', 'A'],
        10 => seq!['U', 'N'],
        11 => seq!['U', 'S'],
        12 => seq!['U', 'Y'],
        13 => seq!['U', 'Z'],
        14 => seq!['V', 'E'],
        15 => seq!['V', 'N'],
        16 => seq!['P', 'R'],
        17 => seq!['P', 'T'],
        18 => seq!['P', 'Y'],
        19 => seq!['Q', 'A'],
        20 => seq!['r', 'a', 'i', 'n', 'b', 'o', 'w'],
        21 => seq!['R', 'O'],
        22 => seq!['R', 'S'],
        23 => seq!['R', 'U'],
        24 => seq!['S', 'A'],
        25 => seq!['S', 'E'],
        26 => seq!['S', 'G'],
        27 => seq!['S', 'I'],
        28 => seq!['S', 'K'],
        29 => seq!['S', 'M'],
        30 => seq!['M', 'K'],
        31 => seq!['M', 'O'],
        32 => seq!['M', 'T'],
        33 => seq!['M', 'X'],
        34 => seq!['M', 'Y'],
        35 => seq!['N', 'G'],
        36 => seq!['N', 'L'],
        37 => seq!['N', 'O'],
        38 => seq!['N', 'P'],
        39 => seq!['N', 'Z'],
        40 => seq!['O', 'M'],
        41 => seq!['P', 'A'],
        42 => seq!['P', 'E'],
        43 => seq!['J', 'P'],
        44 => seq!['K', 'P'],
        45 => seq!['K', 'R'],
        46 => seq!['K', 'W'],
        47 => seq!['K', 'Z'],
        48 => seq!['L', 'B'],
        49 => seq!['L', 'I'],
        50 => seq!['L', 'K'],
        51 => seq!['L', 'T'],
        52 => seq!['L', 'U'],
        53 => seq!['L', 'V'],
        54 => seq!['H', 'N'],
        55 => seq!['H', 'R'],
        56 => seq!['H', 'U'],
        57 => seq!['I', 'D'],
        58 => seq!['I', 'E'],
        59 => seq!['I', 'L'],
        60 => seq!['I', 'M'],
        61 => seq!['i', 'm', 'p', 'e', 'r', 'i', 'a', 'l'],
        62 => seq!['I', 'N'],
        63 => seq!['I', 'Q'],
        64 => seq!['D', 'E'],
        65 => seq!['D', 'K'],
        66 => seq!['D', 'O'],
        67 => seq!['D', 'Z'],
        68 => seq!['E', 'C'],
        69 => seq!['E', 'E'],
        70 => seq!['E', 'G'],
        71 => seq!['E', 'S'],
        72 => seq!['E', 'U'],
        73 => seq!['B', 'H'],
        74 => seq!['B', 'O'],
        75 => seq!['B', 'R'],
        76 => seq!['B', 'T'],
        77 => seq!['B', 'Y'],
        78 => seq!['C', 'A'],
        79 => seq!['C', 'H'],
        80 => seq!['A', 'D'],
        81 => seq!['A', 'E'],
        82 => seq!['A', 'L'],
        83 => seq!['A', 'M'],
        84 => seq!['C', 'L'],
        85 => seq!['A', 'Q'],
        86 => seq!['C', 'N'],
        87 => seq!['A', 'R'],
        88 => seq!['F', 'I'],
        89 => seq!['C', 'O'],
        90 => seq!['A', 'T'],
        91 => seq!['I', 'R'],
        92 => seq!['F', 'R'],
        93 => seq!['c', 'o', 'm', 'm', 'u', 'n', 'i', 's', 't'],
        94 => seq!['A', 'U'],
        95 => seq!['L', 'Y'],
        96 => seq!['I', 'S'],
        97 => seq!['G', 'B'],
        98 => seq!['c', 'o', 'n', 'f', 'e', 'd', 'e', 'r', 'a', 't', 'e'],
        99 => seq!['A', 'Z'],
        100 => seq!['M', 'A'],
        101 => seq!['I', 'T'],
        102 => seq!['G', 'E'],
        103 => seq!['C', 'R'],
        104 => seq!['B', 'A'],
        105 => seq!['P', 'H'],
        106 => seq!['M', 'C'],
        107 => seq!['J', 'M'],
        108 => seq!['G', 'R'],
        109 => seq!['C', 'U'],
        110 => seq!['B', 'D'],
        111 => seq!['S', 'O'],
        112 => seq!['P', 'K'],
        113 => seq!['M', 'D'],
        114 => seq!['J', 'O'],
        115 => seq!['G', 'T'],
        116 => seq!['C', 'Y'],
        117 => seq!['B', 'E'],
        118 => seq!['Z', 'A'],
        119 => seq!['S', 'V'],
        120 => seq!['P', 'L'],
        121 => seq!['M', 'E'],
        122 => seq!['j', 'o', 'l', 'l', 'y'],
        123 => seq!['H', 'K'],
        124 => seq!['C', 'Z'],
        125 => seq!['B', 'G'],
        _ => Seq::empty(),
    }
}

/// The code of flag number `n` in upper case, as `from_str` looks codes up.
pub open spec fn spec_upper_code(n: u16) -> Seq<char> {
    match n {
        20 => seq!['R', 'A', 'I', 'N', 'B', 'O', 'W'],
        61 => seq!['I', 'M', 'P', 'E', 'R', 'I', 'A', 'L'],
        93 => seq!['C', 'O', 'M', 'M', 'U', 'N', 'I', 'S', 'T'],
        98 => seq!['C', 'O', 'N', 'F', 'E', 'D', 'E', 'R', 'A', 'T', 'E'],
        122 => seq!['J', 'O', 'L', 'L', 'Y'],
        _ => spec_country_code(n),
    }
}

/// The first flag, numbered `n` or higher, whose upper-case code is `key`.
pub open spec fn spec_find_flag_from(key: Seq<char>, n: int) -> Option<u16>
    decreases 126 - n,
{
    if n < 1 || n > 125 {
        None
    } else if spec_upper_code(n as u16) == key {
        Some(n as u16)
    } else {
        spec_find_flag_from(key, n + 1)
    }
}

/// The first flag whose upper-case code is `key`.
pub open spec fn spec_find_flag(key: Seq<char>) -> Option<u16> {
    spec_find_flag_from(key, 1)
}

/// The flag that `from_str` finds for an ASCII text: the first whose code,
/// in upper case, is the text in upper case.
pub open spec fn spec_flag_of_ascii(s: Seq<char>) -> Option<u16> {
    spec_find_flag(ascii_upper_text(s))
}

impl View for FlagCode {
    type V = u16;

    closed spec fn view(&self) -> u16 {
        self.code
    }
}

impl FlagCode {
    #[verifier::type_invariant]
    spec fn inv(self) -> bool {
        1 <= self.code <= 125
    }

    /// The United Nations flag, which players get when they ask for no known
    /// flag.
    pub fn united_nations() -> (r: FlagCode)
        ensures
            r@ == 10,
            spec_country_code(r@) == seq!['U', 'N'],
    {
        FlagCode { code: 10 }
    }

    /// Returns the numeric value that corresponds to the flag code. This is
    /// the value that is actually sent in the serialized packet and is used in
    /// the client.
    pub fn to_u16(self) -> (r: u16)
        ensures
            r == self@,
            1 <= r <= 125,
    {
        proof {
            use_type_invariant(&self);
        }
        self.code
    }

    /// Return the flag code that corresponds to the numeric value, or `None`
    /// if there is no corresponding flag.
    pub fn from_u16(v: u16) -> (r: Option<FlagCode>)
        ensures
            (1 <= v <= 125) ==> (r matches Some(f) && f@ == v),
            !(1 <= v <= 125) ==> r is None,
    {
        if 1 <= v && v <= 125 {
            Some(FlagCode { code: v })
        } else {
            None
        }
    }

    /// Get the ISO-2 code associated with the flag (or special codes for
    /// non-country flags).
    pub fn to_str(self) -> (r: &'static str)
        ensures
            r@ == spec_country_code(self@),
    {
        proof {
            use_type_invariant(&self);
        }
        country_code(self.code)
    }

    /// Get the flag code associated with an ISO-2 country code (or a special
    /// code for a non-country flag), compared without regard to case: the
    /// first flag whose code in upper case is `v` in upper case.
    pub fn from_str(v: &str) -> (r: Option<Self>)
        ensures
            r matches Some(f) ==> spec_find_flag(uppercase(v@)) == Some(f@),
            r is None ==> spec_find_flag(uppercase(v@)) is None,
            is_ascii_text(v@) ==> uppercase(v@) == ascii_upper_text(v@),
            is_ascii_text(v@) ==> (r matches Some(f) ==> spec_flag_of_ascii(v@) == Some(f@)),
            is_ascii_text(v@) ==> (r is None ==> spec_flag_of_ascii(v@) is None),
    {
        let key = str_to_uppercase(v);
        let mut i: u16 = 1;
        while i <= 125
            invariant
                1 <= i <= 126,
                key@ == uppercase(v@),
                is_ascii_text(v@) ==> key@ == ascii_upper_text(v@),
                spec_find_flag(key@) == spec_find_flag_from(key@, i as int),
            decreases 126 - i,
        {
            if str_eq(upper_country_code(i), key.as_str()) {
                return Some(FlagCode { code: i });
            }
            i = i + 1;
        }
        None
    }
}

impl Default for FlagCode {
    /// The United Nations flag.
    fn default() -> (r: Self)
        ensures
            r@ == 10,
    {
        FlagCode { code: 10 }
    }
}

/// The code of flag number `n` in upper case, for `1 <= n <= 125`.
fn upper_country_code(n: u16) -> (r: &'static str)
    requires
        1 <= n <= 125,
    ensures
        r@ == spec_upper_code(n),
{
    match n {
        20 => {
            proof {
                reveal_strlit("RAINBOW");
            }
            "RAINBOW"
        },
        61 => {
            proof {
                reveal_strlit("IMPERIAL");
            }
            "IMPERIAL"
        },
        93 => {
            proof {
                reveal_strlit("COMMUNIST");
            }
            "COMMUNIST"
        },
        98 => {
            proof {
                reveal_strlit("CONFEDERATE");
            }
            "CONFEDERATE"
        },
        122 => {
            proof {
                reveal_strlit("JOLLY");
            }
            "JOLLY"
        },
        _ => country_code(n),
    }
}

/// The code of flag number `n`, for `1 <= n <= 125`.
fn country_code(n: u16) -> (r: &'static str)
    requires
        1 <= n <= 125,
    ensures
        r@ == spec_country_code(n),
{
    match n {
            1 => {
                proof {
                    reveal_strlit("SY");
                }
                "SY"
            },
            2 => {
                proof {
                    reveal_strlit("TH");
                }
                "TH"
            },
            3 => {
                proof {
                    reveal_strlit("TM");
                }
                "TM"
            },
            4 => {
                proof {
                    reveal_strlit("TN");
                }
                "TN"
            },
            5 => {
                proof {
                    reveal_strlit("TR");
                }
                "TR"
            },
            6 => {
                proof {
                    reveal_strlit("TT");
                }
                "TT"
            },
            7 => {
                proof {
                    reveal_strlit("TW");
                }
                "TW"
            },
            8 => {
                proof {
                    reveal_strlit("TZ");
                }
                "TZ"
            },
            9 => {
                proof {
                    reveal_strlit("UA");
                }
                "UA"
            },
            10 => {
                proof {
                    reveal_strlit("UN");
                }
                "UN"
            },
            11 => {
                proof {
                    reveal_strlit("US");
                }
                "US"
            },
            12 => {
                proof {
                    reveal_strlit("UY");
                }
                "UY"
            },
            13 => {
                proof {
                    reveal_strlit("UZ");
                }
                "UZ"
            },
            14 => {
                proof {
                    reveal_strlit("VE");
                }
                "VE"
            },
            15 => {
                proof {
                    reveal_strlit("VN");
                }
                "VN"
            },
            16 => {
                proof {
                    reveal_strlit("PR");
                }
                "PR"
            },
            17 => {
                proof {
                    reveal_strlit("PT");
                }
                "PT"
            },
            18 => {
                proof {
                    reveal_strlit("PY");
                }
                "PY"
            },
            19 => {
                proof {
                    reveal_strlit("QA");
                }
                "QA"
            },
            20 => {
                proof {
                    reveal_strlit("rainbow");
                }
                "rainbow"
            },
            21 => {
                proof {
                    reveal_strlit("RO");
                }
                "RO"
            },
            22 => {
                proof {
                    reveal_strlit("RS");
                }
                "RS"
            },
            23 => {
                proof {
                    reveal_strlit("RU");
                }
                "RU"
            },
            24 => {
                proof {
                    reveal_strlit("SA");
                }
                "SA"
            },
            25 => {
                proof {
                    reveal_strlit("SE");
                }
                "SE"
            },
            26 => {
                proof {
                    reveal_strlit("SG");
                }
                "SG"
            },
            27 => {
                proof {
                    reveal_strlit("SI");
                }
                "SI"
            },
            28 => {
                proof {
                    reveal_strlit("SK");
                }
                "SK"
            },
            29 => {
                proof {
                    reveal_strlit("SM");
                }
                "SM"
            },
            30 => {
                proof {
                    reveal_strlit("MK");
                }
                "MK"
            },
            31 => {
                proof {
                    reveal_strlit("MO");
                }
                "MO"
            },
            32 => {
                proof {
                    reveal_strlit("MT");
                }
                "MT"
            },
            33 => {
                proof {
                    reveal_strlit("MX");
                }
                "MX"
            },
            34 => {
                proof {
                    reveal_strlit("MY");
                }
                "MY"
            },
            35 => {
                proof {
                    reveal_strlit("NG");
                }
                "NG"
            },
            36 => {
                proof {
                    reveal_strlit("NL");
                }
                "NL"
            },
            37 => {
                proof {
                    reveal_strlit("NO");
                }
                "NO"
            },
            38 => {
                proof {
                    reveal_strlit("NP");
                }
                "NP"
            },
            39 => {
                proof {
                    reveal_strlit("NZ");
                }
                "NZ"
            },
            40 => {
                proof {
                    reveal_strlit("OM");
                }
                "OM"
            },
            41 => {
                proof {
                    reveal_strlit("PA");
                }
                "PA"
            },
            42 => {
                proof {
                    reveal_strlit("PE");
                }
                "PE"
            },
            43 => {
                proof {
                    reveal_strlit("JP");
                }
                "JP"
            },
            44 => {
                proof {
                    reveal_strlit("KP");
                }
                "KP"
            },
            45 => {
                proof {
                    reveal_strlit("KR");
                }
                "KR"
            },
            46 => {
                proof {
                    reveal_strlit("KW");
                }
                "KW"
            },
            47 => {
                proof {
                    reveal_strlit("KZ");
                }
                "KZ"
            },
            48 => {
                proof {
                    reveal_strlit("LB");
                }
                "LB"
            },
            49 => {
                proof {
                    reveal_strlit("LI");
                }
                "LI"
            },
            50 => {
                proof {
                    reveal_strlit("LK");
                }
                "LK"
            },
            51 => {
                proof {
                    reveal_strlit("LT");
                }
                "LT"
            },
            52 => {
                proof {
                    reveal_strlit("LU");
                }
                "LU"
            },
            53 => {
                proof {
                    reveal_strlit("LV");
                }
                "LV"
            },
            54 => {
                proof {
                    reveal_strlit("HN");
                }
                "HN"
            },
            55 => {
                proof {
                    reveal_strlit("HR");
                }
                "HR"
            },
            56 => {
                proof {
                    reveal_strlit("HU");
                }
                "HU"
            },
            57 => {
                proof {
                    reveal_strlit("ID");
                }
                "ID"
            },
            58 => {
                proof {
                    reveal_strlit("IE");
                }
                "IE"
            },
            59 => {
                proof {
                    reveal_strlit("IL");
                }
                "IL"
            },
            60 => {
                proof {
                    reveal_strlit("IM");
                }
                "IM"
            },
            61 => {
                proof {
                    reveal_strlit("imperial");
                }
                "imperial"
            },
            62 => {
                proof {
                    reveal_strlit("IN");
                }
                "IN"
            },
            63 => {
                proof {
                    reveal_strlit("IQ");
                }
                "IQ"
            },
            64 => {
                proof {
                    reveal_strlit("DE");
                }
                "DE"
            },
            65 => {
                proof {
                    reveal_strlit("DK");
                }
                "DK"
            },
            66 => {
                proof {
                    reveal_strlit("DO");
                }
                "DO"
            },
            67 => {
                proof {
                    reveal_strlit("DZ");
                }
                "DZ"
            },
            68 => {
                proof {
                    reveal_strlit("EC");
                }
                "EC"
            },
            69 => {
                proof {
                    reveal_strlit("EE");
                }
                "EE"
            },
            70 => {
                proof {
                    reveal_strlit("EG");
                }
                "EG"
            },
            71 => {
                proof {
                    reveal_strlit("ES");
                }
                "ES"
            },
            72 => {
                proof {
                    reveal_strlit("EU");
                }
                "EU"
            },
            73 => {
                proof {
                    reveal_strlit("BH");
                }
                "BH"
            },
            74 => {
                proof {
                    reveal_strlit("BO");
                }
                "BO"
            },
            75 => {
                proof {
                    reveal_strlit("BR");
                }
                "BR"
            },
            76 => {
                proof {
                    reveal_strlit("BT");
                }
                "BT"
            },
            77 => {
                proof {
                    reveal_strlit("BY");
                }
                "BY"
            },
            78 => {
                proof {
                    reveal_strlit("CA");
                }
                "CA"
            },
            79 => {
                proof {
                    reveal_strlit("CH");
                }
                "CH"
            },
            80 => {
                proof {
                    reveal_strlit("AD");
                }
                "AD"
            },
            81 => {
                proof {
                    reveal_strlit("AE");
                }
                "AE"
            },
            82 => {
                proof {
                    reveal_strlit("AL");
                }
                "AL"
            },
            83 => {
                proof {
                    reveal_strlit("AM");
                }
                "AM"
            },
            84 => {
                proof {
                    reveal_strlit("CL");
                }
                "CL"
            },
            85 => {
                proof {
                    reveal_strlit("AQ");
                }
                "AQ"
            },
            86 => {
                proof {
                    reveal_strlit("CN");
                }
                "CN"
            },
            87 => {
                proof {
                    reveal_strlit("AR");
                }
                "AR"
            },
            88 => {
                proof {
                    reveal_strlit("FI");
                }
                "FI"
            },
            89 => {
                proof {
                    reveal_strlit("CO");
                }
                "CO"
            },
            90 => {
                proof {
                    reveal_strlit("AT");
                }
                "AT"
            },
            91 => {
                proof {
                    reveal_strlit("IR");
                }
                "IR"
            },
            92 => {
                proof {
                    reveal_strlit("FR");
                }
                "FR"
            },
            93 => {
                proof {
                    reveal_strlit("communist");
                }
                "communist"
            },
            94 => {
                proof {
                    reveal_strlit("AU");
                }
                "AU"
            },
            95 => {
                proof {
                    reveal_strlit("LY");
                }
                "LY"
            },
            96 => {
                proof {
                    reveal_strlit("IS");
                }
                "IS"
            },
            97 => {
                proof {
                    reveal_strlit("GB");
                }
                "GB"
            },
            98 => {
                proof {
                    reveal_strlit("confederate");
                }
                "confederate"
            },
            99 => {
                proof {
                    reveal_strlit("AZ");
                }
                "AZ"
            },
            100 => {
                proof {
                    reveal_strlit("MA");
                }
                "MA"
            },
            101 => {
                proof {
                    reveal_strlit("IT");
                }
                "IT"
            },
            102 => {
                proof {
                    reveal_strlit("GE");
                }
                "GE"
            },
            103 => {
                proof {
                    reveal_strlit("CR");
                }
                "CR"
            },
            104 => {
                proof {
                    reveal_strlit("BA");
                }
                "BA"
            },
            105 => {
                proof {
                    reveal_strlit("PH");
                }
                "PH"
            },
            106 => {
                proof {
                    reveal_strlit("MC");
                }
                "MC"
            },
            107 => {
                proof {
                    reveal_strlit("JM");
                }
                "JM"
            },
            108 => {
                proof {
                    reveal_strlit("GR");
                }
                "GR"
            },
            109 => {
                proof {
                    reveal_strlit("CU");
                }
                "CU"
            },
            110 => {
                proof {
                    reveal_strlit("BD");
                }
                "BD"
            },
            111 => {
                proof {
                    reveal_strlit("SO");
                }
                "SO"
            },
            112 => {
                proof {
                    reveal_strlit("PK");
                }
                "PK"
            },
            113 => {
                proof {
                    reveal_strlit("MD");
                }
                "MD"
            },
            114 => {
                proof {
                    reveal_strlit("JO");
                }
                "JO"
            },
            115 => {
                proof {
                    reveal_strlit("GT");
                }
                "GT"
            },
            116 => {
                proof {
                    reveal_strlit("CY");
                }
                "CY"
            },
            117 => {
                proof {
                    reveal_strlit("BE");
                }
                "BE"
            },
            118 => {
                proof {
                    reveal_strlit("ZA");
                }
                "ZA"
            },
            119 => {
                proof {
                    reveal_strlit("SV");
                }
                "SV"
            },
            120 => {
                proof {
                    reveal_strlit("PL");
                }
                "PL"
            },
            121 => {
                proof {
                    reveal_strlit("ME");
                }
                "ME"
            },
            122 => {
                proof {
                    reveal_strlit("jolly");
                }
                "jolly"
            },
            123 => {
                proof {
                    reveal_strlit("HK");
                }
                "HK"
            },
            124 => {
                proof {
                    reveal_strlit("CZ");
                }
                "CZ"
            },
            125 => {
                proof {
                    reveal_strlit("BG");
                }
                "BG"
            },
        _ => {
            proof {
                reveal_strlit("");
            }
            ""
        },
    }
}

/// A number that tells apart the upper-case codes of the flags: the two
/// letters of a two-letter code, and the length of a longer one.
spec fn code_key(s: Seq<char>) -> int {
    if s.len() == 2 {
        (s[0] as int) * 256 + (s[1] as int)
    } else {
        s.len() as int
    }
}

/// The flag whose upper-case code has key `k`.
spec fn flag_of_key(k: int) -> u16 {
    if k == 21337 {
        1
    } else if k == 21576 {
        2
    } else if k == 21581 {
        3
    } else if k == 21582 {
        4
    } else if k == 21586 {
        5
    } else if k == 21588 {
        6
    } else if k == 21591 {
        7
    } else if k == 21594 {
        8
    } else if k == 21825 {
        9
    } else if k == 21838 {
        10
    } else if k == 21843 {
        11
    } else if k == 21849 {
        12
    } else if k == 21850 {
        13
    } else if k == 22085 {
        14
    } else if k == 22094 {
        15
    } else if k == 20562 {
        16
    } else if k == 20564 {
        17
    } else if k == 20569 {
        18
    } else if k == 20801 {
        19
    } else if k == 7 {
        20
    } else if k == 21071 {
        21
    } else if k == 21075 {
        22
    } else if k == 21077 {
        23
    } else if k == 21313 {
        24
    } else if k == 21317 {
        25
    } else if k == 21319 {
        26
    } else if k == 21321 {
        27
    } else if k == 21323 {
        28
    } else if k == 21325 {
        29
    } else if k == 19787 {
        30
    } else if k == 19791 {
        31
    } else if k == 19796 {
        32
    } else if k == 19800 {
        33
    } else if k == 19801 {
        34
    } else if k == 20039 {
        35
    } else if k == 20044 {
        36
    } else if k == 20047 {
        37
    } else if k == 20048 {
        38
    } else if k == 20058 {
        39
    } else if k == 20301 {
        40
    } else if k == 20545 {
        41
    } else if k == 20549 {
        42
    } else if k == 19024 {
        43
    } else if k == 19280 {
        44
    } else if k == 19282 {
        45
    } else if k == 19287 {
        46
    } else if k == 19290 {
        47
    } else if k == 19522 {
        48
    } else if k == 19529 {
        49
    } else if k == 19531 {
        50
    } else if k == 19540 {
        51
    } else if k == 19541 {
        52
    } else if k == 19542 {
        53
    } else if k == 18510 {
        54
    } else if k == 18514 {
        55
    } else if k == 18517 {
        56
    } else if k == 18756 {
        57
    } else if k == 18757 {
        58
    } else if k == 18764 {
        59
    } else if k == 18765 {
        60
    } else if k == 8 {
        61
    } else if k == 18766 {
        62
    } else if k == 18769 {
        63
    } else if k == 17477 {
        64
    } else if k == 17483 {
        65
    } else if k == 17487 {
        66
    } else if k == 17498 {
        67
    } else if k == 17731 {
        68
    } else if k == 17733 {
        69
    } else if k == 17735 {
        70
    } else if k == 17747 {
        71
    } else if k == 17749 {
        72
    } else if k == 16968 {
        73
    } else if k == 16975 {
        74
    } else if k == 16978 {
        75
    } else if k == 16980 {
        76
    } else if k == 16985 {
        77
    } else if k == 17217 {
        78
    } else if k == 17224 {
        79
    } else if k == 16708 {
        80
    } else if k == 16709 {
        81
    } else if k == 16716 {
        82
    } else if k == 16717 {
        83
    } else if k == 17228 {
        84
    } else if k == 16721 {
        85
    } else if k == 17230 {
        86
    } else if k == 16722 {
        87
    } else if k == 17993 {
        88
    } else if k == 17231 {
        89
    } else if k == 16724 {
        90
    } else if k == 18770 {
        91
    } else if k == 18002 {
        92
    } else if k == 9 {
        93
    } else if k == 16725 {
        94
    } else if k == 19545 {
        95
    } else if k == 18771 {
        96
    } else if k == 18242 {
        97
    } else if k == 11 {
        98
    } else if k == 16730 {
        99
    } else if k == 19777 {
        100
    } else if k == 18772 {
        101
    } else if k == 18245 {
        102
    } else if k == 17234 {
        103
    } else if k == 16961 {
        104
    } else if k == 20552 {
        105
    } else if k == 19779 {
        106
    } else if k == 19021 {
        107
    } else if k == 18258 {
        108
    } else if k == 17237 {
        109
    } else if k == 16964 {
        110
    } else if k == 21327 {
        111
    } else if k == 20555 {
        112
    } else if k == 19780 {
        113
    } else if k == 19023 {
        114
    } else if k == 18260 {
        115
    } else if k == 17241 {
        116
    } else if k == 16965 {
        117
    } else if k == 23105 {
        118
    } else if k == 21334 {
        119
    } else if k == 20556 {
        120
    } else if k == 19781 {
        121
    } else if k == 5 {
        122
    } else if k == 18507 {
        123
    } else if k == 17242 {
        124
    } else if k == 16967 {
        125
    } else {
        0
    }
}

/// Flag `n` has an ASCII code, whose upper case is the code that `from_str`
/// looks up, and the key of that upper-case code leads back to `n`.
spec fn code_table_holds(n: u16) -> bool {
    &&& is_ascii_text(spec_country_code(n))
    &&& ascii_upper_text(spec_country_code(n)) == spec_upper_code(n)
    &&& flag_of_key(code_key(spec_upper_code(n))) == n
}

/// The table of codes holds for one flag.
#[verifier::rlimit(100)]
#[verifier::spinoff_prover]
proof fn lemma_code_table(n: u16)
    requires
        1 <= n <= 125,
    ensures
        code_table_holds(n),
{
    let s = spec_country_code(n);
    assert(ascii_upper_text(s) =~= spec_upper_code(n));
}

/// The search from `i` finds `f` when no flag from `i` up to `f` has the
/// upper-case code of `f`.
proof fn lemma_find_flag_from(f: u16, i: int)
    requires
        1 <= i <= f <= 125,
        forall|j: u16| i <= j < f ==> spec_upper_code(j) != spec_upper_code(f),
    ensures
        spec_find_flag_from(spec_upper_code(f), i) == Some(f),
    decreases f - i,
{
    if i < f {
        assert(spec_upper_code(i as u16) != spec_upper_code(f));
        lemma_find_flag_from(f, i + 1);
    }
}

/// The code of every flag reads back as that flag: it is ASCII, so
/// `from_str` compares its upper case, and the first flag whose upper-case
/// code is that is the flag itself. With the contracts of `to_str` and
/// `from_str` this gives `from_str(f.to_str()) == Some(f)`.
pub proof fn lemma_from_str_of_to_str(f: u16)
    requires
        1 <= f <= 125,
    ensures
        is_ascii_text(spec_country_code(f)),
        spec_find_flag(ascii_upper_text(spec_country_code(f))) == Some(f),
{
    lemma_code_table(f);
    assert forall|j: u16| 1 <= j < f implies spec_upper_code(j) != spec_upper_code(f) by {
        lemma_code_table(j);
    }
    lemma_find_flag_from(f, 1);
}

/// The lookup of `from_str` ignores case: for an ASCII text, its lower-case
/// and upper-case forms are ASCII too and find the same flag as the text
/// itself.
pub proof fn lemma_from_str_ignores_case(s: Seq<char>)
    requires
        is_ascii_text(s),
    ensures
        is_ascii_text(ascii_lower_text(s)),
        is_ascii_text(ascii_upper_text(s)),
        spec_find_flag(ascii_upper_text(ascii_lower_text(s))) == spec_find_flag(ascii_upper_text(s)),
        spec_find_flag(ascii_upper_text(ascii_upper_text(s))) == spec_find_flag(ascii_upper_text(s)),
{
    assert forall|i: int| 0 <= i < s.len() implies (ascii_lower(s[i]) as u32) < 128 && ascii_upper(
        ascii_lower(s[i]),
    ) == ascii_upper(s[i]) && (ascii_upper(s[i]) as u32) < 128 && ascii_upper(ascii_upper(s[i]))
        == ascii_upper(s[i]) by {
        let c = s[i];
        assert((c as u32) < 128);
    }
    assert(ascii_upper_text(ascii_lower_text(s)) =~= ascii_upper_text(s));
    assert(ascii_upper_text(ascii_upper_text(s)) =~= ascii_upper_text(s));
}

/// The search from `i` finds nothing when no flag from `i` on has `key` as
/// its upper-case code.
proof fn lemma_find_flag_from_none(key: Seq<char>, i: int)
    requires
        1 <= i,
        forall|j: u16| i <= j <= 125 ==> spec_upper_code(j) != key,
    ensures
        spec_find_flag_from(key, i) is None,
    decreases 126 - i,
{
    if i <= 125 {
        assert(spec_upper_code(i as u16) != key);
        lemma_find_flag_from_none(key, i + 1);
    }
}

/// The lookup of `from_str` on ASCII text: it ignores case (a text, its
/// lower case and its upper case find the same flag), the code of every flag
/// finds that flag, and a text that is no flag's code, up to case, finds
/// none. With the contract of `from_str`, for ASCII `s` this gives
/// `from_str(s) == from_str(lower(s)) == from_str(upper(s))`,
/// `from_str(f.to_str()) == Some(f)` and `from_str(s) == None` for an unknown
/// code.
pub proof fn lemma_flag_lookup(s: Seq<char>)
    requires
        is_ascii_text(s),
    ensures
        is_ascii_text(ascii_lower_text(s)),
        is_ascii_text(ascii_upper_text(s)),
        spec_flag_of_ascii(ascii_lower_text(s)) == spec_flag_of_ascii(s),
        spec_flag_of_ascii(ascii_upper_text(s)) == spec_flag_of_ascii(s),
        forall|f: u16| 1 <= f <= 125 ==> spec_flag_of_ascii(#[trigger] spec_country_code(f)) == Some(f),
        (forall|f: u16| 1 <= f <= 125 ==> spec_upper_code(f) != ascii_upper_text(s))
            ==> spec_flag_of_ascii(s) is None,
        (exists|f: u16| 1 <= f <= 125 && spec_upper_code(f) == ascii_upper_text(s))
            ==> spec_flag_of_ascii(s) is Some,
{
    lemma_from_str_ignores_case(s);
    assert forall|f: u16| 1 <= f <= 125 implies spec_flag_of_ascii(#[trigger] spec_country_code(f))
        == Some(f) by {
        lemma_from_str_of_to_str(f);
    }
    let key = ascii_upper_text(s);
    if forall|f: u16| 1 <= f <= 125 ==> spec_upper_code(f) != key {
        lemma_find_flag_from_none(key, 1);
    }
    if exists|f: u16| 1 <= f <= 125 && spec_upper_code(f) == key {
        let f = choose|f: u16| 1 <= f <= 125 && spec_upper_code(f) == key;
        lemma_code_table(f);
        lemma_from_str_of_to_str(f);
        assert(ascii_upper_text(spec_country_code(f)) == key);
    }
}

} // verus!
