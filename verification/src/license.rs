use crate::layout::{LICENSES_INDEX, SNES_BUFFER_SIZE};
use vstd::prelude::*;

verus! {

/// The publisher for each license code, in code order. An empty entry is a
/// code that no publisher holds.
pub const LICENSES: [&'static str; 256] = [
    "Invalid",
    "Nintendo",
    "",
    "",
    "",
    "",
    "Zamuse",
    "",
    "",
    "",
    "Capcom",
    "HOT B",
    "Jaleco",
    "STORM (Sales Curve) (1)",
    "",
    "",
    "",
    "",
    "Mebio Software",
    "",
    "",
    "",
    "Gremlin Graphics",
    "",
    "",
    "",
    "COBRA Team",
    "Human/Field",
    "",
    "",
    "Hudson Soft",
    "",
    "",
    "Yanoman",
    "",
    "",
    "Tecmo (1)",
    "",
    "",
    "Forum",
    "Park Place Productions / VIRGIN",
    "",
    "",
    "Tokai Engeneering (SUNSOFT?)",
    "POW",
    "Loriciel / Micro World",
    "",
    "",
    "",
    "Enix",
    "",
    "",
    "Kemco (1)",
    "Seta Co.,Ltd.",
    "",
    "",
    "",
    "",
    "Visit Co.,Ltd.",
    "",
    "",
    "",
    "",
    "",
    "",
    "",
    "",
    "HECT",
    "",
    "",
    "",
    "",
    "",
    "",
    "",
    "",
    "Loriciel",
    "",
    "",
    "",
    "Seika Corp.",
    "UBI Soft",
    "",
    "",
    "",
    "",
    "",
    "",
    "Spectrum Holobyte",
    "",
    "",
    "Irem",
    "",
    "",
    "Raya Systems/Sculptured Software",
    "Renovation Pruducts",
    "Malibu Games (T*HQ Inc.) / Black Pearl",
    "",
    "",
    "U.S. Gold",
    "Absolute Entertainment",
    "Acclaim",
    "Activision",
    "American Sammy",
    "GameTek",
    "Hi Tech",
    "LJN Toys",
    "",
    "",
    "",
    "",
    "Mindscape",
    "",
    "",
    "",
    "Technos Japan Corp. (Tradewest)",
    "",
    "",
    "American Softworks Corp.",
    "Titus",
    "Virgin Games",
    "Maxis",
    "",
    "",
    "",
    "",
    "",
    "Ocean",
    "",
    "",
    "Electronic Arts",
    "",
    "",
    "Laser Beam",
    "",
    "",
    "",
    "Elite",
    "Electro Brain",
    "Infogrames",
    "Interplay",
    "LucasArts",
    "Sculptured Soft",
    "",
    "",
    "STORM (Sales Curve) (2)",
    "",
    "",
    "",
    "THQ Software",
    "Accolade Inc.",
    "Triffix Entertainment",
    "",
    "",
    "Microprose",
    "",
    "",
    "",
    "Kemco (2)",
    "",
    "",
    "",
    "Namcot/Namco Ltd. (1)",
    "",
    "",
    "Koei/Koei! (second license?)",
    "",
    "",
    "Tokuma Shoten Intermedia",
    "",
    "",
    "DATAM-Polystar",
    "",
    "",
    "",
    "Bullet-Proof Software",
    "Vic Tokai",
    "",
    "",
    "",
    "I'Max",
    "",
    "",
    "CHUN Soft",
    "Video System Co., Ltd.",
    "BEC",
    "",
    "",
    "",
    "",
    "Kaneco",
    "",
    "",
    "Pack in Video",
    "Nichibutsu",
    "TECMO (2)",
    "Imagineer Co.",
    "",
    "",
    "",
    "",
    "Wolf Team",
    "",
    "",
    "",
    "",
    "Konami",
    "K.Amusement",
    "",
    "",
    "Takara",
    "",
    "",
    "Technos Jap. ????",
    "JVC",
    "",
    "",
    "Toei Animation",
    "Toho",
    "",
    "",
    "Namcot/Namco Ltd. (2)",
    "",
    "",
    "ASCII Co. Activison",
    "BanDai America",
    "",
    "",
    "Enix",
    "",
    "",
    "Halken",
    "",
    "",
    "",
    "",
    "Culture Brain",
    "Sunsoft",
    "Toshiba EMI/System Vision",
    "Sony (Japan) / Imagesoft",
    "",
    "",
    "Sammy",
    "Taito",
    "",
    "",
    "Kemco (3) ????",
    "Square",
    "NHK",
    "Data East",
    "Tonkin House",
    "",
    "",
    "KOEI",
    "",
    "",
];

/// The publisher that a license code stands for; the empty text for a code
/// that no publisher holds.
pub open spec fn license_name(code: u8) -> Seq<char> {
    match code {
        0 => "Invalid"@,
        1 => "Nintendo"@,
        6 => "Zamuse"@,
        10 => "Capcom"@,
        11 => "HOT B"@,
        12 => "Jaleco"@,
        13 => "STORM (Sales Curve) (1)"@,
        18 => "Mebio Software"@,
        22 => "Gremlin Graphics"@,
        26 => "COBRA Team"@,
        27 => "Human/Field"@,
        30 => "Hudson Soft"@,
        33 => "Yanoman"@,
        36 => "Tecmo (1)"@,
        39 => "Forum"@,
        40 => "Park Place Productions / VIRGIN"@,
        43 => "Tokai Engeneering (SUNSOFT?)"@,
        44 => "POW"@,
        45 => "Loriciel / Micro World"@,
        49 => "Enix"@,
        52 => "Kemco (1)"@,
        53 => "Seta Co.,Ltd."@,
        58 => "Visit Co.,Ltd."@,
        67 => "HECT"@,
        76 => "Loriciel"@,
        80 => "Seika Corp."@,
        81 => "UBI Soft"@,
        88 => "Spectrum Holobyte"@,
        91 => "Irem"@,
        94 => "Raya Systems/Sculptured Software"@,
        95 => "Renovation Pruducts"@,
        96 => "Malibu Games (T*HQ Inc.) / Black Pearl"@,
        99 => "U.S. Gold"@,
        100 => "Absolute Entertainment"@,
        101 => "Acclaim"@,
        102 => "Activision"@,
        103 => "American Sammy"@,
        104 => "GameTek"@,
        105 => "Hi Tech"@,
        106 => "LJN Toys"@,
        111 => "Mindscape"@,
        115 => "Technos Japan Corp. (Tradewest)"@,
        118 => "American Softworks Corp."@,
        119 => "Titus"@,
        120 => "Virgin Games"@,
        121 => "Maxis"@,
        127 => "Ocean"@,
        130 => "Electronic Arts"@,
        133 => "Laser Beam"@,
        137 => "Elite"@,
        138 => "Electro Brain"@,
        139 => "Infogrames"@,
        140 => "Interplay"@,
        141 => "LucasArts"@,
        142 => "Sculptured Soft"@,
        145 => "STORM (Sales Curve) (2)"@,
        149 => "THQ Software"@,
        150 => "Accolade Inc."@,
        151 => "Triffix Entertainment"@,
        154 => "Microprose"@,
        158 => "Kemco (2)"@,
        162 => "Namcot/Namco Ltd. (1)"@,
        165 => "Koei/Koei! (second license?)"@,
        168 => "Tokuma Shoten Intermedia"@,
        171 => "DATAM-Polystar"@,
        175 => "Bullet-Proof Software"@,
        176 => "Vic Tokai"@,
        180 => "I'Max"@,
        183 => "CHUN Soft"@,
        184 => "Video System Co., Ltd."@,
        185 => "BEC"@,
        190 => "Kaneco"@,
        193 => "Pack in Video"@,
        194 => "Nichibutsu"@,
        195 => "TECMO (2)"@,
        196 => "Imagineer Co."@,
        201 => "Wolf Team"@,
        206 => "Konami"@,
        207 => "K.Amusement"@,
        210 => "Takara"@,
        213 => "Technos Jap. ????"@,
        214 => "JVC"@,
        217 => "Toei Animation"@,
        218 => "Toho"@,
        221 => "Namcot/Namco Ltd. (2)"@,
        224 => "ASCII Co. Activison"@,
        225 => "BanDai America"@,
        228 => "Enix"@,
        231 => "Halken"@,
        236 => "Culture Brain"@,
        237 => "Sunsoft"@,
        238 => "Toshiba EMI/System Vision"@,
        239 => "Sony (Japan) / Imagesoft"@,
        242 => "Sammy"@,
        243 => "Taito"@,
        246 => "Kemco (3) ????"@,
        247 => "Square"@,
        248 => "NHK"@,
        249 => "Data East"@,
        250 => "Tonkin House"@,
        253 => "KOEI"@,
        _ => ""@,
    }
}

/// The table has one entry for every byte, and that entry is the publisher
/// that the byte stands for.
pub proof fn table_covers_every_code(code: u8)
    ensures
        LICENSES@.len() == 256,
        LICENSES[code as int]@ == license_name(code),
{
}

/// Looks up the publisher of a field block. Every code has an entry, so the
/// lookup cannot fail.
pub fn get_license(buffer: [u8; SNES_BUFFER_SIZE]) -> (license: String)
    ensures
        license@ == license_name(buffer[LICENSES_INDEX as int]),
{
    LICENSES[buffer[LICENSES_INDEX] as usize].to_string()
}

} // verus!
