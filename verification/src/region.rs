use crate::layout::{SNES_BUFFER_SIZE, VIDEO_MODE_INDEX};
use vstd::prelude::*;

verus! {

/// Number of region codes that have a country assigned.
pub const REGION_COUNT: usize = 14;

/// Country and television standard for each assigned region code, in code order.
pub const REGIONS: [(&'static str, &'static str); 14] = [
    ("Japan", "NTSC"),
    ("USA", "NTSC"),
    ("Europe", "PAL"),
    ("Sweden", "PAL"),
    ("Finland", "PAL"),
    ("Denmark", "PAL"),
    ("France", "PAL"),
    ("Holland", "PAL"),
    ("Spain", "PAL"),
    ("Germany", "PAL"),
    ("Italy", "PAL"),
    ("China", "PAL"),
    ("Indonesia", "PAL"),
    ("Korea", "PAL"),
];

/// Country and television standard of a cartridge.
#[derive(Debug)]
pub struct VideoMode {
    pub country: String,
    pub mode: String,
}

/// What a `VideoMode` says, as two texts.
pub struct VideoModeView {
    pub country: Seq<char>,
    pub mode: Seq<char>,
}

impl View for VideoMode {
    type V = VideoModeView;

    open spec fn view(&self) -> VideoModeView {
        VideoModeView { country: self.country@, mode: self.mode@ }
    }
}

/// The country that a region code stands for.
pub open spec fn country_name(code: u8) -> Seq<char> {
    match code {
        0 => "Japan"@,
        1 => "USA"@,
        2 => "Europe"@,
        3 => "Sweden"@,
        4 => "Finland"@,
        5 => "Denmark"@,
        6 => "France"@,
        7 => "Holland"@,
        8 => "Spain"@,
        9 => "Germany"@,
        10 => "Italy"@,
        11 => "China"@,
        12 => "Indonesia"@,
        13 => "Korea"@,
        _ => "Unknown"@,
    }
}

/// The television standard of a region: NTSC in Japan and the USA, PAL in
/// every other assigned region.
pub open spec fn timing_name(code: u8) -> Seq<char> {
    if code <= 1 {
        "NTSC"@
    } else if code <= 13 {
        "PAL"@
    } else {
        "Unknown"@
    }
}

/// The video mode that a region code stands for.
pub open spec fn video_mode_of(code: u8) -> VideoModeView {
    VideoModeView { country: country_name(code), mode: timing_name(code) }
}

/// Exactly the codes from 0 to 13 are assigned: each has the country and the
/// television standard of its table entry, and every other code reads
/// "Unknown" for both. A television standard is NTSC, PAL or unknown.
pub proof fn assigned_regions(code: u8)
    ensures
        REGIONS@.len() == REGION_COUNT,
        code < REGION_COUNT ==> REGIONS[code as int].0@ == country_name(code) && REGIONS[code as int].1@
            == timing_name(code),
        code >= REGION_COUNT <==> country_name(code) == "Unknown"@,
        code >= REGION_COUNT <==> timing_name(code) == "Unknown"@,
        timing_name(code) == "NTSC"@ || timing_name(code) == "PAL"@ || timing_name(code)
            == "Unknown"@,
{
    reveal_strlit("Unknown");
    reveal_strlit("NTSC");
    reveal_strlit("PAL");
    reveal_strlit("Japan");
    reveal_strlit("USA");
    reveal_strlit("Europe");
    reveal_strlit("Sweden");
    reveal_strlit("Finland");
    reveal_strlit("Denmark");
    reveal_strlit("France");
    reveal_strlit("Holland");
    reveal_strlit("Spain");
    reveal_strlit("Germany");
    reveal_strlit("Italy");
    reveal_strlit("China");
    reveal_strlit("Indonesia");
    reveal_strlit("Korea");
    if code < REGION_COUNT {
        assert(country_name(code)[0] != 'U' || country_name(code).len() != 7);
        assert(timing_name(code).len() != 7);
    }
}

/// Decodes the region byte of a field block.
pub fn get_video_mode(buffer: [u8; SNES_BUFFER_SIZE]) -> (video_mode: VideoMode)
    ensures
        video_mode@ == video_mode_of(buffer[VIDEO_MODE_INDEX as int]),
{
    let code = buffer[VIDEO_MODE_INDEX];
    if (code as usize) < REGION_COUNT {
        let (country, mode) = REGIONS[code as usize];
        VideoMode { country: country.to_string(), mode: mode.to_string() }
    } else {
        VideoMode { country: "Unknown".to_string(), mode: "Unknown".to_string() }
    }
}

} // verus!
