use vstd::prelude::*;
use crate::text::str_eq;

verus! {

/// The color classes a printed report can take.
#[derive(Clone, Copy, Debug, PartialEq, Eq, Structural)]
pub enum ColorKind {
    BrightYellow,
    BrightBlue,
    Dimmed,
    BrightCyan,
    Normal,
}

/// Which color a weather description is shown in: bright yellow for a
/// clear sky, bright blue for clouds, dimmed for haze-like conditions,
/// bright cyan for precipitation, and the terminal's normal color for
/// anything else.
pub open spec fn color_of(desc: Seq<char>) -> ColorKind {
    if desc == "clear sky"@ {
        ColorKind::BrightYellow
    } else if desc == "few clouds"@ || desc == "scattered clouds"@ || desc == "broken clouds"@ {
        ColorKind::BrightBlue
    } else if desc == "overcast clouds"@ || desc == "mist"@ || desc == "haze"@ || desc == "smoke"@
        || desc == "sand"@ || desc == "dust"@ || desc == "fog"@ || desc == "squalls"@ {
        ColorKind::Dimmed
    } else if desc == "shower rain"@ || desc == "rain"@ || desc == "thunderstorm"@
        || desc == "snow"@ {
        ColorKind::BrightCyan
    } else {
        ColorKind::Normal
    }
}

/// Picks the display color for a weather description.
pub fn color_for_description(desc: &str) -> (r: ColorKind)
    ensures
        r == color_of(desc@),
{
    if str_eq(desc, "clear sky") {
        ColorKind::BrightYellow
    } else if str_eq(desc, "few clouds") || str_eq(desc, "scattered clouds") || str_eq(
        desc,
        "broken clouds",
    ) {
        ColorKind::BrightBlue
    } else if str_eq(desc, "overcast clouds") || str_eq(desc, "mist") || str_eq(desc, "haze")
        || str_eq(desc, "smoke") || str_eq(desc, "sand") || str_eq(desc, "dust") || str_eq(
        desc,
        "fog",
    ) || str_eq(desc, "squalls") {
        ColorKind::Dimmed
    } else if str_eq(desc, "shower rain") || str_eq(desc, "rain") || str_eq(desc, "thunderstorm")
        || str_eq(desc, "snow") {
        ColorKind::BrightCyan
    } else {
        ColorKind::Normal
    }
}

} // verus!
