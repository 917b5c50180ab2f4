use vstd::prelude::*;
use crate::color::color_of;
use crate::color::color_for_description;
use crate::color::ColorKind;
use crate::digits::tenths_text;
use crate::digits::tenths_string;

verus! {

/// One entry of the response's weather array; only its description is read.
pub struct Weather {
    pub description: String,
}

/// The numeric readings of the response. The temperature (degrees Celsius)
/// and the humidity (percent) are held in tenths, the precision the report
/// prints them with.
pub struct Main {
    pub temp_tenths: i64,
    pub humidity_tenths: i64,
}

/// The wind reading of the response, in tenths of a meter per second.
pub struct Wind {
    pub speed_tenths: i64,
}

/// The fixed schema of one weather lookup: the weather entries, the main
/// readings, the wind, and the resolved place name.
pub struct WeatherResponse {
    pub weather: Vec<Weather>,
    pub main: Main,
    pub wind: Wind,
    pub name: String,
}

/// The full text of one report: the place name and the first entry's
/// description on the first line, then the temperature, the humidity and
/// the wind speed, each rendered with one digit after the decimal point.
pub open spec fn report_text(r: WeatherResponse) -> Seq<char> {
    "weather in "@ + r.name@ + ": "@ + r.weather[0].description@ + "\n        > temp: "@
        + tenths_text(r.main.temp_tenths as int) + "C\n        > humidity: "@
        + tenths_text(r.main.humidity_tenths as int) + "%\n        > wind speed: "@
        + tenths_text(r.wind.speed_tenths as int) + " m/s\n        "@
}

/// Renders the report for one response. The response must hold at least
/// one weather entry; only the first is shown.
pub fn format_report(r: &WeatherResponse) -> (out: String)
    requires
        r.weather@.len() >= 1,
    ensures
        out@ == report_text(*r),
{
    let mut s = "weather in ".to_owned();
    s.append(r.name.as_str());
    s.append(": ");
    s.append(r.weather[0].description.as_str());
    s.append("\n        > temp: ");
    let temp = tenths_string(r.main.temp_tenths);
    s.append(temp.as_str());
    s.append("C\n        > humidity: ");
    let humidity = tenths_string(r.main.humidity_tenths);
    s.append(humidity.as_str());
    s.append("%\n        > wind speed: ");
    let speed = tenths_string(r.wind.speed_tenths);
    s.append(speed.as_str());
    s.append(" m/s\n        ");
    proof {
        assert(s@ =~= report_text(*r));
    }
    s
}

/// The display color of one response: the color its first description picks.
pub fn report_color(r: &WeatherResponse) -> (c: ColorKind)
    requires
        r.weather@.len() >= 1,
    ensures
        c == color_of(r.weather[0].description@),
{
    color_for_description(r.weather[0].description.as_str())
}

} // verus!
