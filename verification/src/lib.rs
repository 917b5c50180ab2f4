//! Core logic of a small interactive weather lookup tool: building the
//! request URL, choosing a display color from the weather description,
//! rendering the numeric readings with one decimal digit, assembling the
//! report text, and deciding whether the prompt loop continues.

mod color;
mod digits;
mod report;
mod text;
mod url;

pub use color::color_for_description;
pub use color::color_of;
pub use color::ColorKind;
pub use digits::dec_digits;
pub use digits::decimal_string;
pub use digits::digit_char;
pub use digits::digit_str;
pub use digits::nonneg_tenths_text;
pub use digits::tenths_string;
pub use digits::tenths_text;
pub use report::format_report;
pub use report::report_color;
pub use report::report_text;
pub use report::Main;
pub use report::Weather;
pub use report::WeatherResponse;
pub use report::Wind;
pub use text::continue_answer;
pub use text::str_eq;
pub use text::wants_another;
pub use url::build_url;
pub use url::request_url;
