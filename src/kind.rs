use vstd::prelude::*;

use crate::text::{eq_ignore_ascii_case, same_ignoring_ascii_case};
use crate::todo::ParseError;

verus! {

/// The kinds of modules that the aide tools offer.
#[derive(Clone, Copy, Debug, PartialEq, Eq, Structural)]
pub enum ModuleKind {
    Todo,
    Reminder,
    Notification,
    Event,
    Weather,
    Generic,
}

/// The module kind that a name stands for, its letters taken in either case.
pub open spec fn spec_parse_module_kind(s: Seq<char>) -> Result<ModuleKind, ParseError> {
    if same_ignoring_ascii_case(s, "Todo"@) {
        Ok(ModuleKind::Todo)
    } else if same_ignoring_ascii_case(s, "Reminder"@) {
        Ok(ModuleKind::Reminder)
    } else if same_ignoring_ascii_case(s, "Notification"@) {
        Ok(ModuleKind::Notification)
    } else if same_ignoring_ascii_case(s, "Event"@) {
        Ok(ModuleKind::Event)
    } else if same_ignoring_ascii_case(s, "Weather"@) {
        Ok(ModuleKind::Weather)
    } else if same_ignoring_ascii_case(s, "Generic"@) {
        Ok(ModuleKind::Generic)
    } else {
        Err(ParseError::VariantNotFound)
    }
}

impl ModuleKind {
    /// Reads a module kind from its name; ASCII letters may be in either case.
    pub fn parse(s: &str) -> (r: Result<ModuleKind, ParseError>)
        ensures
            r == spec_parse_module_kind(s@),
    {
        if eq_ignore_ascii_case(s, "Todo") {
            Ok(ModuleKind::Todo)
        } else if eq_ignore_ascii_case(s, "Reminder") {
            Ok(ModuleKind::Reminder)
        } else if eq_ignore_ascii_case(s, "Notification") {
            Ok(ModuleKind::Notification)
        } else if eq_ignore_ascii_case(s, "Event") {
            Ok(ModuleKind::Event)
        } else if eq_ignore_ascii_case(s, "Weather") {
            Ok(ModuleKind::Weather)
        } else if eq_ignore_ascii_case(s, "Generic") {
            Ok(ModuleKind::Generic)
        } else {
            Err(ParseError::VariantNotFound)
        }
    }
}

impl core::str::FromStr for ModuleKind {
    type Err = ParseError;

    fn from_str(s: &str) -> Result<ModuleKind, ParseError> {
        ModuleKind::parse(s)
    }
}

/// The kinds of weather reports.
#[derive(Clone, Copy, Debug, PartialEq, Eq, Structural)]
pub enum WeatherTypes {
    Current,
    Forecast,
    Rain,
}

/// The weather report kind that a name stands for, its letters taken in either case.
pub open spec fn spec_parse_weather_type(s: Seq<char>) -> Result<WeatherTypes, ParseError> {
    if same_ignoring_ascii_case(s, "Current"@) {
        Ok(WeatherTypes::Current)
    } else if same_ignoring_ascii_case(s, "Forecast"@) {
        Ok(WeatherTypes::Forecast)
    } else if same_ignoring_ascii_case(s, "Rain"@) {
        Ok(WeatherTypes::Rain)
    } else {
        Err(ParseError::VariantNotFound)
    }
}

impl WeatherTypes {
    /// Reads a weather report kind from its name; ASCII letters may be in either case.
    pub fn parse(s: &str) -> (r: Result<WeatherTypes, ParseError>)
        ensures
            r == spec_parse_weather_type(s@),
    {
        if eq_ignore_ascii_case(s, "Current") {
            Ok(WeatherTypes::Current)
        } else if eq_ignore_ascii_case(s, "Forecast") {
            Ok(WeatherTypes::Forecast)
        } else if eq_ignore_ascii_case(s, "Rain") {
            Ok(WeatherTypes::Rain)
        } else {
            Err(ParseError::VariantNotFound)
        }
    }
}

impl Default for WeatherTypes {
    fn default() -> (r: WeatherTypes)
        ensures
            r == WeatherTypes::Current,
    {
        WeatherTypes::Current
    }
}

impl core::str::FromStr for WeatherTypes {
    type Err = ParseError;

    fn from_str(s: &str) -> Result<WeatherTypes, ParseError> {
        WeatherTypes::parse(s)
    }
}

/// The answer listing the module kinds.
#[derive(Debug)]
pub struct GetModuleKindResponse {
    pub data: Vec<String>,
}

/// An answer that carries a list of strings.
#[derive(Debug)]
pub struct DataResponse {
    pub data: Vec<String>,
}

/// An answer that carries a list of borrowed strings.
#[derive(Debug)]
pub struct DataResponseRef<'a> {
    pub data: Vec<&'a str>,
}

/// An answer that only tells whether an operation succeeded.
#[derive(Clone, Copy, Debug, PartialEq, Eq, Structural)]
pub struct ResultResponse {
    pub success: bool,
}

} // verus!
