//! The fixed tool registry advertised to the model.
//!
//! Three descriptors, created once and never mutated: `getWeather(city)`,
//! `scraper(url)` and `getTimeOfDay()`. Each tool takes at most one required
//! string parameter; the unverified shell renders the descriptors in the
//! endpoint's JSON-schema form verbatim.

use vstd::prelude::*;

verus! {

/// A tool's single required string parameter: its name and the description
/// shown to the model.
#[derive(Debug, Clone)]
pub struct ToolParameter {
    pub name: String,
    pub description: String,
}

/// One advertised tool: name, human description, and its parameter, when it
/// takes one.
#[derive(Debug, Clone)]
pub struct ToolDescriptor {
    pub name: String,
    pub description: String,
    pub parameter: Option<ToolParameter>,
}

/// The fixed registry, in the order it is advertised.
pub fn tool_registry() -> (r: Vec<ToolDescriptor>)
    ensures
        r@.len() == 3,
        r@[0].name@ == "getWeather"@,
        r@[0].parameter matches Some(p) && p.name@ == "city"@,
        r@[1].name@ == "scraper"@,
        r@[1].parameter matches Some(p) && p.name@ == "url"@,
        r@[2].name@ == "getTimeOfDay"@,
        r@[2].parameter is None,
{
    let mut tools: Vec<ToolDescriptor> = Vec::new();
    tools.push(
        ToolDescriptor {
            name: String::from_str("getWeather"),
            description: String::from_str("Get weather forecast for the city passed to it"),
            parameter: Some(
                ToolParameter {
                    name: String::from_str("city"),
                    description: String::from_str("The city specified by the user"),
                },
            ),
        },
    );
    tools.push(
        ToolDescriptor {
            name: String::from_str("scraper"),
            description: String::from_str(
                "Get the text content of the webpage from the url passed to it",
            ),
            parameter: Some(
                ToolParameter {
                    name: String::from_str("url"),
                    description: String::from_str("The url from which to fetch the content"),
                },
            ),
        },
    );
    tools.push(
        ToolDescriptor {
            name: String::from_str("getTimeOfDay"),
            description: String::from_str("Get the time of day."),
            parameter: None,
        },
    );
    tools
}

} // verus!
