use vstd::prelude::*;

verus! {

/// The icon shown for a weather code.
pub open spec fn icon_of(code: int) -> Seq<char> {
    if code == 0 {
        "☀️"@
    } else if code == 1 || code == 2 || code == 3 {
        "⛅"@
    } else if code == 45 || code == 48 {
        "🌁"@
    } else if code == 51 || code == 53 || code == 55 || code == 56 || code == 57 || code == 61
        || code == 63 || code == 65 || code == 66 || code == 67 {
        "🌧️"@
    } else if code == 71 || code == 73 || code == 75 || code == 77 || code == 80 || code == 81
        || code == 82 || code == 85 || code == 86 {
        "🌨️"@
    } else if code == 95 || code == 96 || code == 99 {
        "🌩️"@
    } else {
        "🤷"@
    }
}

/// The description shown for a weather code.
pub open spec fn description_of(code: int) -> Seq<char> {
    if code == 0 {
        "Clear sky"@
    } else if code == 1 || code == 2 || code == 3 {
        "Mainly clear, partly cloudy, and overcast"@
    } else if code == 45 || code == 48 {
        "Fog and depositing rime fog"@
    } else if code == 51 || code == 53 || code == 55 {
        "Drizzle: Light, moderate, and dense intensity"@
    } else if code == 56 || code == 57 {
        "Freezing Drizzle: Light and dense intensity"@
    } else if code == 61 || code == 63 || code == 65 {
        "Rain: Slight, moderate and heavy intensity"@
    } else if code == 66 || code == 67 {
        "Freezing Rain: Light and heavy intensity"@
    } else if code == 71 || code == 73 || code == 75 {
        "Snow fall: Slight, moderate, and heavy intensity"@
    } else if code == 77 {
        "Snow grains"@
    } else if code == 80 || code == 81 || code == 82 {
        "Rain showers: Slight, moderate, and violent"@
    } else if code == 85 || code == 86 {
        "Snow showers slight and heavy"@
    } else if code == 95 {
        "Thunderstorm: Slight or moderate"@
    } else if code == 96 || code == 99 {
        "Thunderstorm with slight and heavy hail"@
    } else {
        "Not Available"@
    }
}

/// Maps a weather code of the provider to its icon and description; every
/// code outside the catalog gets the "Not Available" pair.
pub fn get_icon_and_description(code: i64) -> (r: (&'static str, &'static str))
    ensures
        r.0@ == icon_of(code as int),
        r.1@ == description_of(code as int),
{
    match code {
        0 => ("☀️", "Clear sky"),
        1 | 2 | 3 => ("⛅", "Mainly clear, partly cloudy, and overcast"),
        45 | 48 => ("🌁", "Fog and depositing rime fog"),
        51 | 53 | 55 => ("🌧️", "Drizzle: Light, moderate, and dense intensity"),
        56 | 57 => ("🌧️", "Freezing Drizzle: Light and dense intensity"),
        61 | 63 | 65 => ("🌧️", "Rain: Slight, moderate and heavy intensity"),
        66 | 67 => ("🌧️", "Freezing Rain: Light and heavy intensity"),
        71 | 73 | 75 => ("🌨️", "Snow fall: Slight, moderate, and heavy intensity"),
        77 => ("🌨️", "Snow grains"),
        80 | 81 | 82 => ("🌨️", "Rain showers: Slight, moderate, and violent"),
        85 | 86 => ("🌨️", "Snow showers slight and heavy"),
        95 => ("🌩️", "Thunderstorm: Slight or moderate"),
        96 | 99 => ("🌩️", "Thunderstorm with slight and heavy hail"),
        _ => ("🤷", "Not Available"),
    }
}

} // verus!
