use vstd::prelude::*;

verus! {

/// The command line: the place, as the decimal texts of its latitude and
/// longitude, and its time zone.
#[derive(Clone, Debug)]
pub struct Cli {
    pub latitude: String,
    pub longitude: String,
    pub timezone: String,
}

/// The time zone used where none is given.
pub open spec fn default_timezone() -> Seq<char> {
    "Europe/Madrid"@
}

impl Cli {
    /// The command line for a place, in the default time zone where none
    /// is given.
    pub fn new(latitude: &str, longitude: &str, timezone: Option<&str>) -> (r: Cli)
        ensures
            r.latitude@ == latitude@,
            r.longitude@ == longitude@,
            r.timezone@ == match timezone {
                Some(t) => t@,
                None => default_timezone(),
            },
    {
        let timezone = match timezone {
            Some(t) => t.to_owned(),
            None => "Europe/Madrid".to_owned(),
        };
        Cli { latitude: latitude.to_owned(), longitude: longitude.to_owned(), timezone }
    }
}

} // verus!
