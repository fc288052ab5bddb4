use chrono::{Datelike, Timelike};
use vstd::prelude::*;

use crate::catalog::{description_of, get_icon_and_description, icon_of};
use crate::json::{json_document, json_i64, member, parse_json, Json};

verus! {

/// A calendar date.
#[derive(Clone, Copy, Debug, PartialEq, Eq, Structural)]
pub struct Date {
    pub year: i32,
    pub month: u32,
    pub day: u32,
}

/// A local date and time of day, to the minute.
#[derive(Clone, Copy, Debug, PartialEq, Eq, Structural)]
pub struct DateTime {
    pub date: Date,
    pub hour: u32,
    pub minute: u32,
}

/// The date that chrono reads from a text in the form `%Y-%m-%d`, as
/// (year, month, day).
pub uninterp spec fn parsed_date(text: Seq<char>) -> Option<(i32, u32, u32)>;

/// The date and time that chrono reads from a text in the form
/// `%Y-%m-%dT%H:%M`, as (year, month, day, hour, minute).
pub uninterp spec fn parsed_date_time(text: Seq<char>) -> Option<(i32, u32, u32, u32, u32)>;

/// Relies on chrono::NaiveDate::parse_from_str with `%Y-%m-%d` and on
/// NaiveDate's year, month (1 to 12) and day (1 to 31).
#[verifier::external_body]
fn parse_date(text: &str) -> (r: Option<Date>)
    ensures
        match r {
            Some(d) => parsed_date(text@) == Some((d.year, d.month, d.day)),
            None => parsed_date(text@) is None,
        },
        r matches Some(d) ==> 1 <= d.month <= 12 && 1 <= d.day <= 31,
{
    chrono::NaiveDate::parse_from_str(text, "%Y-%m-%d").ok().map(
        |d| Date { year: d.year(), month: d.month(), day: d.day() },
    )
}

/// Relies on chrono::NaiveDateTime::parse_from_str with `%Y-%m-%dT%H:%M`
/// and on its year, month, day, hour (0 to 23) and minute (0 to 59).
#[verifier::external_body]
fn parse_date_time(text: &str) -> (r: Option<DateTime>)
    ensures
        match r {
            Some(t) => parsed_date_time(text@) == Some(
                (t.date.year, t.date.month, t.date.day, t.hour, t.minute),
            ),
            None => parsed_date_time(text@) is None,
        },
        r matches Some(t) ==> t.hour < 24 && t.minute < 60,
{
    chrono::NaiveDateTime::parse_from_str(text, "%Y-%m-%dT%H:%M").ok().map(
        |t| DateTime {
            date: Date { year: t.year(), month: t.month(), day: t.day() },
            hour: t.hour(),
            minute: t.minute(),
        },
    )
}

pub open spec fn date_of(p: (i32, u32, u32)) -> Date {
    Date { year: p.0, month: p.1, day: p.2 }
}

pub open spec fn date_time_of(p: (i32, u32, u32, u32, u32)) -> DateTime {
    DateTime { date: Date { year: p.0, month: p.1, day: p.2 }, hour: p.3, minute: p.4 }
}

/// The conditions now, as the provider reports them. Temperature and wind
/// speed keep the decimal text of the response.
pub struct CurrentWeather {
    pub temperature: String,
    pub windspeed: String,
    pub winddirection: i64,
    pub weathercode: i64,
    pub is_day: i64,
}

pub struct CurrentView {
    pub temperature: Seq<char>,
    pub windspeed: Seq<char>,
    pub winddirection: i64,
    pub weathercode: i64,
    pub is_day: i64,
}

impl View for CurrentWeather {
    type V = CurrentView;

    open spec fn view(&self) -> CurrentView {
        CurrentView {
            temperature: self.temperature@,
            windspeed: self.windspeed@,
            winddirection: self.winddirection,
            weathercode: self.weathercode,
            is_day: self.is_day,
        }
    }
}

/// One day of the forecast. Temperatures and the UV index keep the decimal
/// text of the response.
pub struct DailyWeather {
    pub time: Date,
    pub temperature_min: String,
    pub temperature_max: String,
    pub weathercode: i64,
    pub sunrise: DateTime,
    pub sunset: DateTime,
    pub uv_index_max: String,
    pub precipitation_probability_max: Option<i64>,
}

pub struct DailyView {
    pub time: Date,
    pub temperature_min: Seq<char>,
    pub temperature_max: Seq<char>,
    pub weathercode: i64,
    pub sunrise: DateTime,
    pub sunset: DateTime,
    pub uv_index_max: Seq<char>,
    pub precipitation_probability_max: Option<i64>,
}

impl View for DailyWeather {
    type V = DailyView;

    open spec fn view(&self) -> DailyView {
        DailyView {
            time: self.time,
            temperature_min: self.temperature_min@,
            temperature_max: self.temperature_max@,
            weathercode: self.weathercode,
            sunrise: self.sunrise,
            sunset: self.sunset,
            uv_index_max: self.uv_index_max@,
            precipitation_probability_max: self.precipitation_probability_max,
        }
    }
}

/// The decimal text of a number.
pub open spec fn number_text(j: Json) -> Option<Seq<char>> {
    match j {
        Json::Number(t) => Some(t@),
        _ => None,
    }
}

/// The text of a string.
pub open spec fn string_text(j: Json) -> Option<Seq<char>> {
    match j {
        Json::Str(t) => Some(t@),
        _ => None,
    }
}

pub open spec fn number_member(j: Json, key: Seq<char>) -> Option<Seq<char>> {
    match member(j, key) {
        Some(v) => number_text(v),
        None => None,
    }
}

pub open spec fn int_member(j: Json, key: Seq<char>) -> Option<i64> {
    match member(j, key) {
        Some(v) => json_i64(v),
        None => None,
    }
}

/// The current conditions that an object holds: all five members present
/// and of their kind, or nothing.
pub open spec fn current_of(c: Json) -> Option<CurrentView> {
    let t = number_member(c, "temperature"@);
    let w = number_member(c, "windspeed"@);
    let d = int_member(c, "winddirection"@);
    let k = int_member(c, "weathercode"@);
    let n = int_member(c, "is_day"@);
    if t is Some && w is Some && d is Some && k is Some && n is Some {
        Some(
            CurrentView {
                temperature: t.unwrap(),
                windspeed: w.unwrap(),
                winddirection: d.unwrap(),
                weathercode: k.unwrap(),
                is_day: n.unwrap(),
            },
        )
    } else {
        None
    }
}

/// The current conditions of a response document.
pub open spec fn current_of_response(doc: Json) -> Option<CurrentView> {
    match member(doc, "current_weather"@) {
        Some(c) => current_of(c),
        None => None,
    }
}

/// The array under `key`, empty where there is none.
pub open spec fn array_member(d: Json, key: Seq<char>) -> Seq<Json> {
    match member(d, key) {
        Some(Json::Array(v)) => v@,
        _ => Seq::empty(),
    }
}

pub open spec fn has_array(d: Json, key: Seq<char>) -> bool {
    member(d, key) matches Some(Json::Array(_))
}

pub open spec fn number_at(d: Json, key: Seq<char>, i: int) -> Option<Seq<char>> {
    if 0 <= i < array_member(d, key).len() {
        number_text(array_member(d, key)[i])
    } else {
        None
    }
}

pub open spec fn int_at(d: Json, key: Seq<char>, i: int) -> Option<i64> {
    if 0 <= i < array_member(d, key).len() {
        json_i64(array_member(d, key)[i])
    } else {
        None
    }
}

pub open spec fn text_at(d: Json, key: Seq<char>, i: int) -> Option<Seq<char>> {
    if 0 <= i < array_member(d, key).len() {
        string_text(array_member(d, key)[i])
    } else {
        None
    }
}

pub open spec fn date_at(d: Json, i: int) -> Option<(i32, u32, u32)> {
    match text_at(d, "time"@, i) {
        Some(t) => parsed_date(t),
        None => None,
    }
}

pub open spec fn date_time_at(d: Json, key: Seq<char>, i: int) -> Option<(i32, u32, u32, u32, u32)> {
    match text_at(d, key, i) {
        Some(t) => parsed_date_time(t),
        None => None,
    }
}

/// Day `i` of the parallel arrays of a `daily` object, where every field of
/// that day reads; the precipitation probability is optional.
pub open spec fn entry_at(d: Json, i: int) -> Option<DailyView> {
    let day = date_at(d, i);
    let lo = number_at(d, "temperature_2m_min"@, i);
    let hi = number_at(d, "temperature_2m_max"@, i);
    let code = int_at(d, "weathercode"@, i);
    let rise = date_time_at(d, "sunrise"@, i);
    let set = date_time_at(d, "sunset"@, i);
    let uv = number_at(d, "uv_index_max"@, i);
    if day is Some && lo is Some && hi is Some && code is Some && rise is Some && set is Some
        && uv is Some {
        Some(
            DailyView {
                time: date_of(day.unwrap()),
                temperature_min: lo.unwrap(),
                temperature_max: hi.unwrap(),
                weathercode: code.unwrap(),
                sunrise: date_time_of(rise.unwrap()),
                sunset: date_time_of(set.unwrap()),
                uv_index_max: uv.unwrap(),
                precipitation_probability_max: int_at(d, "precipitation_probability_max"@, i),
            },
        )
    } else {
        None
    }
}

/// The days among the first `n` that read, in order.
pub open spec fn entries_upto(d: Json, n: int) -> Seq<DailyView>
    decreases n,
{
    if n <= 0 {
        Seq::empty()
    } else {
        let prev = entries_upto(d, n - 1);
        match entry_at(d, n - 1) {
            Some(e) => prev.push(e),
            None => prev,
        }
    }
}

pub open spec fn daily_arrays_present(d: Json) -> bool {
    &&& has_array(d, "time"@)
    &&& has_array(d, "weathercode"@)
    &&& has_array(d, "temperature_2m_min"@)
    &&& has_array(d, "temperature_2m_max"@)
    &&& has_array(d, "sunrise"@)
    &&& has_array(d, "sunset"@)
    &&& has_array(d, "uv_index_max"@)
}

/// The forecast of a `daily` object: one entry for each day of `time` whose
/// fields read, skipping the others; nothing where an array is missing.
pub open spec fn daily_of(d: Json) -> Option<Seq<DailyView>> {
    if daily_arrays_present(d) {
        Some(entries_upto(d, array_member(d, "time"@).len() as int))
    } else {
        None
    }
}

/// The forecast of a response document.
pub open spec fn daily_of_response(doc: Json) -> Option<Seq<DailyView>> {
    match member(doc, "daily"@) {
        Some(d) => daily_of(d),
        None => None,
    }
}

/// The current conditions of a snapshot; none without one.
pub open spec fn current_of_snapshot(data: Option<Json>) -> Option<CurrentView> {
    match data {
        Some(doc) => current_of_response(doc),
        None => None,
    }
}

/// The forecast of a snapshot; none without one.
pub open spec fn daily_of_snapshot(data: Option<Json>) -> Option<Seq<DailyView>> {
    match data {
        Some(doc) => daily_of_response(doc),
        None => None,
    }
}

/// The snapshot that a fetch leaves: the document of the body, or nothing
/// where the transfer failed or the body is no JSON.
pub open spec fn snapshot_after(response: Option<Seq<char>>) -> Option<Json> {
    match response {
        Some(body) => json_document(body),
        None => None,
    }
}

fn number_member_exec(j: &Json, key: &str) -> (r: Option<String>)
    ensures
        match r {
            Some(s) => number_member(*j, key@) == Some(s@),
            None => number_member(*j, key@) is None,
        },
{
    match j.get(key) {
        Some(Json::Number(t)) => Some(t.clone()),
        _ => None,
    }
}

fn int_member_exec(j: &Json, key: &str) -> (r: Option<i64>)
    ensures
        r == int_member(*j, key@),
{
    match j.get(key) {
        Some(v) => v.as_i64(),
        None => None,
    }
}

fn array_exec<'a>(d: &'a Json, key: &str) -> (r: Option<&'a Vec<Json>>)
    ensures
        match r {
            Some(v) => member(*d, key@) == Some(Json::Array(*v)),
            None => !has_array(*d, key@),
        },
{
    match d.get(key) {
        Some(Json::Array(v)) => Some(v),
        _ => None,
    }
}

fn number_at_exec(d: &Json, key: &str, i: usize) -> (r: Option<String>)
    ensures
        match r {
            Some(s) => number_at(*d, key@, i as int) == Some(s@),
            None => number_at(*d, key@, i as int) is None,
        },
{
    match array_exec(d, key) {
        Some(v) => if i < v.len() {
            match &v[i] {
                Json::Number(t) => Some(t.clone()),
                _ => None,
            }
        } else {
            None
        },
        None => None,
    }
}

fn int_at_exec(d: &Json, key: &str, i: usize) -> (r: Option<i64>)
    ensures
        r == int_at(*d, key@, i as int),
{
    match array_exec(d, key) {
        Some(v) => if i < v.len() {
            v[i].as_i64()
        } else {
            None
        },
        None => None,
    }
}

fn text_at_exec<'a>(d: &'a Json, key: &str, i: usize) -> (r: Option<&'a String>)
    ensures
        match r {
            Some(s) => text_at(*d, key@, i as int) == Some(s@),
            None => text_at(*d, key@, i as int) is None,
        },
{
    match array_exec(d, key) {
        Some(v) => if i < v.len() {
            match &v[i] {
                Json::Str(t) => Some(t),
                _ => None,
            }
        } else {
            None
        },
        None => None,
    }
}

fn date_time_at_exec(d: &Json, key: &str, i: usize) -> (r: Option<DateTime>)
    ensures
        match r {
            Some(t) => date_time_at(*d, key@, i as int) == Some(
                (t.date.year, t.date.month, t.date.day, t.hour, t.minute),
            ),
            None => date_time_at(*d, key@, i as int) is None,
        },
{
    match text_at_exec(d, key, i) {
        Some(t) => parse_date_time(t.as_str()),
        None => None,
    }
}

impl CurrentWeather {
    /// Reads the current conditions from a `current_weather` object; `None`
    /// where a member is missing or of the wrong kind.
    pub fn new(value: &Json) -> (r: Option<CurrentWeather>)
        ensures
            match r {
                Some(c) => current_of(*value) == Some(c@),
                None => current_of(*value) is None,
            },
    {
        let temperature = number_member_exec(value, "temperature");
        let windspeed = number_member_exec(value, "windspeed");
        let winddirection = int_member_exec(value, "winddirection");
        let weathercode = int_member_exec(value, "weathercode");
        let is_day = int_member_exec(value, "is_day");
        match (temperature, windspeed, winddirection, weathercode, is_day) {
            (Some(temperature), Some(windspeed), Some(winddirection), Some(weathercode), Some(is_day)) => {
                Some(CurrentWeather { temperature, windspeed, winddirection, weathercode, is_day })
            },
            _ => None,
        }
    }

    /// The temperature, as the decimal text of the response.
    pub fn get_temperature(&self) -> (r: &str)
        ensures
            r@ == self.temperature@,
    {
        self.temperature.as_str()
    }

    /// The wind speed, as the decimal text of the response.
    pub fn get_winspeed(&self) -> (r: &str)
        ensures
            r@ == self.windspeed@,
    {
        self.windspeed.as_str()
    }

    pub fn get_winddirection(&self) -> (r: i64)
        ensures
            r == self.winddirection,
    {
        self.winddirection
    }

    pub fn is_day(&self) -> (r: i64)
        ensures
            r == self.is_day,
    {
        self.is_day
    }

    /// The icon and description of this weather code.
    pub fn get_icon_and_description(&self) -> (r: (&'static str, &'static str))
        ensures
            r.0@ == icon_of(self.weathercode as int),
            r.1@ == description_of(self.weathercode as int),
    {
        get_icon_and_description(self.weathercode)
    }
}

impl DailyWeather {
    /// Reads day `i` of the parallel arrays of a `daily` object; `None` where
    /// one of its fields does not read.
    pub fn new(daily: &Json, i: usize) -> (r: Option<DailyWeather>)
        ensures
            match r {
                Some(e) => entry_at(*daily, i as int) == Some(e@),
                None => entry_at(*daily, i as int) is None,
            },
    {
        let time = match text_at_exec(daily, "time", i) {
            Some(t) => parse_date(t.as_str()),
            None => None,
        };
        let temperature_min = number_at_exec(daily, "temperature_2m_min", i);
        let temperature_max = number_at_exec(daily, "temperature_2m_max", i);
        let weathercode = int_at_exec(daily, "weathercode", i);
        let sunrise = date_time_at_exec(daily, "sunrise", i);
        let sunset = date_time_at_exec(daily, "sunset", i);
        let uv_index_max = number_at_exec(daily, "uv_index_max", i);
        let precipitation_probability_max = int_at_exec(daily, "precipitation_probability_max", i);
        match (time, temperature_min, temperature_max, weathercode, sunrise, sunset, uv_index_max) {
            (Some(time), Some(temperature_min), Some(temperature_max), Some(weathercode), Some(sunrise), Some(sunset), Some(uv_index_max)) => {
                Some(DailyWeather {
                    time,
                    temperature_min,
                    temperature_max,
                    weathercode,
                    sunrise,
                    sunset,
                    uv_index_max,
                    precipitation_probability_max,
                })
            },
            _ => None,
        }
    }
}

/// Reads the forecast of a `daily` object: the days whose fields read, in
/// the order of the arrays.
pub fn daily_forecast_of(daily: &Json) -> (r: Option<Vec<DailyWeather>>)
    ensures
        match r {
            Some(v) => daily_of(*daily) == Some(v@.map_values(|e: DailyWeather| e@)),
            None => daily_of(*daily) is None,
        },
{
    let present = array_exec(daily, "time").is_some() && array_exec(daily, "weathercode").is_some()
        && array_exec(daily, "temperature_2m_min").is_some() && array_exec(
        daily,
        "temperature_2m_max",
    ).is_some() && array_exec(daily, "sunrise").is_some() && array_exec(daily, "sunset").is_some()
        && array_exec(daily, "uv_index_max").is_some();
    if !present {
        return None;
    }
    let n = match array_exec(daily, "time") {
        Some(v) => v.len(),
        None => 0,
    };
    let mut out: Vec<DailyWeather> = Vec::new();
    let mut i: usize = 0;
    while i < n
        invariant
            i <= n,
            n == array_member(*daily, "time"@).len(),
            out@.map_values(|e: DailyWeather| e@) == entries_upto(*daily, i as int),
        decreases n - i,
    {
        let entry = DailyWeather::new(daily, i);
        match entry {
            Some(e) => {
                out.push(e);
                proof {
                    assert(out@.map_values(|e: DailyWeather| e@) =~= entries_upto(*daily, i as int + 1));
                }
            },
            None => {},
        }
        i = i + 1;
    }
    Some(out)
}

/// The client of the forecast service for one place: its coordinate and
/// time zone, kept as given, and the last response document.
pub struct OpenMeteoClient {
    pub latitude: String,
    pub longitude: String,
    pub timezone: String,
    pub data: Option<Json>,
}

/// The hourly variables that a forecast request asks for.
pub open spec fn hourly_variables() -> Seq<char> {
    "temperature_2m,relativehumidity_2m,dewpoint_2m,apparent_temperature,precipitation_probability,weathercode,pressure_msl,surface_pressure,cloudcover,visibility,evapotranspiration,windspeed_10m"@
}

/// The daily variables that a forecast request asks for.
pub open spec fn daily_variables() -> Seq<char> {
    "weathercode,temperature_2m_max,temperature_2m_min,sunrise,sunset,uv_index_max"@
}

fn owned(s: &str) -> (r: String)
    ensures
        r@ == s@,
{
    s.to_owned()
}

impl OpenMeteoClient {
    /// A client for the given place, with no data yet.
    pub fn new(latitude: &str, longitude: &str, timezone: &str) -> (r: OpenMeteoClient)
        ensures
            r.latitude@ == latitude@,
            r.longitude@ == longitude@,
            r.timezone@ == timezone@,
            r.data is None,
    {
        OpenMeteoClient {
            latitude: owned(latitude),
            longitude: owned(longitude),
            timezone: owned(timezone),
            data: None,
        }
    }

    /// The endpoint of the forecast request.
    pub fn forecast_url(&self) -> (r: &'static str)
        ensures
            r@ == "https://api.open-meteo.com/v1/forecast"@,
    {
        "https://api.open-meteo.com/v1/forecast"
    }

    /// The query of the forecast request, in order: latitude, longitude,
    /// the hourly and daily variables, the current-weather flag and the
    /// time zone.
    pub fn query_params(&self) -> (r: Vec<(String, String)>)
        ensures
            r@.len() == 6,
            r@[0].0@ == "latitude"@ && r@[0].1@ == self.latitude@,
            r@[1].0@ == "longitude"@ && r@[1].1@ == self.longitude@,
            r@[2].0@ == "hourly"@ && r@[2].1@ == hourly_variables(),
            r@[3].0@ == "daily"@ && r@[3].1@ == daily_variables(),
            r@[4].0@ == "current_weather"@ && r@[4].1@ == "true"@,
            r@[5].0@ == "timezone"@ && r@[5].1@ == self.timezone@,
    {
        let mut r: Vec<(String, String)> = Vec::new();
        r.push((owned("latitude"), self.latitude.clone()));
        r.push((owned("longitude"), self.longitude.clone()));
        r.push(
            (
                owned("hourly"),
                owned(
                    "temperature_2m,relativehumidity_2m,dewpoint_2m,apparent_temperature,precipitation_probability,weathercode,pressure_msl,surface_pressure,cloudcover,visibility,evapotranspiration,windspeed_10m",
                ),
            ),
        );
        r.push(
            (
                owned("daily"),
                owned("weathercode,temperature_2m_max,temperature_2m_min,sunrise,sunset,uv_index_max"),
            ),
        );
        r.push((owned("current_weather"), owned("true")));
        r.push((owned("timezone"), self.timezone.clone()));
        r
    }

    /// Replaces the snapshot with the outcome of one fetch: the document of
    /// the body, or nothing where the transfer failed (`None`) or the body
    /// is no JSON. Nothing of an earlier snapshot survives.
    pub fn refresh(&mut self, response: Option<&str>)
        ensures
            final(self).data == snapshot_after(
                match response {
                    Some(b) => Some(b@),
                    None => None,
                },
            ),
            final(self).latitude == old(self).latitude,
            final(self).longitude == old(self).longitude,
            final(self).timezone == old(self).timezone,
    {
        self.data = match response {
            Some(body) => parse_json(body),
            None => None,
        };
    }

    /// The current conditions of the snapshot; `None` without a snapshot,
    /// or where `current_weather` is missing or malformed.
    pub fn get_current_weather(&self) -> (r: Option<CurrentWeather>)
        ensures
            match r {
                Some(c) => current_of_snapshot(self.data) == Some(c@),
                None => current_of_snapshot(self.data) is None,
            },
    {
        match &self.data {
            Some(doc) => match doc.get("current_weather") {
                Some(c) => CurrentWeather::new(c),
                None => None,
            },
            None => None,
        }
    }

    /// The daily forecast of the snapshot; `None` without a snapshot, or
    /// where `daily` or one of its arrays is missing.
    pub fn daily_forecast(&self) -> (r: Option<Vec<DailyWeather>>)
        ensures
            match r {
                Some(v) => daily_of_snapshot(self.data) == Some(v@.map_values(|e: DailyWeather| e@)),
                None => daily_of_snapshot(self.data) is None,
            },
    {
        match &self.data {
            Some(doc) => match doc.get("daily") {
                Some(d) => daily_forecast_of(d),
                None => None,
            },
            None => None,
        }
    }
}

/// A fetch that fails leaves no data behind: after it, neither current
/// conditions nor a forecast are reported, whatever the snapshot was.
pub proof fn lemma_failed_fetch_leaves_no_data()
    ensures
        current_of_snapshot(snapshot_after(None)) is None,
        daily_of_snapshot(snapshot_after(None)) is None,
{
}

} // verus!
