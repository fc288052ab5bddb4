use meteo_tui::json::{parse_i64, Json};
use meteo_tui::openmeteo::{daily_forecast_of, CurrentWeather, Date, DateTime, OpenMeteoClient};

const BODY: &str = r#"{
  "latitude": 39.375, "longitude": -0.375,
  "current_weather": {"temperature": 21.3, "windspeed": 5.4, "winddirection": 240,
                      "weathercode": 61, "is_day": 1, "time": "2023-07-10T12:00"},
  "daily": {
    "time": ["2023-07-10", "2023-07-11", "not a date"],
    "weathercode": [61, 96, 2],
    "temperature_2m_max": [30.1, 31.0, 29.0],
    "temperature_2m_min": [20.5, 21.0, 19.0],
    "sunrise": ["2023-07-10T06:35", "2023-07-11T06:36", "2023-07-12T06:37"],
    "sunset": ["2023-07-10T21:30", "2023-07-11T21:29", "2023-07-12T21:28"],
    "uv_index_max": [8.5, 8.6, 8.7]
  }
}"#;

fn client_with(body: Option<&str>) -> OpenMeteoClient {
    let mut omc = OpenMeteoClient::new("39.36667", "-0.41667", "Europe/Madrid");
    omc.refresh(body);
    omc
}

#[test]
fn test_openmeteo() {
    let omc = OpenMeteoClient::new("39.36667", "-0.41667", "Europe/Madrid");
    assert_eq!(omc.forecast_url(), "https://api.open-meteo.com/v1/forecast");
    let params = omc.query_params();
    let names: Vec<&str> = params.iter().map(|p| p.0.as_str()).collect();
    assert_eq!(names, vec!["latitude", "longitude", "hourly", "daily", "current_weather", "timezone"]);
    assert_eq!(params[0].1, "39.36667");
    assert_eq!(params[1].1, "-0.41667");
    assert_eq!(
        params[2].1,
        "temperature_2m,relativehumidity_2m,dewpoint_2m,apparent_temperature,precipitation_probability,weathercode,pressure_msl,surface_pressure,cloudcover,visibility,evapotranspiration,windspeed_10m"
    );
    assert_eq!(params[3].1, "weathercode,temperature_2m_max,temperature_2m_min,sunrise,sunset,uv_index_max");
    assert_eq!(params[4].1, "true");
    assert_eq!(params[5].1, "Europe/Madrid");
    assert!(omc.data.is_none());
}

#[test]
fn test_cw() {
    let omc = client_with(Some(BODY));
    let cw = omc.get_current_weather().unwrap();
    assert_eq!(cw.is_day(), 1);
    assert_eq!(cw.get_temperature(), "21.3");
    assert_eq!(cw.get_winspeed(), "5.4");
    assert_eq!(cw.get_winddirection(), 240);
}

#[test]
fn current_weather_code_61_reads_as_rain() {
    let cw = client_with(Some(BODY)).get_current_weather().unwrap();
    assert_eq!(cw.get_icon_and_description(), ("🌧️", "Rain: Slight, moderate and heavy intensity"));
}

#[test]
fn missing_current_weather_gives_none() {
    let omc = client_with(Some(r#"{"daily": {}}"#));
    assert!(omc.data.is_some());
    assert!(omc.get_current_weather().is_none());
}

#[test]
fn malformed_current_weather_gives_none() {
    let body = r#"{"current_weather": {"temperature": 21.3, "windspeed": 5.4,
        "winddirection": 240.5, "weathercode": 61, "is_day": 1}}"#;
    assert!(client_with(Some(body)).get_current_weather().is_none());
    let body = r#"{"current_weather": {"temperature": "warm", "windspeed": 5.4,
        "winddirection": 240, "weathercode": 61, "is_day": 1}}"#;
    assert!(client_with(Some(body)).get_current_weather().is_none());
}

#[test]
fn failed_fetch_clears_snapshot() {
    let mut omc = client_with(Some(BODY));
    assert!(omc.get_current_weather().is_some());
    assert!(omc.daily_forecast().is_some());
    omc.refresh(None);
    assert!(omc.get_current_weather().is_none());
    assert!(omc.daily_forecast().is_none());
    assert_eq!(omc.latitude, "39.36667");
}

#[test]
fn unparsable_body_clears_snapshot() {
    let mut omc = client_with(Some(BODY));
    omc.refresh(Some("{not json"));
    assert!(omc.data.is_none());
    assert!(omc.get_current_weather().is_none());
}

#[test]
fn no_snapshot_before_refresh() {
    let omc = OpenMeteoClient::new("1", "2", "UTC");
    assert!(omc.get_current_weather().is_none());
    assert!(omc.daily_forecast().is_none());
}

#[test]
fn daily_forecast_skips_bad_day() {
    let days = client_with(Some(BODY)).daily_forecast().unwrap();
    assert_eq!(days.len(), 2);
    assert_eq!(days[0].time, Date { year: 2023, month: 7, day: 10 });
    assert_eq!(days[1].time, Date { year: 2023, month: 7, day: 11 });
    assert_eq!(days[0].weathercode, 61);
    assert_eq!(days[1].weathercode, 96);
    assert_eq!(days[0].temperature_max, "30.1");
    assert_eq!(days[0].temperature_min, "20.5");
    assert_eq!(days[0].uv_index_max, "8.5");
    assert_eq!(
        days[0].sunrise,
        DateTime { date: Date { year: 2023, month: 7, day: 10 }, hour: 6, minute: 35 }
    );
    assert_eq!(
        days[1].sunset,
        DateTime { date: Date { year: 2023, month: 7, day: 11 }, hour: 21, minute: 29 }
    );
    assert_eq!(days[0].precipitation_probability_max, None);
}

#[test]
fn daily_forecast_reads_precipitation_when_present() {
    let body = r#"{"daily": {"time": ["2024-02-29"], "weathercode": [0],
        "temperature_2m_max": [10], "temperature_2m_min": [-2.5],
        "sunrise": ["2024-02-29T07:40"], "sunset": ["2024-02-29T18:50"],
        "uv_index_max": [3.1], "precipitation_probability_max": [40]}}"#;
    let days = client_with(Some(body)).daily_forecast().unwrap();
    assert_eq!(days.len(), 1);
    assert_eq!(days[0].temperature_min, "-2.5");
    assert_eq!(days[0].temperature_max, "10");
    assert_eq!(days[0].precipitation_probability_max, Some(40));
}

#[test]
fn daily_forecast_needs_every_array() {
    let body = r#"{"daily": {"time": ["2024-02-29"], "weathercode": [0],
        "temperature_2m_max": [10], "temperature_2m_min": [-2.5],
        "sunrise": ["2024-02-29T07:40"], "sunset": ["2024-02-29T18:50"]}}"#;
    assert!(client_with(Some(body)).daily_forecast().is_none());
    assert!(client_with(Some(r#"{"current_weather": {}}"#)).daily_forecast().is_none());
}

#[test]
fn daily_forecast_of_empty_arrays_is_empty() {
    let body = r#"{"time": [], "weathercode": [], "temperature_2m_max": [],
        "temperature_2m_min": [], "sunrise": [], "sunset": [], "uv_index_max": []}"#;
    let mut omc = OpenMeteoClient::new("0", "0", "UTC");
    omc.refresh(Some(body));
    let daily = omc.data.as_ref().unwrap();
    assert_eq!(daily_forecast_of(daily).unwrap().len(), 0);
}

#[test]
fn current_weather_from_object() {
    let obj = Json::Object(vec![
        ("temperature".to_string(), Json::Number("-3.5".to_string())),
        ("windspeed".to_string(), Json::Number("12".to_string())),
        ("winddirection".to_string(), Json::Number("90".to_string())),
        ("weathercode".to_string(), Json::Number("2".to_string())),
        ("is_day".to_string(), Json::Number("0".to_string())),
    ]);
    let cw = CurrentWeather::new(&obj).unwrap();
    assert_eq!(cw.get_temperature(), "-3.5");
    assert_eq!(cw.is_day(), 0);
    assert_eq!(cw.get_icon_and_description().1, "Mainly clear, partly cloudy, and overcast");
    assert!(CurrentWeather::new(&Json::Null).is_none());
}

#[test]
fn json_lookup_and_integers() {
    let obj = Json::Object(vec![
        ("a".to_string(), Json::Number("7".to_string())),
        ("b".to_string(), Json::Str("x".to_string())),
    ]);
    assert_eq!(obj.get("a").unwrap().as_i64(), Some(7));
    assert!(obj.get("b").unwrap().as_i64().is_none());
    assert!(obj.get("c").is_none());
    assert!(Json::Null.get("a").is_none());
}

#[test]
fn parse_i64_edges() {
    assert_eq!(parse_i64("0"), Some(0));
    assert_eq!(parse_i64("-42"), Some(-42));
    assert_eq!(parse_i64("9223372036854775807"), Some(i64::MAX));
    assert_eq!(parse_i64("-9223372036854775808"), Some(i64::MIN));
    assert_eq!(parse_i64("9223372036854775808"), None);
    assert_eq!(parse_i64("-9223372036854775809"), None);
    assert_eq!(parse_i64("123456789012345678901234567890"), None);
    assert_eq!(parse_i64(""), None);
    assert_eq!(parse_i64("-"), None);
    assert_eq!(parse_i64("1.5"), None);
    assert_eq!(parse_i64("1e3"), None);
}
