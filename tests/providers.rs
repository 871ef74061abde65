use weather::error::WeatherError;
use weather::json::{get_element, get_member, parse_json, text_of, Json};
use weather::provider::Provider;

const SUNNY_ONE_DAY: &str = "{\"current\":{\"condition\":{\"text\":\"Sunny\"}},\"forecast\":{\"forecastday\":[{\"date\":\"2024-01-01\",\"day\":{\"condition\":{\"text\":\"Cloudy\"}}}]}}";

const THREE_DAYS: &str = "{\"current\":{\"condition\":{\"text\":\"Sunny\"}},\"forecast\":{\"forecastday\":[{\"date\":\"2024-01-01\",\"day\":{\"condition\":{\"text\":\"Cloudy\"}}},{\"date\":\"2024-01-02\",\"day\":{\"condition\":{\"text\":\"Rain\"}}},{\"date\":\"2024-01-03\",\"day\":{\"condition\":{\"text\":\"Snow\"}}}]}}";

#[test]
fn provider_names_are_matched_after_trimming() {
    assert_eq!(Provider::from_name("weatherapi"), Some(Provider::WeatherApi));
    assert_eq!(Provider::from_name(" openweather\n"), Some(Provider::OpenWeather));
    assert_eq!(Provider::from_name("WeatherAPI"), None);
    assert_eq!(Provider::from_name("bogus"), None);
    assert_eq!(Provider::WeatherApi.id(), "weatherapi");
    assert_eq!(Provider::OpenWeather.id(), "openweather");
}

#[test]
fn openweather_request_url() {
    let url = Provider::OpenWeather.build_request("Toledo", 2, "KEY123");
    assert_eq!(url, "http://api.openweathermap.org/data/2.5/weather?q=Toledo&APPID=KEY123");
}

#[test]
fn weatherapi_request_url_encodes_the_city() {
    let url = Provider::WeatherApi.build_request("New York", 3, "K&1");
    assert_eq!(
        url,
        "http://api.weatherapi.com/v1/forecast.json?key=K%261&q=New%20York&days=3&aqi=no&alerts=no"
    );
}

#[test]
fn forecast_len_is_capped_by_the_provider() {
    assert_eq!(Provider::WeatherApi.forecast_len(1), 0);
    assert_eq!(Provider::WeatherApi.forecast_len(-3), 0);
    assert_eq!(Provider::WeatherApi.forecast_len(2), 2);
    assert_eq!(Provider::WeatherApi.forecast_len(10), 10);
    assert_eq!(Provider::OpenWeather.forecast_len(5), 0);
    assert_eq!(Provider::OpenWeather.max_forecast_days(), 0);
}

#[test]
fn weatherapi_answer_with_one_day_asked() {
    let w = Provider::WeatherApi.parse_response(SUNNY_ONE_DAY, "Toledo", 1).unwrap();
    assert_eq!(w.city, "Toledo");
    assert_eq!(w.current, "Sunny");
    assert!(w.forecast.is_empty());
}

#[test]
fn weatherapi_answer_with_two_days_asked() {
    let w = Provider::WeatherApi.parse_response(THREE_DAYS, "Toledo", 2).unwrap();
    assert_eq!(w.current, "Sunny");
    assert_eq!(w.forecast.len(), 2);
    assert_eq!(w.forecast[0].date, "2024-01-01");
    assert_eq!(w.forecast[0].condition, "Cloudy");
    assert_eq!(w.forecast[1].date, "2024-01-02");
    assert_eq!(w.forecast[1].condition, "Rain");
}

#[test]
fn forecast_length_follows_the_days_asked() {
    for d in 2..=3 {
        let w = Provider::WeatherApi.parse_response(THREE_DAYS, "Toledo", d).unwrap();
        assert_eq!(w.forecast.len(), d as usize);
        for e in &w.forecast {
            assert!(!e.date.is_empty());
            assert!(!e.condition.is_empty());
        }
    }
    for d in [-1, 0, 1] {
        let w = Provider::WeatherApi.parse_response(THREE_DAYS, "Toledo", d).unwrap();
        assert!(w.forecast.is_empty());
    }
}

#[test]
fn missing_fields_read_as_empty() {
    let w = Provider::WeatherApi.parse_response("{\"current\":{}}", "Toledo", 2).unwrap();
    assert_eq!(w.current, "");
    assert_eq!(w.forecast.len(), 2);
    assert_eq!(w.forecast[1].date, "");
    assert_eq!(w.forecast[1].condition, "");
}

#[test]
fn openweather_answer_reads_the_description() {
    let raw = "{\"weather\":[{\"main\":\"Clouds\",\"description\":\"broken clouds\"}],\"name\":\"Toledo\"}";
    let w = Provider::OpenWeather.parse_response(raw, "Toledo", 4).unwrap();
    assert_eq!(w.current, "broken clouds");
    assert!(w.forecast.is_empty());
}

#[test]
fn malformed_json_is_a_parse_error() {
    for raw in ["not json", "", "{\"current\":", "{} {}"] {
        let r = Provider::WeatherApi.parse_response(raw, "Toledo", 2);
        assert_eq!(r.unwrap_err(), WeatherError::ResponseParseError);
        let r = Provider::OpenWeather.parse_response(raw, "Toledo", 0);
        assert_eq!(r.unwrap_err(), WeatherError::ResponseParseError);
    }
}

#[test]
fn json_lookups() {
    let doc = parse_json("{\"a\":[1,\"x\",{\"b\":\"y\"}],\"n\":null,\"a\":[\"z\"]}").unwrap();
    let a = get_member(Some(&doc), "a");
    assert_eq!(text_of(get_element(a, 0)), "z");
    assert!(get_element(a, 1).is_none());
    assert!(matches!(get_member(Some(&doc), "n"), Some(Json::Null)));
    assert!(get_member(Some(&doc), "missing").is_none());
    let doc = parse_json("[1,\"x\",{\"b\":\"y\"},true]").unwrap();
    assert!(matches!(get_element(Some(&doc), 0), Some(Json::Number(n)) if n == "1"));
    assert_eq!(text_of(get_element(Some(&doc), 1)), "x");
    assert_eq!(text_of(get_member(get_element(Some(&doc), 2), "b")), "y");
    assert!(matches!(get_element(Some(&doc), 3), Some(Json::Bool(true))));
    assert_eq!(text_of(get_element(Some(&doc), 0)), "");
}
