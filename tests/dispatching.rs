use weather::args::{days_from_args, parse_command, ArgError, Command};
use weather::dispatch::{complete_fetch, request_for, select_provider};
use weather::error::WeatherError;
use weather::provider::Provider;

fn words(ws: &[&str]) -> Vec<String> {
    ws.iter().map(|w| w.to_string()).collect()
}

#[test]
fn without_a_key_no_request_is_planned() {
    for (city, days) in [("Toledo", 1), ("Paris", 3), ("", 0)] {
        let r = request_for(Provider::WeatherApi, None, city, days);
        assert_eq!(r.unwrap_err(), WeatherError::MissingCredential);
    }
}

#[test]
fn unknown_provider_is_not_fatal() {
    let e = select_provider("bogus").unwrap_err();
    assert_eq!(e, WeatherError::UnknownProvider);
    assert!(!e.is_fatal());
    assert_eq!(select_provider(" weatherapi "), Ok(Provider::WeatherApi));
    assert!(WeatherError::MissingCredential.is_fatal());
    assert!(WeatherError::ResponseParseError.is_fatal());
    assert!(WeatherError::NetworkError.is_fatal());
}

#[test]
fn with_a_key_the_request_is_planned_and_read() {
    let url = request_for(Provider::WeatherApi, Some("KEY123".to_string()), "Toledo", 1).unwrap();
    assert_eq!(
        url,
        "http://api.weatherapi.com/v1/forecast.json?key=KEY123&q=Toledo&days=1&aqi=no&alerts=no"
    );
    let body = "{\"current\":{\"condition\":{\"text\":\"Sunny\"}},\"forecast\":{\"forecastday\":[{\"date\":\"2024-01-01\",\"day\":{\"condition\":{\"text\":\"Cloudy\"}}}]}}";
    let w = complete_fetch(Provider::WeatherApi, "Toledo", 1, Some(body.to_string())).unwrap();
    assert_eq!(w.city, "Toledo");
    assert_eq!(w.current, "Sunny");
    assert!(w.forecast.is_empty());
}

#[test]
fn failed_fetch_is_a_network_error() {
    let r = complete_fetch(Provider::OpenWeather, "Toledo", 0, None);
    assert_eq!(r.unwrap_err(), WeatherError::NetworkError);
}

#[test]
fn unreadable_days_default_to_zero_with_a_warning() {
    let with = parse_command(&words(&["weather", "get", "weatherapi", "Toledo", "abc"])).unwrap();
    let without = parse_command(&words(&["weather", "get", "weatherapi", "Toledo"])).unwrap();
    match (with, without) {
        (
            Command::Get { provider: p1, city: c1, days: d1, days_unreadable: w1 },
            Command::Get { provider: p2, city: c2, days: d2, days_unreadable: w2 },
        ) => {
            assert_eq!((p1, c1, d1), (p2, c2, d2));
            assert_eq!(d1, 0);
            assert!(w1);
            assert!(!w2);
        }
        _ => panic!("expected two get commands"),
    }
    assert_eq!(days_from_args(&words(&["weather", "get", "weatherapi", "Toledo", "5"])), (5, false));
}

#[test]
fn command_line_errors_and_commands() {
    assert_eq!(parse_command(&words(&["weather"])).unwrap_err(), ArgError::MissingCommand);
    assert_eq!(parse_command(&words(&["weather", "get"])).unwrap_err(), ArgError::MissingProvider);
    assert_eq!(
        parse_command(&words(&["weather", "get", "weatherapi"])).unwrap_err(),
        ArgError::MissingCity
    );
    assert_eq!(
        parse_command(&words(&["weather", "configure"])).unwrap_err(),
        ArgError::MissingProvider
    );
    assert!(matches!(
        parse_command(&words(&["weather", " configure ", "weatherapi"])).unwrap(),
        Command::Configure { provider } if provider == "weatherapi"
    ));
    assert!(matches!(
        parse_command(&words(&["weather", "forecast"])).unwrap(),
        Command::Unknown { name } if name == "forecast"
    ));
}
