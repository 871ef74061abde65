//! The weather providers: how each one is named, how a request to it is
//! written and how its answer is read.
use vstd::prelude::*;
use crate::error::WeatherError;
use crate::json::{
    element, get_element, get_member, is_json_text, member, owned, parse_json, text_of, text_or_empty,
    Json,
};
use crate::text::{decimal, decimal_text, percent_encode, percent_encoded, trim, trimmed};

verus! {

#[derive(Clone, Copy, Debug, PartialEq, Eq, Structural)]
pub enum Provider {
    /// OpenWeather: current conditions only.
    OpenWeather,
    /// WeatherAPI: current conditions and a daily forecast.
    WeatherApi,
}

/// One day of a forecast.
#[derive(Debug)]
pub struct ForecastEntry {
    pub date: String,
    pub condition: String,
}

/// The weather in a city as a provider reported it.
#[derive(Debug)]
pub struct WeatherResult {
    /// The city as it was asked for.
    pub city: String,
    /// Description of the current conditions.
    pub current: String,
    /// Forecast entries, one per day, in the provider's order.
    pub forecast: Vec<ForecastEntry>,
}

/// The provider whose identifier is `name`.
pub open spec fn provider_named(name: Seq<char>) -> Option<Provider> {
    if name == Provider::OpenWeather.spec_id() {
        Some(Provider::OpenWeather)
    } else if name == Provider::WeatherApi.spec_id() {
        Some(Provider::WeatherApi)
    } else {
        None
    }
}

/// Number of forecast entries that a request for `days` days yields.
pub open spec fn forecast_count(p: Provider, days: int) -> int {
    if days < 2 {
        0
    } else if days < p.spec_max_forecast_days() {
        days
    } else {
        p.spec_max_forecast_days()
    }
}

/// The forecast array entry at `i` of a WeatherAPI answer.
pub open spec fn forecast_day(doc: Json, i: int) -> Option<Json> {
    element(member(member(Some(doc), "forecast"@), "forecastday"@), i)
}

pub open spec fn forecast_date(doc: Json, i: int) -> Seq<char> {
    text_or_empty(member(forecast_day(doc, i), "date"@))
}

pub open spec fn forecast_condition(doc: Json, i: int) -> Seq<char> {
    text_or_empty(member(member(member(forecast_day(doc, i), "day"@), "condition"@), "text"@))
}

/// `w` is what `doc`, an answer of `p`, says of `city` for `days` days.
pub open spec fn describes(w: WeatherResult, p: Provider, doc: Json, city: Seq<char>, days: int) -> bool {
    &&& w.city@ == city
    &&& w.current@ == p.current_condition(doc)
    &&& w.forecast@.len() == forecast_count(p, days)
    &&& forall|i: int|
        0 <= i < w.forecast@.len() ==> {
            &&& (#[trigger] w.forecast@[i]).date@ == forecast_date(doc, i)
            &&& w.forecast@[i].condition@ == forecast_condition(doc, i)
        }
}

impl Provider {
    pub open spec fn spec_id(self) -> Seq<char> {
        match self {
            Provider::OpenWeather => "openweather"@,
            Provider::WeatherApi => "weatherapi"@,
        }
    }

    pub open spec fn spec_max_forecast_days(self) -> int {
        match self {
            Provider::OpenWeather => 0,
            Provider::WeatherApi => i32::MAX as int,
        }
    }

    /// The request URL for `city`, `days` days and `key`, every one of them
    /// percent-encoded.
    pub open spec fn request_url(self, city: Seq<char>, days: int, key: Seq<char>) -> Seq<char> {
        match self {
            Provider::OpenWeather => "http://api.openweathermap.org/data/2.5/weather?q="@
                + percent_encoded(city) + "&APPID="@ + percent_encoded(key),
            Provider::WeatherApi => "http://api.weatherapi.com/v1/forecast.json?key="@
                + percent_encoded(key) + "&q="@ + percent_encoded(city) + "&days="@ + decimal(days)
                + "&aqi=no&alerts=no"@,
        }
    }

    /// Description of the current conditions in an answer of this provider.
    pub open spec fn current_condition(self, doc: Json) -> Seq<char> {
        match self {
            Provider::OpenWeather => text_or_empty(
                member(element(member(Some(doc), "weather"@), 0), "description"@),
            ),
            Provider::WeatherApi => text_or_empty(
                member(member(member(Some(doc), "current"@), "condition"@), "text"@),
            ),
        }
    }

    /// Identifier of the provider, used on the command line and as its key in
    /// the configuration store.
    pub fn id(&self) -> (r: &'static str)
        ensures
            r@ == self.spec_id(),
    {
        match self {
            Provider::OpenWeather => "openweather",
            Provider::WeatherApi => "weatherapi",
        }
    }

    /// All the providers, in a fixed order.
    pub fn all() -> (r: Vec<Provider>)
        ensures
            r@ == seq![Provider::OpenWeather, Provider::WeatherApi],
    {
        vec![Provider::OpenWeather, Provider::WeatherApi]
    }

    /// The provider whose identifier is `name` with surrounding whitespace
    /// removed.
    pub fn from_name(name: &str) -> (r: Option<Provider>)
        ensures
            r == provider_named(trimmed(name@)),
    {
        let wanted = trim(name).to_owned();
        let providers = Provider::all();
        let mut i: usize = 0;
        while i < providers.len()
            invariant
                i <= providers@.len(),
                providers@ == seq![Provider::OpenWeather, Provider::WeatherApi],
                wanted@ == trimmed(name@),
                forall|k: int| 0 <= k < i ==> wanted@ != (#[trigger] providers@[k]).spec_id(),
            decreases providers@.len() - i,
        {
            let p = providers[i];
            let id = String::from_str(p.id());
            if id == wanted {
                return Some(p);
            }
            i = i + 1;
        }
        assert(wanted@ != providers@[0].spec_id());
        assert(wanted@ != providers@[1].spec_id());
        None
    }

    /// Most forecast days that a request to this provider yields.
    pub fn max_forecast_days(&self) -> (r: i32)
        ensures
            r as int == self.spec_max_forecast_days(),
    {
        match self {
            Provider::OpenWeather => 0,
            Provider::WeatherApi => i32::MAX,
        }
    }

    /// The request URL for the weather in `city` over `days` days.
    pub fn build_request(&self, city: &str, days: i32, api_key: &str) -> (r: String)
        ensures
            r@ == self.request_url(city@, days as int, api_key@),
    {
        let mut url = String::new();
        match self {
            Provider::OpenWeather => {
                url.append("http://api.openweathermap.org/data/2.5/weather?q=");
                url.append(percent_encode(city).as_str());
                url.append("&APPID=");
                url.append(percent_encode(api_key).as_str());
            },
            Provider::WeatherApi => {
                url.append("http://api.weatherapi.com/v1/forecast.json?key=");
                url.append(percent_encode(api_key).as_str());
                url.append("&q=");
                url.append(percent_encode(city).as_str());
                url.append("&days=");
                url.append(decimal_text(days).as_str());
                url.append("&aqi=no&alerts=no");
            },
        }
        assert(url@ =~= self.request_url(city@, days as int, api_key@));
        url
    }

    /// Number of forecast entries that a request for `days` days yields.
    pub fn forecast_len(&self, days: i32) -> (r: i32)
        ensures
            r as int == forecast_count(*self, days as int),
    {
        let max = self.max_forecast_days();
        if days < 2 {
            0
        } else if days < max {
            days
        } else {
            max
        }
    }

    /// What `doc`, an answer of this provider, says of `city` for `days` days.
    /// Fields absent from the answer, or not strings there, read as empty.
    pub fn weather_from_json(&self, doc: &Json, city: &str, days: i32) -> (r: WeatherResult)
        ensures
            describes(r, *self, *doc, city@, days as int),
    {
        let current = match self {
            Provider::OpenWeather => text_of(
                get_member(get_element(get_member(Some(doc), "weather"), 0), "description"),
            ),
            Provider::WeatherApi => text_of(
                get_member(get_member(get_member(Some(doc), "current"), "condition"), "text"),
            ),
        };
        let count = self.forecast_len(days);
        let mut forecast: Vec<ForecastEntry> = Vec::new();
        let days_array = get_member(get_member(Some(doc), "forecast"), "forecastday");
        let mut i: i32 = 0;
        while i < count
            invariant
                0 <= i <= count,
                count as int == forecast_count(*self, days as int),
                owned(days_array) == member(member(Some(*doc), "forecast"@), "forecastday"@),
                forecast@.len() == i,
                forall|k: int|
                    0 <= k < i ==> {
                        &&& (#[trigger] forecast@[k]).date@ == forecast_date(*doc, k)
                        &&& forecast@[k].condition@ == forecast_condition(*doc, k)
                    },
            decreases count - i,
        {
            let day = get_element(days_array, i as usize);
            let date = text_of(get_member(day, "date"));
            let condition = text_of(
                get_member(get_member(get_member(day, "day"), "condition"), "text"),
            );
            forecast.push(ForecastEntry { date, condition });
            i = i + 1;
        }
        WeatherResult { city: city.to_owned(), current, forecast }
    }

    /// Reads `raw`, an answer of this provider, for `city` and `days` days.
    /// Fails with `ResponseParseError` exactly when `raw` is not JSON.
    pub fn parse_response(&self, raw: &str, city: &str, days: i32) -> (r: Result<
        WeatherResult,
        WeatherError,
    >)
        ensures
            r is Err <==> !is_json_text(raw@),
            r matches Err(e) ==> e == WeatherError::ResponseParseError,
            r is Ok ==> exists|doc: Json|
                #[trigger] describes(r->Ok_0, *self, doc, city@, days as int),
    {
        match parse_json(raw) {
            Some(doc) => {
                let w = self.weather_from_json(&doc, city, days);
                let r: Result<WeatherResult, WeatherError> = Ok(w);
                assert(describes(r->Ok_0, *self, doc, city@, days as int));
                assert(exists|d: Json| #[trigger] describes(r->Ok_0, *self, d, city@, days as int));
                r
            },
            None => Err(WeatherError::ResponseParseError),
        }
    }
}

/// The first `n` forecast entries of a WeatherAPI answer each carry a
/// non-empty date and condition.
pub open spec fn well_formed_forecast(doc: Json, n: int) -> bool {
    forall|i: int|
        0 <= i < n ==> (#[trigger] forecast_date(doc, i)).len() > 0 && forecast_condition(
            doc,
            i,
        ).len() > 0
}

/// Read from a WeatherAPI answer with at least `n` well-formed forecast
/// entries, a request for `days` days, 2 <= `days` <= `n`, yields exactly
/// `days` entries, each with a non-empty date and condition; a request for
/// fewer than two days yields none, whatever the answer holds.
pub proof fn lemma_forecast_length(w: WeatherResult, doc: Json, city: Seq<char>, days: int, n: int)
    requires
        describes(w, Provider::WeatherApi, doc, city, days),
        i32::MIN <= days <= i32::MAX,
    ensures
        days < 2 ==> w.forecast@.len() == 0,
        2 <= days <= n && well_formed_forecast(doc, n) ==> {
            &&& w.forecast@.len() == days
            &&& forall|i: int|
                0 <= i < days ==> (#[trigger] w.forecast@[i]).date@.len() > 0
                    && w.forecast@[i].condition@.len() > 0
        },
{
    if 2 <= days <= n && well_formed_forecast(doc, n) {
        assert forall|i: int| 0 <= i < days implies (#[trigger] w.forecast@[i]).date@.len() > 0
            && w.forecast@[i].condition@.len() > 0 by {
            assert(forecast_date(doc, i).len() > 0);
        }
    }
}

} // verus!
