use serde_json::{Number, Value};
use std::collections::HashMap;
use weather_cache::error::WeatherError;
use weather_cache::handler::{city_weather, Action, Event};
use weather_cache::record::{Current, Location, WeatherResponse};
use weather_cache::reply::StoreValue;

const LONDON: &str = "{\"location\":{\"name\":\"London\",\"region\":\"City of London, Greater London\",\"country\":\"United Kingdom\",\"lat\":51.52,\"lon\":-0.11,\"tz_id\":\"Europe/London\",\"localtime_epoch\":1700000000,\"localtime\":\"2023-11-14 22:13\"},\"current\":{\"last_updated_epoch\":1699999200,\"last_updated\":\"2023-11-14 22:00\",\"temp_c\":15.0,\"temp_f\":59.0}}";

const NEW_YORK: &str = "{\"location\":{\"name\":\"New York\",\"region\":\"New York\",\"country\":\"United States of America\",\"lat\":40.71,\"lon\":-74.01,\"tz_id\":\"America/New_York\",\"localtime_epoch\":1700000000,\"localtime\":\"2023-11-14 17:13\"},\"current\":{\"last_updated_epoch\":1699999200,\"last_updated\":\"2023-11-14 17:00\",\"temp_c\":8.3,\"temp_f\":46.9}}";

fn text_of(v: &Value, field: &str) -> Option<String> {
    Some(v.get(field)?.as_str()?.to_owned())
}

fn decode(text: &str) -> Option<WeatherResponse> {
    let v: Value = serde_json::from_str(text).ok()?;
    let l = v.get("location")?;
    let c = v.get("current")?;
    Some(WeatherResponse {
        location: Location {
            name: text_of(l, "name")?,
            region: text_of(l, "region")?,
            country: text_of(l, "country")?,
            lat: l.get("lat")?.as_f64()?.to_bits(),
            lon: l.get("lon")?.as_f64()?.to_bits(),
            tz_id: text_of(l, "tz_id")?,
            localtime_epoch: l.get("localtime_epoch")?.as_i64()?,
            localtime: text_of(l, "localtime")?,
        },
        current: Current {
            last_updated_epoch: c.get("last_updated_epoch")?.as_i64()?,
            last_updated: text_of(c, "last_updated")?,
            temp_c: (c.get("temp_c")?.as_f64()? as f32).to_bits(),
            temp_f: (c.get("temp_f")?.as_f64()? as f32).to_bits(),
        },
    })
}

fn number(x: f64) -> Value {
    Value::Number(Number::from_f64(x).unwrap())
}

fn encode(r: &WeatherResponse) -> String {
    let mut l = serde_json::Map::new();
    l.insert(String::from("name"), Value::from(r.location.name.clone()));
    l.insert(String::from("region"), Value::from(r.location.region.clone()));
    l.insert(String::from("country"), Value::from(r.location.country.clone()));
    l.insert(String::from("lat"), number(f64::from_bits(r.location.lat)));
    l.insert(String::from("lon"), number(f64::from_bits(r.location.lon)));
    l.insert(String::from("tz_id"), Value::from(r.location.tz_id.clone()));
    l.insert(String::from("localtime_epoch"), Value::from(r.location.localtime_epoch));
    l.insert(String::from("localtime"), Value::from(r.location.localtime.clone()));
    let mut c = serde_json::Map::new();
    c.insert(String::from("last_updated_epoch"), Value::from(r.current.last_updated_epoch));
    c.insert(String::from("last_updated"), Value::from(r.current.last_updated.clone()));
    c.insert(String::from("temp_c"), number(f64::from(f32::from_bits(r.current.temp_c))));
    c.insert(String::from("temp_f"), number(f64::from(f32::from_bits(r.current.temp_f))));
    let mut top = serde_json::Map::new();
    top.insert(String::from("location"), Value::Object(l));
    top.insert(String::from("current"), Value::Object(c));
    serde_json::to_string(&Value::Object(top)).unwrap()
}

/// A store with a clock that the test moves, and an upstream provider that
/// counts how often it is asked.
struct World {
    entries: HashMap<String, (Vec<u8>, u64)>,
    now: u64,
    store_up: bool,
    upstream: HashMap<String, String>,
    upstream_calls: usize,
    store_reads: usize,
    store_writes: usize,
    asked: Vec<String>,
}

impl World {
    fn new() -> World {
        let mut upstream = HashMap::new();
        upstream.insert(String::from("London"), String::from(LONDON));
        upstream.insert(String::from("london"), String::from(LONDON));
        upstream.insert(String::from("NYC"), String::from(NEW_YORK));
        upstream.insert(String::from("Nowhere"), String::from("{\"error\":{\"code\":1006}}"));
        World {
            entries: HashMap::new(),
            now: 1_000,
            store_up: true,
            upstream,
            upstream_calls: 0,
            store_reads: 0,
            store_writes: 0,
            asked: Vec::new(),
        }
    }

    fn get(&mut self, key: &str) -> Event {
        if !self.store_up {
            return Event::StoreFailed;
        }
        self.store_reads += 1;
        match self.entries.get(key) {
            Some((payload, expires_at)) if self.now < *expires_at => {
                Event::Reply(StoreValue::Data(payload.clone()))
            }
            _ => Event::Reply(StoreValue::Nil),
        }
    }

    fn set_ex(&mut self, key: String, payload: Vec<u8>, seconds: u64) -> Event {
        if !self.store_up {
            return Event::StoreFailed;
        }
        self.store_writes += 1;
        self.entries.insert(key, (payload, self.now + seconds));
        Event::Reply(StoreValue::Okay)
    }

    fn fetch(&mut self, url: &str) -> Event {
        self.upstream_calls += 1;
        self.asked.push(String::from(url));
        let city = url.split("&q=").nth(1).unwrap().trim_end_matches("&aqi=no");
        Event::Fetched(self.upstream.get(city).and_then(|body| decode(body)))
    }

    fn request(&mut self, city: &str) -> Result<WeatherResponse, WeatherError> {
        let mut step = city_weather(String::from(city), String::from("k3y"));
        loop {
            let event = match step.action {
                Action::Lookup { key } => self.get(&key),
                Action::Decode { payload } => Event::Decoded(decode(&payload)),
                Action::Fetch { url } => self.fetch(&url),
                Action::Store { key, record, seconds } => {
                    self.set_ex(key, encode(&record).into_bytes(), seconds)
                }
                Action::Respond(result) => {
                    assert!(step.next.is_none());
                    return result;
                }
            };
            step = step.next.unwrap().resume(event);
        }
    }
}

#[test]
fn london_with_empty_store_is_fetched_and_cached() {
    let mut world = World::new();
    let answer = world.request("London").unwrap();
    assert_eq!(f32::from_bits(answer.current.temp_c), 15.0);
    assert_eq!(answer.location.name, "London");
    assert_eq!(answer, decode(LONDON).unwrap());
    assert!(world.entries.contains_key("london"));
    assert_eq!(world.entries.len(), 1);
    assert_eq!(world.entries["london"].1, 1_000 + 3600);
    assert_eq!(decode(std::str::from_utf8(&world.entries["london"].0).unwrap()), Some(answer));
}

#[test]
fn repeated_request_is_answered_from_the_store() {
    let mut world = World::new();
    let first = world.request("London").unwrap();
    assert_eq!(world.upstream_calls, 1);
    let second = world.request("London").unwrap();
    assert_eq!(second, first);
    assert_eq!(world.upstream_calls, 1);
    assert_eq!(world.store_writes, 1);
    assert_eq!(world.store_reads, 2);
}

#[test]
fn missing_entry_means_one_upstream_call_and_one_write() {
    let mut world = World::new();
    assert!(world.request("London").is_ok());
    assert_eq!(world.upstream_calls, 1);
    assert_eq!(world.store_writes, 1);
    assert_eq!(world.store_reads, 1);
    assert_eq!(
        world.asked,
        vec![String::from("https://api.weatherapi.com/v1/current.json?key=k3y&q=London&aqi=no")]
    );
}

#[test]
fn present_entry_means_no_upstream_call() {
    let mut world = World::new();
    let record = decode(LONDON).unwrap();
    world.entries.insert(String::from("london"), (encode(&record).into_bytes(), 2_000));
    assert_eq!(world.request("LONDON"), Ok(record));
    assert_eq!(world.upstream_calls, 0);
    assert_eq!(world.store_writes, 0);
}

#[test]
fn entry_is_unreadable_once_an_hour_has_passed() {
    let mut world = World::new();
    world.request("London").unwrap();
    world.now = 1_000 + 3599;
    world.request("London").unwrap();
    assert_eq!(world.upstream_calls, 1);
    world.now = 1_000 + 3600;
    world.request("London").unwrap();
    assert_eq!(world.upstream_calls, 2);
    assert_eq!(world.store_writes, 2);
    assert_eq!(world.entries["london"].1, 1_000 + 3600 + 3600);
}

#[test]
fn hit_does_not_refresh_the_expiration() {
    let mut world = World::new();
    world.request("London").unwrap();
    world.now = 3_000;
    world.request("London").unwrap();
    assert_eq!(world.entries["london"].1, 1_000 + 3600);
}

#[test]
fn city_that_differs_from_the_place_name_misses_again() {
    let mut world = World::new();
    let first = world.request("NYC").unwrap();
    assert_eq!(first.location.name, "New York");
    assert!(world.entries.contains_key("new york"));
    assert!(!world.entries.contains_key("nyc"));
    let second = world.request("NYC").unwrap();
    assert_eq!(second, first);
    assert_eq!(world.upstream_calls, 2);
    assert_eq!(world.store_writes, 2);
}

#[test]
fn upstream_without_a_record_fails_and_writes_nothing() {
    let mut world = World::new();
    assert_eq!(world.request("Nowhere"), Err(WeatherError::UpstreamFailed));
    assert_eq!(world.request("Atlantis"), Err(WeatherError::UpstreamFailed));
    assert_eq!(world.upstream_calls, 2);
    assert_eq!(world.store_writes, 0);
    assert!(world.entries.is_empty());
}

#[test]
fn unavailable_store_fails_before_any_upstream_call() {
    let mut world = World::new();
    world.store_up = false;
    assert_eq!(world.request("London"), Err(WeatherError::StoreUnavailable));
    assert_eq!(world.upstream_calls, 0);
}

#[test]
fn cached_text_that_is_no_record_fails() {
    let mut world = World::new();
    world.entries.insert(String::from("london"), (b"not json".to_vec(), 5_000));
    assert_eq!(world.request("London"), Err(WeatherError::MalformedPayload));
    world.entries.insert(String::from("london"), (vec![0xff, 0xfe], 5_000));
    assert_eq!(world.request("London"), Err(WeatherError::InvalidUtf8));
    assert_eq!(world.upstream_calls, 0);
}

#[test]
fn stored_record_round_trips_through_json() {
    let record = decode(NEW_YORK).unwrap();
    assert_eq!(f32::from_bits(record.current.temp_c), 8.3);
    assert_eq!(f64::from_bits(record.location.lon), -74.01);
    let text = encode(&record);
    assert_eq!(decode(&text), Some(record));
}
