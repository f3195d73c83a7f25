use exchange_bot::commands::xe::{ExchangeMode, XE};
use exchange_bot::helpers::preferences::{PreferenceStore, StoredPreferences};
use exchange_bot::helpers::rate_cache::RateCacheEntry;
use exchange_bot::helpers::timeseries::{CurrencyRate, TimeseriesResponse};
use exchange_bot::helpers::xe_client::{
    FixerResponse, FixerTimeseriesResponse, RateAction, RateEvent, TimeseriesAction,
    TimeseriesEvent, TimeseriesRequest, XEClient,
};
use exchange_bot::interaction::{
    ApplicationCommandInteractionDataOption, ApplicationCommandOptionType,
    InteractionApplicationCommandCallbackData,
};
use exchange_bot::number::Number;
use std::collections::HashMap;

/// A host in memory: a key-value store, a rate service that answers from a
/// table, and a clock that is set by hand.
struct Host {
    store: HashMap<String, String>,
    rates: HashMap<String, f64>,
    series: Vec<(String, f64)>,
    now: i64,
    fetches: usize,
}

fn number(value: f64) -> Number {
    Number::from_bits(value.to_bits())
}

fn value(number: Number) -> f64 {
    f64::from_bits(number.to_bits())
}

fn options(pairs: &[(&str, &str)]) -> Option<Vec<ApplicationCommandInteractionDataOption>> {
    Some(
        pairs
            .iter()
            .map(|(name, value)| ApplicationCommandInteractionDataOption {
                name: name.to_string(),
                ty: ApplicationCommandOptionType::String,
                value: Some(value.to_string()),
                focused: None,
            })
            .collect(),
    )
}

impl Host {
    fn new() -> Host {
        Host { store: HashMap::new(), rates: HashMap::new(), series: Vec::new(), now: 1_700_000_000, fetches: 0 }
    }

    fn encode(entry: &RateCacheEntry) -> String {
        format!("{}:{}", entry.rate.to_bits(), entry.timestamp)
    }

    fn decode(text: &str) -> RateCacheEntry {
        let (bits, timestamp) = text.split_once(':').unwrap();
        RateCacheEntry { rate: Number::from_bits(bits.parse().unwrap()), timestamp: timestamp.parse().unwrap() }
    }

    fn lookup_rate(&mut self, client: &mut XEClient) {
        let mut action = client.get_rate(RateEvent::Start);
        loop {
            let event = match action {
                RateAction::ReadCache { key } => RateEvent::CacheRead {
                    entry: self.store.get(&key).map(|text| Host::decode(text)),
                    now: self.now as u64,
                },
                RateAction::Fetch { url } => {
                    self.fetches += 1;
                    assert!(url.starts_with("https://api.apilayer.com/fixer/latest?symbols="));
                    let rates = self
                        .rates
                        .iter()
                        .map(|(code, rate)| CurrencyRate { code: code.clone(), rate: number(*rate) })
                        .collect();
                    RateEvent::Fetched {
                        response: FixerResponse {
                            base: client.request.from.clone(),
                            date: "2023-11-14".to_string(),
                            rates,
                            success: true,
                            timestamp: self.now as u64,
                        },
                        now: self.now as u64,
                    }
                }
                RateAction::WriteCache { key, entry } => {
                    self.store.insert(key, Host::encode(&entry));
                    RateEvent::CacheWritten
                }
                RateAction::Done => return,
                RateAction::Fail(error) => panic!("{}", error.message()),
            };
            action = client.get_rate(event);
        }
    }

    fn lookup_series(&mut self, client: &mut XEClient) {
        let mut cached: HashMap<String, TimeseriesResponse> = HashMap::new();
        let mut action = client.get_timeseries(TimeseriesEvent::Start);
        loop {
            let event = match action {
                TimeseriesAction::ReadCache { key } => TimeseriesEvent::CacheRead { series: cached.remove(&key) },
                TimeseriesAction::Fetch { .. } => {
                    self.fetches += 1;
                    let mut rates = TimeseriesResponse::new();
                    for (date, rate) in &self.series {
                        rates.insert(
                            date.clone(),
                            vec![CurrencyRate { code: client.request.to.clone(), rate: number(*rate) }],
                        );
                    }
                    TimeseriesEvent::Fetched {
                        response: FixerTimeseriesResponse {
                            base: client.request.from.clone(),
                            start_date: client.request.dates.start_date.clone(),
                            end_date: client.request.dates.end_date.clone(),
                            rates,
                            success: true,
                            timeseries: true,
                        },
                    }
                }
                TimeseriesAction::WriteCache { key, series } => {
                    cached.insert(key, series);
                    TimeseriesEvent::CacheWritten
                }
                TimeseriesAction::Done => return,
                TimeseriesAction::Fail(error) => panic!("{}", error.message()),
            };
            action = client.get_timeseries(event);
        }
    }

    /// Answers a currency request of `username`, as the worker does.
    fn respond(
        &mut self,
        username: &str,
        given: &Option<Vec<ApplicationCommandInteractionDataOption>>,
    ) -> InteractionApplicationCommandCallbackData {
        let xe = XE {};
        let read = xe.read_options(given);
        let stored = StoredPreferences {
            currency_from: self.store.get(&PreferenceStore::from_key(username)).cloned(),
            currency_to: self.store.get(&PreferenceStore::to_key(username)).cloned(),
            currency_precision: self.store.get(&PreferenceStore::precision_key(username)).cloned(),
        };
        let amount = read.amount.as_ref().and_then(|text| text.parse::<f64>().ok()).map(number);
        let default_range = TimeseriesRequest::default_range(self.now).unwrap();
        let mut client = XEClient::new(
            read.from.as_ref(),
            read.to.as_ref(),
            amount,
            read.precision.as_ref(),
            read.timeseries.as_ref(),
            &stored,
            &default_range,
        );
        match xe.mode(&read) {
            ExchangeMode::SetDefaults => {
                for write in client.set_default(username) {
                    self.store.insert(write.key, write.value);
                }
                xe.defaults_updated()
            }
            ExchangeMode::Timeseries => {
                self.lookup_series(&mut client);
                let summary = client.timeseries_summary().unwrap();
                let embed = client.construct_timeseries_embed(
                    format!("{} points", summary.values.len()),
                    format!("{:.2}", value(summary.min)),
                    format!("{:.2}", value(summary.max)),
                );
                xe.respond(embed)
            }
            ExchangeMode::Rate => {
                self.lookup_rate(&mut client);
                let shown = client.get_xe().unwrap();
                let converted = format!("{:.*}", shown.precision, value(shown.rate) * value(shown.amount));
                let embed = client.construct_rate_embed(&format!("{}", value(shown.amount)), &converted);
                xe.respond(embed)
            }
        }
    }
}

fn description(answer: &InteractionApplicationCommandCallbackData) -> String {
    answer.embeds.as_ref().unwrap()[0].description.clone()
}

#[test]
fn alice_asks_for_nothing_in_particular() {
    let mut host = Host::new();
    host.rates.insert("JPY".to_string(), 149.25);
    let answer = host.respond("alice", &options(&[]));
    assert_eq!(description(&answer), "1 USD --> 149.2500 JPY");
    let bare = host.respond("alice", &None);
    assert_eq!(description(&bare), "1 USD --> 149.2500 JPY");
    assert_eq!(host.fetches, 1);
}

#[test]
fn two_hundred_and_fifty_euros_in_australian_dollars() {
    let mut host = Host::new();
    host.rates.insert("AUD".to_string(), 1.6);
    let answer =
        host.respond("alice", &options(&[("from", "EUR"), ("to", "AUD"), ("amount", "250"), ("precision", "2")]));
    assert_eq!(description(&answer), "250 EUR --> 400.00 AUD");
    assert_eq!(answer.embeds.as_ref().unwrap()[0].title, "Exchange Rate");
    assert_eq!(answer.content, None);
    assert_eq!(answer.choices, None);
}

#[test]
fn a_series_of_ten_days() {
    let mut host = Host::new();
    let rates = [1.61, 1.58, 1.64, 1.6, 1.59, 1.62, 1.57, 1.63, 1.655, 1.565];
    for (index, rate) in rates.iter().enumerate().rev() {
        host.series.push((format!("2023-01-{:02}", index + 1), *rate));
    }
    let answer = host.respond(
        "alice",
        &options(&[("from", "EUR"), ("to", "AUD"), ("timeseries", "2023-01-01_2023-01-10")]),
    );
    let embed = &answer.embeds.as_ref().unwrap()[0];
    assert_eq!(embed.title, "Exchange Rate Timeseries");
    assert_eq!(embed.description, "10 points");
    assert_eq!(embed.fields[0].name, "Min");
    assert_eq!(embed.fields[0].value, "1.56");
    assert_eq!(embed.fields[0].inline, Some(true));
    assert_eq!(embed.fields[1].name, "Max");
    assert_eq!(embed.fields[1].value, "1.66");
    assert_eq!(embed.fields[1].inline, Some(true));
}

#[test]
fn defaults_are_set_and_then_used() {
    let mut host = Host::new();
    host.rates.insert("CAD".to_string(), 1.7);
    host.rates.insert("JPY".to_string(), 149.25);
    let set = host.respond("bob", &options(&[("set_defaults", "True"), ("from", "GBP"), ("to", "CAD")]));
    assert_eq!(description(&set), "Defaults have been updated");
    assert_eq!(host.fetches, 0);
    assert_eq!(host.store.get("bob:currency_from").map(String::as_str), Some("GBP"));
    assert_eq!(host.store.get("bob:currency_to").map(String::as_str), Some("CAD"));
    assert_eq!(host.store.get("bob:currency_precision").map(String::as_str), Some("4"));

    let plain = host.respond("bob", &options(&[]));
    assert_eq!(description(&plain), "1 GBP --> 1.7000 CAD");
    // Someone else is not affected.
    let other = host.respond("alice", &options(&[]));
    assert_eq!(description(&other), "1 USD --> 149.2500 JPY");
}

#[test]
fn set_defaults_that_says_false_sets_nothing() {
    let mut host = Host::new();
    host.rates.insert("CAD".to_string(), 1.7);
    let answer = host.respond("bob", &options(&[("set_defaults", "False"), ("from", "GBP"), ("to", "CAD")]));
    assert_eq!(description(&answer), "1 GBP --> 1.7000 CAD");
    assert_eq!(host.store.get("bob:currency_from"), None);
}

#[test]
fn an_amount_that_is_no_number_counts_as_one() {
    let mut host = Host::new();
    host.rates.insert("JPY".to_string(), 149.25);
    for amount in ["", "lots", "1,5", "0x10"] {
        let answer = host.respond("alice", &options(&[("amount", amount)]));
        assert_eq!(description(&answer), "1 USD --> 149.2500 JPY", "for {:?}", amount);
    }
    let answer = host.respond("alice", &options(&[("amount", "2")]));
    assert_eq!(description(&answer), "2 USD --> 298.5000 JPY");
}

#[test]
fn a_precision_above_twelve_shows_twelve_places() {
    let mut host = Host::new();
    host.rates.insert("JPY".to_string(), 149.25);
    let answer = host.respond("alice", &options(&[("precision", "30")]));
    assert_eq!(description(&answer), "1 USD --> 149.250000000000 JPY");
    let exact = host.respond("alice", &options(&[("precision", "12")]));
    assert_eq!(description(&exact), "1 USD --> 149.250000000000 JPY");
    let none = host.respond("alice", &options(&[("precision", "0")]));
    assert_eq!(description(&none), "1 USD --> 149 JPY");
}

#[test]
fn the_cache_spares_the_rate_service_for_four_hours() {
    let mut host = Host::new();
    host.rates.insert("JPY".to_string(), 149.25);
    host.respond("alice", &None);
    host.now += 14_399;
    host.rates.insert("JPY".to_string(), 150.0);
    let cached = host.respond("bob", &None);
    assert_eq!(description(&cached), "1 USD --> 149.2500 JPY");
    assert_eq!(host.fetches, 1);
    host.now += 1;
    let fresh = host.respond("bob", &None);
    assert_eq!(description(&fresh), "1 USD --> 150.0000 JPY");
    assert_eq!(host.fetches, 2);
}
