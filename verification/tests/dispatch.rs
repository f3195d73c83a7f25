use exchange_bot::command::{find_command, init_commands, CommandKind};
use exchange_bot::commands::hey::Hey;
use exchange_bot::commands::jisho::Jisho;
use exchange_bot::commands::xe::{CurrencyCodes, ExchangeMode, XE};
use exchange_bot::embed::{Embed, EmbedField};
use exchange_bot::error::{Error, ExchangeError, InteractionError};
use exchange_bot::helpers::jisho_client::{
    Attribution, Data, Japanese, JishoClient, Meta, Response, Sense,
};
use exchange_bot::helpers::xe_client::XEOptions;
use exchange_bot::interaction::{
    ApplicationCommandInteractionData, ApplicationCommandInteractionDataOption,
    ApplicationCommandOption, ApplicationCommandOptionChoice, ApplicationCommandOptionType,
    Dispatch, Interaction, InteractionApplicationCommandCallbackData, InteractionResponse,
    InteractionResponseType, InteractionType, Member, User,
};

fn text(value: &str) -> String {
    value.to_string()
}

fn option(name: &str, value: Option<&str>) -> ApplicationCommandInteractionDataOption {
    ApplicationCommandInteractionDataOption {
        name: text(name),
        ty: ApplicationCommandOptionType::String,
        value: value.map(text),
        focused: None,
    }
}

fn interaction(
    ty: InteractionType,
    data: Option<ApplicationCommandInteractionData>,
) -> Interaction {
    Interaction {
        id: Some(text("1")),
        ty,
        data,
        token: text("token"),
        guild_id: None,
        channel_id: None,
        application_id: None,
        member: None,
        user: None,
        version: Some(1),
    }
}

fn call(name: &str) -> Option<ApplicationCommandInteractionData> {
    Some(ApplicationCommandInteractionData { name: text(name), options: None })
}

fn member(username: &str) -> Member {
    Member {
        user: User {
            avatar: text("a"),
            avatar_decoration: None,
            discriminator: text("0001"),
            id: text("42"),
            public_flags: 0,
            username: text(username),
        },
        roles: Vec::new(),
        premium_since: None,
        permissions: text("0"),
        pending: false,
        nick: None,
        mute: false,
        joined_at: text("2020-01-01"),
        is_pending: false,
        deaf: false,
    }
}

fn nothing() -> InteractionApplicationCommandCallbackData {
    InteractionApplicationCommandCallbackData { content: None, choices: None, embeds: None }
}

fn choice(name: &str, value: &str) -> ApplicationCommandOptionChoice {
    ApplicationCommandOptionChoice { name: text(name), value: text(value) }
}

fn not_found() -> Embed {
    Embed {
        title: text("Error"),
        description: text("No data found for that word"),
        url: None,
        thumbnail: None,
        footer: None,
        fields: Vec::new(),
        color: Some(0xFF0000),
    }
}

fn entry(slug: &str, japanese: Vec<Japanese>, senses: Vec<Sense>) -> Data {
    Data {
        slug: text(slug),
        is_common: true,
        tags: Vec::new(),
        jlpt: Vec::new(),
        japanese,
        senses,
        attribution: Attribution { jmdict: true, jmnedict: false, dbpedia: serde_json::Value::Bool(false) },
    }
}

fn sense(definitions: &[&str]) -> Sense {
    Sense {
        english_definitions: definitions.iter().map(|d| text(d)).collect(),
        parts_of_speech: Vec::new(),
        links: Vec::new(),
        tags: Vec::new(),
        restrictions: Vec::new(),
        see_also: Vec::new(),
        antonyms: Vec::new(),
        source: Vec::new(),
        info: Vec::new(),
        sentences: None,
    }
}

// --- wire codes --------------------------------------------------------------

#[test]
fn interaction_types_have_their_codes() {
    assert_eq!(InteractionType::Ping.code(), 1);
    assert_eq!(InteractionType::ApplicationCommand.code(), 2);
    assert_eq!(InteractionType::MessageComponent.code(), 3);
    assert_eq!(InteractionType::ApplicationCommandAutoComplete.code(), 4);
    assert_eq!(InteractionType::ModalSubmit.code(), 5);
    for code in 0..=255u8 {
        match InteractionType::from_code(code) {
            Some(kind) => assert_eq!(kind.code(), code),
            None => assert!(code == 0 || code > 5),
        }
    }
}

#[test]
fn response_types_have_their_codes() {
    assert_eq!(InteractionResponseType::Pong.code(), 1);
    assert_eq!(InteractionResponseType::ChannelMessageWithSource.code(), 4);
    assert_eq!(InteractionResponseType::ACKWithSource.code(), 5);
    assert_eq!(InteractionResponseType::AutoCompleteResult.code(), 8);
    for code in 0..=255u8 {
        match InteractionResponseType::from_code(code) {
            Some(kind) => assert_eq!(kind.code(), code),
            None => assert!(![1, 4, 5, 8].contains(&code)),
        }
    }
}

#[test]
fn option_types_have_their_codes() {
    assert_eq!(ApplicationCommandOptionType::SubCommand.code(), 1);
    assert_eq!(ApplicationCommandOptionType::SubCommandGroup.code(), 2);
    assert_eq!(ApplicationCommandOptionType::String.code(), 3);
    assert_eq!(ApplicationCommandOptionType::Boolean.code(), 5);
    for code in 0..=255u8 {
        match ApplicationCommandOptionType::from_code(code) {
            Some(kind) => assert_eq!(kind.code(), code),
            None => assert!(![1, 2, 3, 5].contains(&code)),
        }
    }
}

// --- the registry ------------------------------------------------------------

#[test]
fn the_registry_holds_three_commands() {
    assert_eq!(init_commands(), vec![CommandKind::Hey, CommandKind::Jisho, CommandKind::XE]);
}

#[test]
fn commands_are_found_by_their_names() {
    assert_eq!(find_command("hey"), Some(CommandKind::Hey));
    assert_eq!(find_command("jisho"), Some(CommandKind::Jisho));
    assert_eq!(find_command("xe"), Some(CommandKind::XE));
    assert_eq!(find_command("Hey"), None);
    assert_eq!(find_command("xe "), None);
    assert_eq!(find_command(""), None);
    for command in init_commands() {
        assert_eq!(find_command(&command.name()), Some(command));
    }
}

#[test]
fn commands_describe_themselves() {
    assert_eq!(CommandKind::Hey.name(), "hey");
    assert_eq!(CommandKind::Jisho.name(), "jisho");
    assert_eq!(CommandKind::XE.name(), "xe");
    assert_eq!(CommandKind::Hey.description(), "Say Hey to the user!");
    assert_eq!(CommandKind::Jisho.description(), "Jisho a word!");
    assert_eq!(CommandKind::XE.description(), "Convert from one currency to another");
    assert_eq!(CommandKind::Hey.options(), (Hey {}).options());
    assert_eq!(CommandKind::Jisho.options(), (Jisho {}).options());
    assert_eq!(CommandKind::XE.options(), (XE {}).options());
    assert_eq!(CommandKind::Jisho.autocomplete(&None), nothing());
    assert_eq!(CommandKind::XE.autocomplete(&None), nothing());
    assert_eq!(CommandKind::Hey.autocomplete(&None), (Hey {}).autocomplete(&None));
}

// --- dispatching -------------------------------------------------------------

#[test]
fn a_ping_is_answered_with_a_pong() {
    let ping = interaction(InteractionType::Ping, None);
    let pong = InteractionResponse { ty: InteractionResponseType::Pong, data: None };
    assert_eq!(ping.handle_ping(), pong);
    assert_eq!(ping.perform(), Ok(Dispatch::Respond(pong)));
}

#[test]
fn data_is_asked_for_and_missed() {
    let with = interaction(InteractionType::ApplicationCommand, call("hey"));
    assert_eq!(with.data(), Ok(&ApplicationCommandInteractionData { name: text("hey"), options: None }));
    let without = interaction(InteractionType::ApplicationCommand, None);
    assert_eq!(without.data(), Err(Error::InvalidPayload(text("data not found"))));
}

#[test]
fn a_command_is_routed_by_its_name() {
    for (name, command) in [("hey", CommandKind::Hey), ("jisho", CommandKind::Jisho), ("xe", CommandKind::XE)] {
        let incoming = interaction(InteractionType::ApplicationCommand, call(name));
        assert_eq!(incoming.handle_command(), Ok(command));
        assert_eq!(incoming.perform(), Ok(Dispatch::Run(command)));
    }
}

#[test]
fn an_unknown_command_is_reported_by_name() {
    let incoming = interaction(InteractionType::ApplicationCommand, call("weather"));
    assert_eq!(incoming.handle_command(), Err(InteractionError::UnknownCommand(text("weather"))));
    assert_eq!(
        incoming.perform(),
        Err(Error::InteractionFailed(InteractionError::UnknownCommand(text("weather"))))
    );
    let suggesting = interaction(InteractionType::ApplicationCommandAutoComplete, call("weather"));
    assert_eq!(suggesting.handle_autocomplete(), Err(InteractionError::UnknownCommand(text("weather"))));
}

#[test]
fn a_command_without_data_fails() {
    let incoming = interaction(InteractionType::ApplicationCommand, None);
    assert_eq!(incoming.handle_command(), Err(InteractionError::GenericError()));
    assert_eq!(incoming.perform(), Err(Error::InteractionFailed(InteractionError::GenericError())));
    let suggesting = interaction(InteractionType::ApplicationCommandAutoComplete, None);
    assert_eq!(suggesting.perform(), Err(Error::InteractionFailed(InteractionError::GenericError())));
}

#[test]
fn suggestions_are_made_at_once() {
    let suggesting = interaction(InteractionType::ApplicationCommandAutoComplete, call("hey"));
    let expected = InteractionResponse {
        ty: InteractionResponseType::AutoCompleteResult,
        data: Some(InteractionApplicationCommandCallbackData {
            content: None,
            choices: Some(vec![choice("loki", "Loki"), choice("icecream", "IceCream"), choice("yoroshi", "Yoroshi")]),
            embeds: None,
        }),
    };
    assert_eq!(suggesting.handle_autocomplete(), Ok(expected.clone()));
    assert_eq!(suggesting.perform(), Ok(Dispatch::Respond(expected)));
    let quiet = interaction(InteractionType::ApplicationCommandAutoComplete, call("xe"));
    assert_eq!(
        quiet.handle_autocomplete(),
        Ok(InteractionResponse { ty: InteractionResponseType::AutoCompleteResult, data: Some(nothing()) })
    );
}

#[test]
fn other_interactions_are_not_offered() {
    for ty in [InteractionType::MessageComponent, InteractionType::ModalSubmit] {
        let incoming = interaction(ty, call("hey"));
        assert_eq!(incoming.perform(), Err(Error::InvalidPayload(text("Not implemented"))));
    }
}

#[test]
fn the_answer_of_a_command_goes_out_as_a_channel_message() {
    let answer = (Hey {}).respond(&None);
    assert_eq!(
        InteractionResponse::from_command(answer.clone()),
        InteractionResponse { ty: InteractionResponseType::ChannelMessageWithSource, data: Some(answer) }
    );
}

// --- hey ---------------------------------------------------------------------

#[test]
fn hey_greets_by_name() {
    let hey = Hey {};
    let named = hey.respond(&Some(vec![option("name", Some("Bob"))]));
    assert_eq!(named.content, Some(text("Hey, Bob!")));
    assert_eq!(named.choices, None);
    assert_eq!(named.embeds, None);
    let first = hey.respond(&Some(vec![option("name", Some("Bob")), option("name", Some("Eve"))]));
    assert_eq!(first.content, Some(text("Hey, Bob!")));
}

#[test]
fn hey_greets_someone_when_no_name_is_given() {
    let hey = Hey {};
    assert_eq!(hey.respond(&None).content, Some(text("Hey, Someone!")));
    assert_eq!(hey.respond(&Some(Vec::new())).content, Some(text("Hey, Someone!")));
    assert_eq!(hey.respond(&Some(vec![option("name", None)])).content, Some(text("Hey, Someone!")));
    assert_eq!(
        hey.respond(&Some(vec![option("name", None), option("name", Some("Eve"))])).content,
        Some(text("Hey, Someone!"))
    );
    assert_eq!(hey.respond(&Some(vec![option("name", Some(""))])).content, Some(text("Hey, !")));
}

#[test]
fn hey_declares_one_option() {
    let hey = Hey {};
    assert_eq!(hey.name(), "hey");
    assert_eq!(hey.description(), "Say Hey to the user!");
    assert_eq!(
        hey.options(),
        Some(vec![ApplicationCommandOption {
            name: text("name"),
            description: text("The user you want to say hey to"),
            ty: ApplicationCommandOptionType::String,
            choices: None,
            autocomplete: Some(true),
            required: Some(true),
        }])
    );
}

// --- jisho -------------------------------------------------------------------

#[test]
fn jisho_takes_the_word_from_the_first_option() {
    let jisho = Jisho {};
    assert_eq!(jisho.word(&Some(vec![option("word", Some("猫"))])), Some(text("猫")));
    assert_eq!(jisho.word(&Some(vec![option("word", Some("a")), option("word", Some("b"))])), Some(text("a")));
    assert_eq!(jisho.word(&Some(vec![option("word", None)])), None);
    assert_eq!(jisho.word(&Some(Vec::new())), None);
    assert_eq!(jisho.word(&None), None);
}

#[test]
fn jisho_declares_one_option() {
    let jisho = Jisho {};
    assert_eq!(jisho.name(), "jisho");
    assert_eq!(jisho.description(), "Jisho a word!");
    assert_eq!(
        jisho.options(),
        Some(vec![ApplicationCommandOption {
            name: text("word"),
            description: text("The word you want to jisho"),
            ty: ApplicationCommandOptionType::String,
            choices: None,
            autocomplete: Some(false),
            required: Some(true),
        }])
    );
    assert_eq!(jisho.autocomplete(&None), nothing());
}

#[test]
fn a_search_knows_its_address() {
    let client = JishoClient::new(text("cat"));
    assert_eq!(client.options.word, "cat");
    assert_eq!(client.response, None);
    assert_eq!(client.search_url(), "https://jisho.org/api/v1/search/words?keyword=cat");
}

#[test]
fn an_unanswered_search_shows_nothing_found() {
    let client = JishoClient::new(text("cat"));
    assert_eq!(client.construct_embed(), not_found());
}

#[test]
fn an_answer_without_entries_shows_nothing_found() {
    let mut client = JishoClient::new(text("cat"));
    client.api_get_word(Response { meta: Meta { status: 200 }, data: Vec::new() });
    assert_eq!(client.construct_embed(), not_found());
    assert_eq!((Jisho {}).respond(&client).embeds, Some(vec![not_found()]));
}

#[test]
fn the_first_entry_is_shown() {
    let mut client = JishoClient::new(text("cat"));
    let first = entry(
        "猫",
        vec![
            Japanese { word: Some(text("猫")), reading: Some(text("ねこ")) },
            Japanese { word: Some(text("ネコ")), reading: None },
        ],
        vec![sense(&["cat", "feline"]), sense(&["shamisen"])],
    );
    let second = entry("子猫", Vec::new(), Vec::new());
    client.api_get_word(Response { meta: Meta { status: 200 }, data: vec![first, second] });
    assert_eq!(client.options.word, "cat");
    let embed = client.construct_embed();
    assert_eq!(embed.title, "");
    assert_eq!(embed.description, "");
    assert_eq!(embed.color, Some(0x00FF00));
    assert_eq!(
        embed.fields,
        vec![
            EmbedField { name: text("Word searched"), value: text("cat"), inline: Some(false) },
            EmbedField { name: text("English"), value: text("cat"), inline: Some(true) },
            EmbedField { name: text("Japanese"), value: text("猫"), inline: Some(true) },
            EmbedField { name: text("Reading"), value: text("ねこ"), inline: Some(true) },
            EmbedField {
                name: text("Extras"),
                value: text("[📗](https://jisho.org/word/猫) | [🔍](https://jisho.org/search/cat)"),
                inline: Some(false),
            },
        ]
    );
    let answer = (Jisho {}).respond(&client);
    assert_eq!(answer.content, None);
    assert_eq!(answer.choices, None);
    assert_eq!(answer.embeds, Some(vec![embed]));
}

#[test]
fn an_entry_with_gaps_is_shown_with_stand_ins() {
    let mut client = JishoClient::new(text("x"));
    client.api_get_word(Response {
        meta: Meta { status: 200 },
        data: vec![entry("x", Vec::new(), Vec::new())],
    });
    let fields = client.construct_embed().fields;
    assert_eq!(fields[1].value, "Unknown English Translation");
    assert_eq!(fields[2].value, "No Kana");
    assert_eq!(fields[3].value, "No Reading");

    let mut client = JishoClient::new(text("x"));
    client.api_get_word(Response {
        meta: Meta { status: 200 },
        data: vec![entry("x", vec![Japanese { word: None, reading: None }], vec![sense(&[])])],
    });
    let fields = client.construct_embed().fields;
    assert_eq!(fields[1].value, "Unknown English Translation");
    assert_eq!(fields[2].value, "No Kana");
    assert_eq!(fields[3].value, "No Reading");
}

// --- xe ----------------------------------------------------------------------

#[test]
fn there_are_twenty_two_currencies() {
    let codes: Vec<String> = CurrencyCodes::all().iter().map(|c| c.code()).collect();
    assert_eq!(
        codes,
        vec![
            "USD", "EUR", "JPY", "BGN", "BTC", "CZK", "DKK", "GBP", "SEK", "CHF", "AUD", "BRL", "CAD", "CNY",
            "HKD", "INR", "KRW", "MXN", "MYR", "NZD", "PHP", "SGD",
        ]
    );
}

#[test]
fn xe_declares_six_options() {
    let xe = XE {};
    assert_eq!(xe.name(), "xe");
    assert_eq!(xe.description(), "Convert from one currency to another");
    assert_eq!(xe.autocomplete(&None), nothing());
    let options = xe.options().unwrap();
    let names: Vec<&str> = options.iter().map(|o| o.name.as_str()).collect();
    assert_eq!(names, vec!["from", "to", "amount", "precision", "timeseries", "set_defaults"]);
    let descriptions: Vec<&str> = options.iter().map(|o| o.description.as_str()).collect();
    assert_eq!(
        descriptions,
        vec![
            "The currency to convert from (Default AUD)",
            "The currency to convert to (Default JPY)",
            "The amount of the currency (Number)",
            "Precision of the decimal points (u8, max 12, default: 4)",
            "Get a timeseries graph of historical data (format: YYYY-MM-DD_YYYY_MM_DD)",
            "Set the default currencies for this user",
        ]
    );
    for declared in &options {
        assert_eq!(declared.ty, ApplicationCommandOptionType::String);
        assert_eq!(declared.autocomplete, Some(false));
        assert_eq!(declared.required, Some(false));
    }
    let currencies: Vec<ApplicationCommandOptionChoice> =
        CurrencyCodes::all().iter().map(|c| choice(&c.code(), &c.code())).collect();
    assert_eq!(currencies.len(), 22);
    assert_eq!(options[0].choices, Some(currencies.clone()));
    assert_eq!(options[1].choices, Some(currencies));
    assert_eq!(options[2].choices, None);
    assert_eq!(options[3].choices, None);
    assert_eq!(options[4].choices, None);
    assert_eq!(options[5].choices, Some(vec![choice("True", "True"), choice("False", "False")]));
}

#[test]
fn xe_reads_its_options_by_name() {
    let xe = XE {};
    let read = xe.read_options(&Some(vec![
        option("to", Some("AUD")),
        option("from", Some("EUR")),
        option("precision", Some("2")),
        option("amount", Some("250")),
        option("unknown", Some("x")),
    ]));
    assert_eq!(
        read,
        XEOptions {
            set_default: None,
            from: Some(text("EUR")),
            to: Some(text("AUD")),
            amount: Some(text("250")),
            precision: Some(text("2")),
            timeseries: None,
        }
    );
}

#[test]
fn xe_reads_nothing_from_no_options() {
    let xe = XE {};
    let empty = XEOptions { set_default: None, from: None, to: None, amount: None, precision: None, timeseries: None };
    assert_eq!(xe.read_options(&None), empty);
    assert_eq!(xe.read_options(&Some(Vec::new())), empty);
}

#[test]
fn of_two_options_of_one_name_the_last_counts() {
    let xe = XE {};
    let read = xe.read_options(&Some(vec![
        option("from", Some("EUR")),
        option("from", Some("GBP")),
        option("to", Some("AUD")),
        option("to", None),
    ]));
    assert_eq!(read.from, Some(text("GBP")));
    assert_eq!(read.to, Some(text("")));
}

#[test]
fn set_defaults_counts_when_its_value_holds_true() {
    let xe = XE {};
    let flag = |value: Option<&str>| xe.read_options(&Some(vec![option("set_defaults", value)])).set_default;
    assert_eq!(flag(Some("True")), Some(true));
    assert_eq!(flag(Some("xTruex")), Some(true));
    assert_eq!(flag(Some("False")), Some(false));
    assert_eq!(flag(Some("true")), Some(false));
    assert_eq!(flag(None), Some(false));
    assert_eq!(xe.read_options(&Some(vec![option("from", Some("EUR"))])).set_default, None);
}

#[test]
fn the_mode_of_a_request() {
    let xe = XE {};
    let options = |set_default: Option<bool>, timeseries: Option<&str>| XEOptions {
        set_default,
        from: None,
        to: None,
        amount: None,
        precision: None,
        timeseries: timeseries.map(text),
    };
    assert_eq!(xe.mode(&options(None, None)), ExchangeMode::Rate);
    assert_eq!(xe.mode(&options(Some(false), None)), ExchangeMode::Rate);
    assert_eq!(xe.mode(&options(Some(true), None)), ExchangeMode::SetDefaults);
    assert_eq!(xe.mode(&options(Some(true), Some("2023-01-01_2023-01-10"))), ExchangeMode::SetDefaults);
    assert_eq!(xe.mode(&options(Some(false), Some("2023-01-01_2023-01-10"))), ExchangeMode::Timeseries);
    assert_eq!(xe.mode(&options(None, Some(""))), ExchangeMode::Timeseries);
}

#[test]
fn the_sender_is_named_by_the_member() {
    let xe = XE {};
    assert_eq!(xe.username(&Some(member("alice"))), Some(text("alice")));
    assert_eq!(xe.username(&None), None);
}

#[test]
fn a_failed_request_is_answered_with_a_failure_without_detail() {
    let xe = XE {};
    assert_eq!(xe.failed(ExchangeError::UpstreamFailure), InteractionError::GenericError());
    assert_eq!(xe.failed(ExchangeError::StoreUnavailable), InteractionError::GenericError());
}

#[test]
fn xe_answers_with_one_embed() {
    let xe = XE {};
    let updated = xe.defaults_updated();
    assert_eq!(updated.content, None);
    assert_eq!(updated.choices, None);
    assert_eq!(
        updated.embeds,
        Some(vec![Embed {
            title: text("Exchange Rate"),
            description: text("Defaults have been updated"),
            url: None,
            thumbnail: None,
            footer: None,
            fields: Vec::new(),
            color: Some(0xfdc835),
        }])
    );
    let shown = xe.respond(not_found());
    assert_eq!(shown.embeds, Some(vec![not_found()]));
    assert_eq!(shown.content, None);
}
