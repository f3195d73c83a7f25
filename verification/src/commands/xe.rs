//! The currency exchange command.

use crate::embed::{embed_views, plain_embed, Embed, EmbedView, EXCHANGE_COLOR};
use crate::error::{ExchangeError, InteractionError, InteractionErrorView};
use crate::helpers::xe_client::{XEOptions, XEOptionsView};
use crate::interaction::{
    choice_views, command_option_views, opt_data_option_views, ApplicationCommandInteractionDataOption,
    ApplicationCommandOption, ApplicationCommandOptionChoice, ApplicationCommandOptionType,
    CallbackDataView, ChoiceView, CommandOptionView, DataOptionView,
    InteractionApplicationCommandCallbackData, Member,
};
use crate::text::{contains, opt_text, same_text, spec_contains};
use vstd::prelude::*;

verus! {

/// The currencies that the command offers.
#[derive(Clone, Copy, Debug, PartialEq, Eq, Structural)]
pub enum CurrencyCodes {
    USD,
    EUR,
    JPY,
    BGN,
    BTC,
    CZK,
    DKK,
    GBP,
    SEK,
    CHF,
    AUD,
    BRL,
    CAD,
    CNY,
    HKD,
    INR,
    KRW,
    MXN,
    MYR,
    NZD,
    PHP,
    SGD,
}

/// The command that converts from one currency to another.
pub struct XE {}

/// What a currency request is about.
#[derive(Clone, Copy, Debug, PartialEq, Eq, Structural)]
pub enum ExchangeMode {
    /// Keep the currencies and the precision as the user's defaults.
    SetDefaults,
    /// Show the rates of a range of dates.
    Timeseries,
    /// Convert an amount at the latest rate.
    Rate,
}

impl CurrencyCodes {
    /// The three letters of the currency.
    pub open spec fn spec_code(self) -> Seq<char> {
        match self {
            CurrencyCodes::USD => "USD"@,
            CurrencyCodes::EUR => "EUR"@,
            CurrencyCodes::JPY => "JPY"@,
            CurrencyCodes::BGN => "BGN"@,
            CurrencyCodes::BTC => "BTC"@,
            CurrencyCodes::CZK => "CZK"@,
            CurrencyCodes::DKK => "DKK"@,
            CurrencyCodes::GBP => "GBP"@,
            CurrencyCodes::SEK => "SEK"@,
            CurrencyCodes::CHF => "CHF"@,
            CurrencyCodes::AUD => "AUD"@,
            CurrencyCodes::BRL => "BRL"@,
            CurrencyCodes::CAD => "CAD"@,
            CurrencyCodes::CNY => "CNY"@,
            CurrencyCodes::HKD => "HKD"@,
            CurrencyCodes::INR => "INR"@,
            CurrencyCodes::KRW => "KRW"@,
            CurrencyCodes::MXN => "MXN"@,
            CurrencyCodes::MYR => "MYR"@,
            CurrencyCodes::NZD => "NZD"@,
            CurrencyCodes::PHP => "PHP"@,
            CurrencyCodes::SGD => "SGD"@,
        }
    }

    /// All currencies, in the order in which they are offered.
    pub open spec fn spec_all() -> Seq<CurrencyCodes> {
        seq![
            CurrencyCodes::USD,
            CurrencyCodes::EUR,
            CurrencyCodes::JPY,
            CurrencyCodes::BGN,
            CurrencyCodes::BTC,
            CurrencyCodes::CZK,
            CurrencyCodes::DKK,
            CurrencyCodes::GBP,
            CurrencyCodes::SEK,
            CurrencyCodes::CHF,
            CurrencyCodes::AUD,
            CurrencyCodes::BRL,
            CurrencyCodes::CAD,
            CurrencyCodes::CNY,
            CurrencyCodes::HKD,
            CurrencyCodes::INR,
            CurrencyCodes::KRW,
            CurrencyCodes::MXN,
            CurrencyCodes::MYR,
            CurrencyCodes::NZD,
            CurrencyCodes::PHP,
            CurrencyCodes::SGD,
        ]
    }

    /// The three letters of the currency.
    pub fn code(&self) -> (code: String)
        ensures
            code@ == self.spec_code(),
    {
        match self {
            CurrencyCodes::USD => "USD".to_owned(),
            CurrencyCodes::EUR => "EUR".to_owned(),
            CurrencyCodes::JPY => "JPY".to_owned(),
            CurrencyCodes::BGN => "BGN".to_owned(),
            CurrencyCodes::BTC => "BTC".to_owned(),
            CurrencyCodes::CZK => "CZK".to_owned(),
            CurrencyCodes::DKK => "DKK".to_owned(),
            CurrencyCodes::GBP => "GBP".to_owned(),
            CurrencyCodes::SEK => "SEK".to_owned(),
            CurrencyCodes::CHF => "CHF".to_owned(),
            CurrencyCodes::AUD => "AUD".to_owned(),
            CurrencyCodes::BRL => "BRL".to_owned(),
            CurrencyCodes::CAD => "CAD".to_owned(),
            CurrencyCodes::CNY => "CNY".to_owned(),
            CurrencyCodes::HKD => "HKD".to_owned(),
            CurrencyCodes::INR => "INR".to_owned(),
            CurrencyCodes::KRW => "KRW".to_owned(),
            CurrencyCodes::MXN => "MXN".to_owned(),
            CurrencyCodes::MYR => "MYR".to_owned(),
            CurrencyCodes::NZD => "NZD".to_owned(),
            CurrencyCodes::PHP => "PHP".to_owned(),
            CurrencyCodes::SGD => "SGD".to_owned(),
        }
    }

    /// All currencies, in the order in which they are offered.
    pub fn all() -> (codes: Vec<CurrencyCodes>)
        ensures
            codes@ == CurrencyCodes::spec_all(),
    {
        let mut codes: Vec<CurrencyCodes> = Vec::new();
        codes.push(CurrencyCodes::USD);
        codes.push(CurrencyCodes::EUR);
        codes.push(CurrencyCodes::JPY);
        codes.push(CurrencyCodes::BGN);
        codes.push(CurrencyCodes::BTC);
        codes.push(CurrencyCodes::CZK);
        codes.push(CurrencyCodes::DKK);
        codes.push(CurrencyCodes::GBP);
        codes.push(CurrencyCodes::SEK);
        codes.push(CurrencyCodes::CHF);
        codes.push(CurrencyCodes::AUD);
        codes.push(CurrencyCodes::BRL);
        codes.push(CurrencyCodes::CAD);
        codes.push(CurrencyCodes::CNY);
        codes.push(CurrencyCodes::HKD);
        codes.push(CurrencyCodes::INR);
        codes.push(CurrencyCodes::KRW);
        codes.push(CurrencyCodes::MXN);
        codes.push(CurrencyCodes::MYR);
        codes.push(CurrencyCodes::NZD);
        codes.push(CurrencyCodes::PHP);
        codes.push(CurrencyCodes::SGD);
        assert(codes@ =~= CurrencyCodes::spec_all());
        codes
    }
}

/// The choice that offers a currency: its code as name and as value.
pub open spec fn currency_choice(currency: CurrencyCodes) -> ChoiceView {
    ChoiceView { name: currency.spec_code(), value: currency.spec_code() }
}

/// The choices of the options that take a currency: one for each currency.
pub open spec fn currency_choices() -> Seq<ChoiceView> {
    CurrencyCodes::spec_all().map_values(|currency: CurrencyCodes| currency_choice(currency))
}

/// The choices of the option that takes yes or no.
pub open spec fn true_false_choices() -> Seq<ChoiceView> {
    seq![
        ChoiceView { name: "True"@, value: "True"@ },
        ChoiceView { name: "False"@, value: "False"@ },
    ]
}

/// An option that takes text, is not required and suggests nothing.
pub open spec fn text_option(
    name: Seq<char>,
    description: Seq<char>,
    choices: Option<Seq<ChoiceView>>,
) -> CommandOptionView {
    CommandOptionView {
        name,
        description,
        ty: ApplicationCommandOptionType::String,
        choices,
        autocomplete: Some(false),
        required: Some(false),
    }
}

/// The options that the command declares.
pub open spec fn xe_options() -> Seq<CommandOptionView> {
    seq![
        text_option(
            "from"@,
            "The currency to convert from (Default AUD)"@,
            Some(currency_choices()),
        ),
        text_option("to"@, "The currency to convert to (Default JPY)"@, Some(currency_choices())),
        text_option("amount"@, "The amount of the currency (Number)"@, None),
        text_option(
            "precision"@,
            "Precision of the decimal points (u8, max 12, default: 4)"@,
            None,
        ),
        text_option(
            "timeseries"@,
            "Get a timeseries graph of historical data (format: YYYY-MM-DD_YYYY_MM_DD)"@,
            None,
        ),
        text_option(
            "set_defaults"@,
            "Set the default currencies for this user"@,
            Some(true_false_choices()),
        ),
    ]
}

/// The value that a list of options gives to `name`: that of the last
/// option of this name, and the empty text where that option has no value.
pub open spec fn option_value(options: Seq<DataOptionView>, name: Seq<char>) -> Option<Seq<char>>
    decreases options.len(),
{
    if options.len() == 0 {
        None
    } else if options.last().name == name {
        Some(
            match options.last().value {
                Some(value) => value,
                None => Seq::empty(),
            },
        )
    } else {
        option_value(options.drop_last(), name)
    }
}

/// Whether the option that sets defaults says yes: `None` where it is not
/// given, and else whether its value holds `True`.
pub open spec fn set_default_flag(options: Seq<DataOptionView>) -> Option<bool> {
    match option_value(options, "set_defaults"@) {
        Some(value) => Some(spec_contains(value, "True"@)),
        None => None,
    }
}

/// The options of a currency request that a list of options comes to.
pub open spec fn read_xe_options(options: Seq<DataOptionView>) -> XEOptionsView {
    XEOptionsView {
        set_default: set_default_flag(options),
        from: option_value(options, "from"@),
        to: option_value(options, "to"@),
        amount: option_value(options, "amount"@),
        precision: option_value(options, "precision"@),
        timeseries: option_value(options, "timeseries"@),
    }
}

/// What a request with the given options is about. Setting defaults comes
/// before a series, and a series before a conversion.
pub open spec fn spec_mode(set_default: Option<bool>, timeseries: Option<Seq<char>>) -> ExchangeMode {
    if set_default == Some(true) {
        ExchangeMode::SetDefaults
    } else if timeseries is Some {
        ExchangeMode::Timeseries
    } else {
        ExchangeMode::Rate
    }
}

/// The answer that holds one embed and nothing else.
pub open spec fn embed_answer(embed: EmbedView) -> CallbackDataView {
    CallbackDataView { content: None, choices: None, embeds: Some(seq![embed]) }
}

/// Looks up the value of the last option named `name`.
fn find_option(options: &Vec<ApplicationCommandInteractionDataOption>, name: &str) -> (value: Option<
    String,
>)
    ensures
        opt_text(value) == option_value(
            opt_data_option_views(Some(*options)),
            name@,
        ),
{
    let ghost views = opt_data_option_views(Some(*options));
    let mut value: Option<String> = None;
    let mut at: usize = 0;
    assert(views.take(0) =~= Seq::<DataOptionView>::empty());
    while at < options.len()
        invariant
            at <= options.len(),
            views == opt_data_option_views(Some(*options)),
            opt_text(value) == option_value(views.take(at as int), name@),
        decreases options.len() - at,
    {
        proof {
            let longer = views.take(at + 1);
            assert(longer.drop_last() =~= views.take(at as int));
            assert(longer.last() == options@[at as int]@);
        }
        if same_text(options[at].name.as_str(), name) {
            value = Some(
                match &options[at].value {
                    Some(text) => text.clone(),
                    None => String::new(),
                },
            );
        }
        at += 1;
    }
    assert(views.take(options.len() as int) =~= views);
    value
}

/// An option that takes text, is not required and suggests nothing.
fn make_text_option(
    name: &str,
    description: &str,
    choices: Option<Vec<ApplicationCommandOptionChoice>>,
) -> (option: ApplicationCommandOption)
    ensures
        option@ == text_option(
            name@,
            description@,
            match choices {
                Some(list) => Some(choice_views(list@)),
                None => None,
            },
        ),
{
    ApplicationCommandOption {
        name: name.to_owned(),
        description: description.to_owned(),
        ty: ApplicationCommandOptionType::String,
        choices,
        autocomplete: Some(false),
        required: Some(false),
    }
}

/// One choice for each currency.
fn make_currency_choices() -> (choices: Vec<ApplicationCommandOptionChoice>)
    ensures
        choice_views(choices@) == currency_choices(),
{
    let codes = CurrencyCodes::all();
    let mut choices: Vec<ApplicationCommandOptionChoice> = Vec::new();
    let mut at: usize = 0;
    while at < codes.len()
        invariant
            at <= codes.len(),
            choices.len() == at,
            forall|i: int| 0 <= i < at ==> (#[trigger] choices@[i])@ == currency_choice(codes@[i]),
        decreases codes.len() - at,
    {
        choices.push(
            ApplicationCommandOptionChoice { name: codes[at].code(), value: codes[at].code() },
        );
        at += 1;
    }
    assert(choice_views(choices@) =~= currency_choices());
    choices
}

impl XE {
    /// Reads the options of a currency request from the options of an
    /// interaction. Of several options of one name the last counts.
    pub fn read_options(&self, options: &Option<Vec<ApplicationCommandInteractionDataOption>>) -> (read:
        XEOptions)
        ensures
            read@ == read_xe_options(opt_data_option_views(*options)),
    {
        match options {
            Some(list) => {
                let set_default = match find_option(list, "set_defaults") {
                    Some(value) => Some(contains(value.as_str(), "True")),
                    None => None,
                };
                XEOptions {
                    set_default,
                    from: find_option(list, "from"),
                    to: find_option(list, "to"),
                    amount: find_option(list, "amount"),
                    precision: find_option(list, "precision"),
                    timeseries: find_option(list, "timeseries"),
                }
            },
            None => XEOptions {
                set_default: None,
                from: None,
                to: None,
                amount: None,
                precision: None,
                timeseries: None,
            },
        }
    }

    /// What a request with the given options is about.
    pub fn mode(&self, options: &XEOptions) -> (mode: ExchangeMode)
        ensures
            mode == spec_mode(options@.set_default, options@.timeseries),
    {
        let setting = match options.set_default {
            Some(flag) => flag,
            None => false,
        };
        if setting {
            ExchangeMode::SetDefaults
        } else if options.timeseries.is_some() {
            ExchangeMode::Timeseries
        } else {
            ExchangeMode::Rate
        }
    }

    /// The name of the user who sent the interaction, if it names a member.
    pub fn username(&self, member: &Option<Member>) -> (name: Option<String>)
        ensures
            match member {
                Some(sender) => name is Some && name->0@ == sender.user.username@,
                None => name is None,
            },
    {
        match member {
            Some(sender) => Some(sender.user.username.clone()),
            None => None,
        }
    }

    /// The answer to a request that set the defaults.
    pub fn defaults_updated(&self) -> (data: InteractionApplicationCommandCallbackData)
        ensures
            data@ == embed_answer(
                plain_embed("Exchange Rate"@, "Defaults have been updated"@, EXCHANGE_COLOR),
            ),
    {
        self.respond(
            Embed::plain(
                "Exchange Rate".to_owned(),
                "Defaults have been updated".to_owned(),
                EXCHANGE_COLOR,
            ),
        )
    }

    /// The answer to a request that failed, be it that a lookup ended in
    /// `Fail` or that a preference could not be written: a failure without
    /// detail, whichever of the two it was. Nothing of a rate or a series is
    /// shown with it.
    pub fn failed(&self, error: ExchangeError) -> (answer: InteractionError)
        ensures
            answer@ == InteractionErrorView::GenericError,
    {
        match error {
            ExchangeError::StoreUnavailable => InteractionError::GenericError(),
            ExchangeError::UpstreamFailure => InteractionError::GenericError(),
        }
    }

    /// The answer that shows `embed`.
    pub fn respond(&self, embed: Embed) -> (data: InteractionApplicationCommandCallbackData)
        ensures
            data@ == embed_answer(embed@),
    {
        let mut embeds: Vec<Embed> = Vec::new();
        embeds.push(embed);
        assert(embed_views(embeds@) =~= seq![embed@]);
        InteractionApplicationCommandCallbackData { content: None, choices: None, embeds: Some(embeds) }
    }

    /// The name of the command.
    pub fn name(&self) -> (name: String)
        ensures
            name@ == "xe"@,
    {
        "xe".to_owned()
    }

    /// What the command does, in a sentence.
    pub fn description(&self) -> (description: String)
        ensures
            description@ == "Convert from one currency to another"@,
    {
        "Convert from one currency to another".to_owned()
    }

    /// The options that the command declares.
    pub fn options(&self) -> (options: Option<Vec<ApplicationCommandOption>>)
        ensures
            options is Some,
            command_option_views(options->0@) == xe_options(),
    {
        let mut yes_no: Vec<ApplicationCommandOptionChoice> = Vec::new();
        yes_no.push(
            ApplicationCommandOptionChoice { name: "True".to_owned(), value: "True".to_owned() },
        );
        yes_no.push(
            ApplicationCommandOptionChoice { name: "False".to_owned(), value: "False".to_owned() },
        );
        assert(choice_views(yes_no@) =~= true_false_choices());
        let mut list: Vec<ApplicationCommandOption> = Vec::new();
        list.push(
            make_text_option(
                "from",
                "The currency to convert from (Default AUD)",
                Some(make_currency_choices()),
            ),
        );
        list.push(
            make_text_option(
                "to",
                "The currency to convert to (Default JPY)",
                Some(make_currency_choices()),
            ),
        );
        list.push(make_text_option("amount", "The amount of the currency (Number)", None));
        list.push(
            make_text_option(
                "precision",
                "Precision of the decimal points (u8, max 12, default: 4)",
                None,
            ),
        );
        list.push(
            make_text_option(
                "timeseries",
                "Get a timeseries graph of historical data (format: YYYY-MM-DD_YYYY_MM_DD)",
                None,
            ),
        );
        list.push(
            make_text_option(
                "set_defaults",
                "Set the default currencies for this user",
                Some(yes_no),
            ),
        );
        assert(command_option_views(list@) =~= xe_options());
        Some(list)
    }

    /// The command suggests nothing while the user types.
    pub fn autocomplete(&self, options: &Option<Vec<ApplicationCommandInteractionDataOption>>) -> (data:
        InteractionApplicationCommandCallbackData)
        ensures
            data@ == (CallbackDataView { content: None, choices: None, embeds: None }),
    {
        InteractionApplicationCommandCallbackData { content: None, choices: None, embeds: None }
    }
}

} // verus!
