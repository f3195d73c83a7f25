//! The dictionary command.

use crate::embed::{embed_views, Embed};
use crate::helpers::jisho_client::{search_embed, JishoClient};
use crate::interaction::{
    command_option_views, opt_data_option_views, ApplicationCommandInteractionDataOption,
    ApplicationCommandOption, ApplicationCommandOptionType, CallbackDataView, CommandOptionView,
    DataOptionView, InteractionApplicationCommandCallbackData,
};
use crate::text::opt_text;
use vstd::prelude::*;

verus! {

/// The command that looks a word up in the dictionary.
pub struct Jisho {}

/// The word that is looked up: the value of the first option. Without an
/// option, or with one that has no value, there is no word.
pub open spec fn searched_word(options: Seq<DataOptionView>) -> Option<Seq<char>> {
    if options.len() > 0 {
        options[0].value
    } else {
        None
    }
}

/// The options that the command declares.
pub open spec fn jisho_options() -> Seq<CommandOptionView> {
    seq![
        CommandOptionView {
            name: "word"@,
            description: "The word you want to jisho"@,
            ty: ApplicationCommandOptionType::String,
            choices: None,
            autocomplete: Some(false),
            required: Some(true),
        },
    ]
}

impl Jisho {
    /// The word that the options ask for, if they name one.
    pub fn word(&self, options: &Option<Vec<ApplicationCommandInteractionDataOption>>) -> (word:
        Option<String>)
        ensures
            opt_text(word) == searched_word(opt_data_option_views(*options)),
    {
        match options {
            Some(list) => {
                if list.len() > 0 {
                    assert(opt_data_option_views(*options)[0] == list@[0]@);
                    match &list[0].value {
                        Some(word) => Some(word.clone()),
                        None => None,
                    }
                } else {
                    None
                }
            },
            None => None,
        }
    }

    /// Answers with the embed of a search that the dictionary service has
    /// answered.
    pub fn respond(&self, client: &JishoClient) -> (data: InteractionApplicationCommandCallbackData)
        ensures
            data@ == (CallbackDataView {
                content: None,
                choices: None,
                embeds: Some(seq![search_embed(*client)]),
            }),
    {
        let mut embeds: Vec<Embed> = Vec::new();
        embeds.push(client.construct_embed());
        assert(embed_views(embeds@) =~= seq![search_embed(*client)]);
        InteractionApplicationCommandCallbackData { content: None, choices: None, embeds: Some(embeds) }
    }

    /// The name of the command.
    pub fn name(&self) -> (name: String)
        ensures
            name@ == "jisho"@,
    {
        "jisho".to_owned()
    }

    /// What the command does, in a sentence.
    pub fn description(&self) -> (description: String)
        ensures
            description@ == "Jisho a word!"@,
    {
        "Jisho a word!".to_owned()
    }

    /// The options that the command declares.
    pub fn options(&self) -> (options: Option<Vec<ApplicationCommandOption>>)
        ensures
            options is Some,
            command_option_views(options->0@) == jisho_options(),
    {
        let mut list: Vec<ApplicationCommandOption> = Vec::new();
        list.push(
            ApplicationCommandOption {
                name: "word".to_owned(),
                description: "The word you want to jisho".to_owned(),
                ty: ApplicationCommandOptionType::String,
                choices: None,
                autocomplete: Some(false),
                required: Some(true),
            },
        );
        assert(command_option_views(list@) =~= jisho_options());
        Some(list)
    }

    /// The command suggests nothing while the user types.
    pub fn autocomplete(&self, options: &Option<Vec<ApplicationCommandInteractionDataOption>>) -> (data:
        InteractionApplicationCommandCallbackData)
        ensures
            data@ == (CallbackDataView { content: None, choices: None, embeds: None }),
    {
        InteractionApplicationCommandCallbackData { content: None, choices: None, embeds: None }
    }
}

} // verus!
