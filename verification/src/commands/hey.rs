//! The greeting command.

use crate::interaction::{
    choice_views, command_option_views, opt_data_option_views, ApplicationCommandInteractionDataOption,
    ApplicationCommandOption, ApplicationCommandOptionChoice, ApplicationCommandOptionType,
    CallbackDataView, ChoiceView, CommandOptionView, DataOptionView,
    InteractionApplicationCommandCallbackData,
};
use vstd::prelude::*;

verus! {

/// The command that says hey.
pub struct Hey {}

/// Who is greeted: the value of the first option, or `Someone` where there
/// is no option or it has no value.
pub open spec fn greeted_name(options: Seq<DataOptionView>) -> Seq<char> {
    if options.len() > 0 && options[0].value is Some {
        options[0].value->0
    } else {
        "Someone"@
    }
}

/// The greeting for the given options.
pub open spec fn greeting(options: Seq<DataOptionView>) -> Seq<char> {
    "Hey, "@ + greeted_name(options) + "!"@
}

/// The options that the command declares.
pub open spec fn hey_options() -> Seq<CommandOptionView> {
    seq![
        CommandOptionView {
            name: "name"@,
            description: "The user you want to say hey to"@,
            ty: ApplicationCommandOptionType::String,
            choices: None,
            autocomplete: Some(true),
            required: Some(true),
        },
    ]
}

/// The names that the command suggests.
pub open spec fn hey_choices() -> Seq<ChoiceView> {
    seq![
        ChoiceView { name: "loki"@, value: "Loki"@ },
        ChoiceView { name: "icecream"@, value: "IceCream"@ },
        ChoiceView { name: "yoroshi"@, value: "Yoroshi"@ },
    ]
}

impl Hey {
    /// Greets the user named by the first option.
    pub fn respond(&self, options: &Option<Vec<ApplicationCommandInteractionDataOption>>) -> (data:
        InteractionApplicationCommandCallbackData)
        ensures
            data@ == (CallbackDataView {
                content: Some(greeting(opt_data_option_views(*options))),
                choices: None,
                embeds: None,
            }),
    {
        let mut content = "Hey, ".to_owned();
        let mut named = false;
        match options {
            Some(list) => {
                if list.len() > 0 {
                    assert(opt_data_option_views(*options)[0] == list@[0]@);
                    match &list[0].value {
                        Some(name) => {
                            content.append(name.as_str());
                            named = true;
                        },
                        None => {},
                    }
                }
            },
            None => {},
        }
        if !named {
            content.append("Someone");
        }
        content.append("!");
        InteractionApplicationCommandCallbackData { content: Some(content), choices: None, embeds: None }
    }

    /// The name of the command.
    pub fn name(&self) -> (name: String)
        ensures
            name@ == "hey"@,
    {
        "hey".to_owned()
    }

    /// What the command does, in a sentence.
    pub fn description(&self) -> (description: String)
        ensures
            description@ == "Say Hey to the user!"@,
    {
        "Say Hey to the user!".to_owned()
    }

    /// The options that the command declares.
    pub fn options(&self) -> (options: Option<Vec<ApplicationCommandOption>>)
        ensures
            options is Some,
            command_option_views(options->0@) == hey_options(),
    {
        let mut list: Vec<ApplicationCommandOption> = Vec::new();
        list.push(
            ApplicationCommandOption {
                name: "name".to_owned(),
                description: "The user you want to say hey to".to_owned(),
                ty: ApplicationCommandOptionType::String,
                choices: None,
                autocomplete: Some(true),
                required: Some(true),
            },
        );
        assert(command_option_views(list@) =~= hey_options());
        Some(list)
    }

    /// The names that the command suggests while the user types.
    pub fn autocomplete(&self, options: &Option<Vec<ApplicationCommandInteractionDataOption>>) -> (data:
        InteractionApplicationCommandCallbackData)
        ensures
            data@ == (CallbackDataView {
                content: None,
                choices: Some(hey_choices()),
                embeds: None,
            }),
    {
        let mut choices: Vec<ApplicationCommandOptionChoice> = Vec::new();
        choices.push(
            ApplicationCommandOptionChoice { name: "loki".to_owned(), value: "Loki".to_owned() },
        );
        choices.push(
            ApplicationCommandOptionChoice {
                name: "icecream".to_owned(),
                value: "IceCream".to_owned(),
            },
        );
        choices.push(
            ApplicationCommandOptionChoice {
                name: "yoroshi".to_owned(),
                value: "Yoroshi".to_owned(),
            },
        );
        assert(choice_views(choices@) =~= hey_choices());
        InteractionApplicationCommandCallbackData {
            content: None,
            choices: Some(choices),
            embeds: None,
        }
    }
}

} // verus!
