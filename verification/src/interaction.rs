//! Interactions as the chat platform sends them, the responses that go back,
//! and the routing of an interaction to the command that answers it.

use crate::command::{command_named, find_command, registry, CommandKind};
use crate::embed::{embed_views, Embed, EmbedView};
use crate::error::{Error, ErrorView, InteractionError, InteractionErrorView};
use crate::text::opt_text;
use vstd::prelude::*;

verus! {

/// What kind of interaction came in.
#[derive(Clone, Copy, Debug, PartialEq, Eq, Structural)]
pub enum InteractionType {
    Ping,
    ApplicationCommand,
    MessageComponent,
    ApplicationCommandAutoComplete,
    ModalSubmit,
}

/// What kind of response goes back.
#[derive(Clone, Copy, Debug, PartialEq, Eq, Structural)]
pub enum InteractionResponseType {
    Pong,
    ChannelMessageWithSource,
    ACKWithSource,
    AutoCompleteResult,
}

/// The type of a command option.
#[derive(Clone, Copy, Debug, PartialEq, Eq, Structural)]
pub enum ApplicationCommandOptionType {
    SubCommand,
    SubCommandGroup,
    String,
    Boolean,
}

impl InteractionType {
    /// The number that stands for this kind on the wire.
    pub open spec fn spec_code(self) -> u8 {
        match self {
            InteractionType::Ping => 1,
            InteractionType::ApplicationCommand => 2,
            InteractionType::MessageComponent => 3,
            InteractionType::ApplicationCommandAutoComplete => 4,
            InteractionType::ModalSubmit => 5,
        }
    }

    /// The number that stands for this kind on the wire.
    #[verifier::when_used_as_spec(spec_code)]
    pub fn code(self) -> (code: u8)
        ensures
            code == self.spec_code(),
    {
        match self {
            InteractionType::Ping => 1,
            InteractionType::ApplicationCommand => 2,
            InteractionType::MessageComponent => 3,
            InteractionType::ApplicationCommandAutoComplete => 4,
            InteractionType::ModalSubmit => 5,
        }
    }

    /// The kind that `code` stands for, if any.
    pub open spec fn spec_from_code(code: u8) -> Option<InteractionType> {
        if code == 1 {
            Some(InteractionType::Ping)
        } else if code == 2 {
            Some(InteractionType::ApplicationCommand)
        } else if code == 3 {
            Some(InteractionType::MessageComponent)
        } else if code == 4 {
            Some(InteractionType::ApplicationCommandAutoComplete)
        } else if code == 5 {
            Some(InteractionType::ModalSubmit)
        } else {
            None
        }
    }

    /// The kind that `code` stands for, if any.
    #[verifier::when_used_as_spec(spec_from_code)]
    pub fn from_code(code: u8) -> (kind: Option<InteractionType>)
        ensures
            kind == InteractionType::spec_from_code(code),
            kind matches Some(found) ==> found.spec_code() == code,
    {
        if code == 1 {
            Some(InteractionType::Ping)
        } else if code == 2 {
            Some(InteractionType::ApplicationCommand)
        } else if code == 3 {
            Some(InteractionType::MessageComponent)
        } else if code == 4 {
            Some(InteractionType::ApplicationCommandAutoComplete)
        } else if code == 5 {
            Some(InteractionType::ModalSubmit)
        } else {
            None
        }
    }
}

impl InteractionResponseType {
    /// The number that stands for this kind on the wire.
    pub open spec fn spec_code(self) -> u8 {
        match self {
            InteractionResponseType::Pong => 1,
            InteractionResponseType::ChannelMessageWithSource => 4,
            InteractionResponseType::ACKWithSource => 5,
            InteractionResponseType::AutoCompleteResult => 8,
        }
    }

    /// The number that stands for this kind on the wire.
    #[verifier::when_used_as_spec(spec_code)]
    pub fn code(self) -> (code: u8)
        ensures
            code == self.spec_code(),
    {
        match self {
            InteractionResponseType::Pong => 1,
            InteractionResponseType::ChannelMessageWithSource => 4,
            InteractionResponseType::ACKWithSource => 5,
            InteractionResponseType::AutoCompleteResult => 8,
        }
    }

    /// The kind that `code` stands for, if any.
    pub open spec fn spec_from_code(code: u8) -> Option<InteractionResponseType> {
        if code == 1 {
            Some(InteractionResponseType::Pong)
        } else if code == 4 {
            Some(InteractionResponseType::ChannelMessageWithSource)
        } else if code == 5 {
            Some(InteractionResponseType::ACKWithSource)
        } else if code == 8 {
            Some(InteractionResponseType::AutoCompleteResult)
        } else {
            None
        }
    }

    /// The kind that `code` stands for, if any.
    #[verifier::when_used_as_spec(spec_from_code)]
    pub fn from_code(code: u8) -> (kind: Option<InteractionResponseType>)
        ensures
            kind == InteractionResponseType::spec_from_code(code),
            kind matches Some(found) ==> found.spec_code() == code,
    {
        if code == 1 {
            Some(InteractionResponseType::Pong)
        } else if code == 4 {
            Some(InteractionResponseType::ChannelMessageWithSource)
        } else if code == 5 {
            Some(InteractionResponseType::ACKWithSource)
        } else if code == 8 {
            Some(InteractionResponseType::AutoCompleteResult)
        } else {
            None
        }
    }
}

impl ApplicationCommandOptionType {
    /// The number that stands for this type on the wire.
    pub open spec fn spec_code(self) -> u8 {
        match self {
            ApplicationCommandOptionType::SubCommand => 1,
            ApplicationCommandOptionType::SubCommandGroup => 2,
            ApplicationCommandOptionType::String => 3,
            ApplicationCommandOptionType::Boolean => 5,
        }
    }

    /// The number that stands for this type on the wire.
    #[verifier::when_used_as_spec(spec_code)]
    pub fn code(self) -> (code: u8)
        ensures
            code == self.spec_code(),
    {
        match self {
            ApplicationCommandOptionType::SubCommand => 1,
            ApplicationCommandOptionType::SubCommandGroup => 2,
            ApplicationCommandOptionType::String => 3,
            ApplicationCommandOptionType::Boolean => 5,
        }
    }

    /// The type that `code` stands for, if any.
    pub open spec fn spec_from_code(code: u8) -> Option<ApplicationCommandOptionType> {
        if code == 1 {
            Some(ApplicationCommandOptionType::SubCommand)
        } else if code == 2 {
            Some(ApplicationCommandOptionType::SubCommandGroup)
        } else if code == 3 {
            Some(ApplicationCommandOptionType::String)
        } else if code == 5 {
            Some(ApplicationCommandOptionType::Boolean)
        } else {
            None
        }
    }

    /// The type that `code` stands for, if any.
    #[verifier::when_used_as_spec(spec_from_code)]
    pub fn from_code(code: u8) -> (kind: Option<ApplicationCommandOptionType>)
        ensures
            kind == ApplicationCommandOptionType::spec_from_code(code),
            kind matches Some(found) ==> found.spec_code() == code,
    {
        if code == 1 {
            Some(ApplicationCommandOptionType::SubCommand)
        } else if code == 2 {
            Some(ApplicationCommandOptionType::SubCommandGroup)
        } else if code == 3 {
            Some(ApplicationCommandOptionType::String)
        } else if code == 5 {
            Some(ApplicationCommandOptionType::Boolean)
        } else {
            None
        }
    }
}

/// One option as the user filled it in.
#[derive(Clone, Debug, PartialEq, Eq)]
pub struct ApplicationCommandInteractionDataOption {
    pub name: String,
    pub ty: ApplicationCommandOptionType,
    pub value: Option<String>,
    pub focused: Option<bool>,
}

/// The command that an interaction calls, with its options.
#[derive(Clone, Debug, PartialEq, Eq)]
pub struct ApplicationCommandInteractionData {
    pub name: String,
    pub options: Option<Vec<ApplicationCommandInteractionDataOption>>,
}

/// One of the values that an option offers.
#[derive(Clone, Debug, PartialEq, Eq)]
pub struct ApplicationCommandOptionChoice {
    pub name: String,
    pub value: String,
}

/// An option that a command declares.
#[derive(Clone, Debug, PartialEq, Eq)]
pub struct ApplicationCommandOption {
    pub name: String,
    pub description: String,
    pub ty: ApplicationCommandOptionType,
    pub choices: Option<Vec<ApplicationCommandOptionChoice>>,
    pub autocomplete: Option<bool>,
    pub required: Option<bool>,
}

/// What a command answers with.
#[derive(Clone, Debug, PartialEq, Eq)]
pub struct InteractionApplicationCommandCallbackData {
    pub content: Option<String>,
    pub choices: Option<Vec<ApplicationCommandOptionChoice>>,
    pub embeds: Option<Vec<Embed>>,
}

/// A user of the chat platform.
#[derive(Clone, Debug, PartialEq, Eq)]
pub struct User {
    pub avatar: String,
    pub avatar_decoration: Option<String>,
    pub discriminator: String,
    pub id: String,
    pub public_flags: u32,
    pub username: String,
}

/// A user as a member of a guild.
#[derive(Clone, Debug, PartialEq, Eq)]
pub struct Member {
    pub user: User,
    pub roles: Vec<String>,
    pub premium_since: Option<String>,
    pub permissions: String,
    pub pending: bool,
    pub nick: Option<String>,
    pub mute: bool,
    pub joined_at: String,
    pub is_pending: bool,
    pub deaf: bool,
}

/// One inbound command invocation.
#[derive(Clone, Debug, PartialEq, Eq)]
pub struct Interaction {
    pub id: Option<String>,
    pub ty: InteractionType,
    pub data: Option<ApplicationCommandInteractionData>,
    pub token: String,
    pub guild_id: Option<String>,
    pub channel_id: Option<String>,
    pub application_id: Option<String>,
    pub member: Option<Member>,
    pub user: Option<User>,
    pub version: Option<u8>,
}

/// The response to an interaction.
#[derive(Clone, Debug, PartialEq, Eq)]
pub struct InteractionResponse {
    pub ty: InteractionResponseType,
    pub data: Option<InteractionApplicationCommandCallbackData>,
}

/// What an option holds as the user filled it in: its name and its value.
pub struct DataOptionView {
    pub name: Seq<char>,
    pub ty: ApplicationCommandOptionType,
    pub value: Option<Seq<char>>,
    pub focused: Option<bool>,
}

/// What a choice holds, as mathematical values.
pub struct ChoiceView {
    pub name: Seq<char>,
    pub value: Seq<char>,
}

/// What a declared option holds, as mathematical values.
pub struct CommandOptionView {
    pub name: Seq<char>,
    pub description: Seq<char>,
    pub ty: ApplicationCommandOptionType,
    pub choices: Option<Seq<ChoiceView>>,
    pub autocomplete: Option<bool>,
    pub required: Option<bool>,
}

/// What a command's answer holds, as mathematical values.
pub struct CallbackDataView {
    pub content: Option<Seq<char>>,
    pub choices: Option<Seq<ChoiceView>>,
    pub embeds: Option<Seq<EmbedView>>,
}

/// What a response holds, as mathematical values.
pub struct InteractionResponseView {
    pub ty: InteractionResponseType,
    pub data: Option<CallbackDataView>,
}

impl View for ApplicationCommandInteractionDataOption {
    type V = DataOptionView;

    open spec fn view(&self) -> DataOptionView {
        DataOptionView {
            name: self.name@,
            ty: self.ty,
            value: opt_text(self.value),
            focused: self.focused,
        }
    }
}

impl View for ApplicationCommandOptionChoice {
    type V = ChoiceView;

    open spec fn view(&self) -> ChoiceView {
        ChoiceView { name: self.name@, value: self.value@ }
    }
}

/// The views of a list of choices.
pub open spec fn choice_views(choices: Seq<ApplicationCommandOptionChoice>) -> Seq<ChoiceView> {
    choices.map_values(|choice: ApplicationCommandOptionChoice| choice@)
}

/// The views of an optional list of choices.
pub open spec fn opt_choice_views(choices: Option<Vec<ApplicationCommandOptionChoice>>) -> Option<
    Seq<ChoiceView>,
> {
    match choices {
        Some(list) => Some(choice_views(list@)),
        None => None,
    }
}

/// The views of a list of options as the user filled them in.
pub open spec fn data_option_views(options: Seq<ApplicationCommandInteractionDataOption>) -> Seq<
    DataOptionView,
> {
    options.map_values(|option: ApplicationCommandInteractionDataOption| option@)
}

/// The views of the options of an interaction; none where it carries no list.
pub open spec fn opt_data_option_views(
    options: Option<Vec<ApplicationCommandInteractionDataOption>>,
) -> Seq<DataOptionView> {
    match options {
        Some(list) => data_option_views(list@),
        None => Seq::empty(),
    }
}

impl View for ApplicationCommandOption {
    type V = CommandOptionView;

    open spec fn view(&self) -> CommandOptionView {
        CommandOptionView {
            name: self.name@,
            description: self.description@,
            ty: self.ty,
            choices: opt_choice_views(self.choices),
            autocomplete: self.autocomplete,
            required: self.required,
        }
    }
}

/// The views of a list of declared options.
pub open spec fn command_option_views(options: Seq<ApplicationCommandOption>) -> Seq<
    CommandOptionView,
> {
    options.map_values(|option: ApplicationCommandOption| option@)
}

impl View for InteractionApplicationCommandCallbackData {
    type V = CallbackDataView;

    open spec fn view(&self) -> CallbackDataView {
        CallbackDataView {
            content: opt_text(self.content),
            choices: opt_choice_views(self.choices),
            embeds: match self.embeds {
                Some(list) => Some(embed_views(list@)),
                None => None,
            },
        }
    }
}

impl View for InteractionResponse {
    type V = InteractionResponseView;

    open spec fn view(&self) -> InteractionResponseView {
        InteractionResponseView {
            ty: self.ty,
            data: match self.data {
                Some(data) => Some(data@),
                None => None,
            },
        }
    }
}

/// What the dispatcher does with an interaction.
#[derive(Clone, Debug, PartialEq, Eq)]
pub enum Dispatch {
    /// The response is ready.
    Respond(InteractionResponse),
    /// The command is to be run. Its answer makes the response.
    Run(CommandKind),
}

/// What a `Dispatch` holds, as mathematical values.
pub enum DispatchView {
    Respond(InteractionResponseView),
    Run(CommandKind),
}

impl View for Dispatch {
    type V = DispatchView;

    open spec fn view(&self) -> DispatchView {
        match self {
            Dispatch::Respond(response) => DispatchView::Respond(response@),
            Dispatch::Run(command) => DispatchView::Run(*command),
        }
    }
}

/// The response to a ping.
pub open spec fn pong() -> InteractionResponseView {
    InteractionResponseView { ty: InteractionResponseType::Pong, data: None }
}

/// The command that an interaction calls. An interaction without data
/// calls none, and a name that no command goes by is reported.
pub open spec fn called_command(interaction: Interaction) -> Result<
    CommandKind,
    InteractionErrorView,
> {
    match interaction.data {
        Some(data) => match command_named(registry(), data.name@) {
            Some(command) => Ok(command),
            None => Err(InteractionErrorView::UnknownCommand(data.name@)),
        },
        None => Err(InteractionErrorView::GenericError),
    }
}

/// The suggestions for an interaction: those of the command that it calls.
pub open spec fn suggestions(interaction: Interaction) -> Result<
    InteractionResponseView,
    InteractionErrorView,
> {
    match called_command(interaction) {
        Ok(command) => Ok(
            InteractionResponseView {
                ty: InteractionResponseType::AutoCompleteResult,
                data: Some(command.spec_autocomplete()),
            },
        ),
        Err(error) => Err(error),
    }
}

/// What the dispatcher does with an interaction: a ping is answered at
/// once, a command is run, suggestions are made at once, and nothing else
/// is offered.
pub open spec fn dispatched(interaction: Interaction) -> Result<DispatchView, ErrorView> {
    match interaction.ty {
        InteractionType::Ping => Ok(DispatchView::Respond(pong())),
        InteractionType::ApplicationCommand => match called_command(interaction) {
            Ok(command) => Ok(DispatchView::Run(command)),
            Err(error) => Err(ErrorView::InteractionFailed(error)),
        },
        InteractionType::ApplicationCommandAutoComplete => match suggestions(interaction) {
            Ok(response) => Ok(DispatchView::Respond(response)),
            Err(error) => Err(ErrorView::InteractionFailed(error)),
        },
        _ => Err(ErrorView::InvalidPayload("Not implemented"@)),
    }
}

impl InteractionResponse {
    /// The response that carries the answer of a command.
    pub fn from_command(data: InteractionApplicationCommandCallbackData) -> (response:
        InteractionResponse)
        ensures
            response@ == (InteractionResponseView {
                ty: InteractionResponseType::ChannelMessageWithSource,
                data: Some(data@),
            }),
    {
        InteractionResponse { ty: InteractionResponseType::ChannelMessageWithSource, data: Some(data) }
    }
}

impl Interaction {
    /// The data of the interaction, which a command needs to be called.
    pub fn data(&self) -> (data: Result<&ApplicationCommandInteractionData, Error>)
        ensures
            match data {
                Ok(found) => self.data == Some(*found),
                Err(error) => self.data is None && error@ == ErrorView::InvalidPayload(
                    "data not found"@,
                ),
            },
    {
        match &self.data {
            Some(found) => Ok(found),
            None => Err(Error::InvalidPayload("data not found".to_owned())),
        }
    }

    /// The response to a ping.
    pub fn handle_ping(&self) -> (response: InteractionResponse)
        ensures
            response@ == pong(),
    {
        InteractionResponse { ty: InteractionResponseType::Pong, data: None }
    }

    /// Finds the command that the interaction calls. The command is then to
    /// be run with the member and the options of the interaction, and its
    /// answer to be sent with `InteractionResponse::from_command`.
    pub fn handle_command(&self) -> (command: Result<CommandKind, InteractionError>)
        ensures
            match command {
                Ok(found) => called_command(*self) == Ok::<CommandKind, InteractionErrorView>(found),
                Err(error) => called_command(*self) == Err::<CommandKind, InteractionErrorView>(
                    error@,
                ),
            },
    {
        let data = match self.data() {
            Ok(data) => data,
            Err(_) => {
                return Err(InteractionError::GenericError());
            },
        };
        match find_command(data.name.as_str()) {
            Some(command) => Ok(command),
            None => Err(InteractionError::UnknownCommand(data.name.clone())),
        }
    }

    /// The suggestions of the command that the interaction calls.
    pub fn handle_autocomplete(&self) -> (response: Result<InteractionResponse, InteractionError>)
        ensures
            match response {
                Ok(found) => suggestions(*self) == Ok::<
                    InteractionResponseView,
                    InteractionErrorView,
                >(found@),
                Err(error) => suggestions(*self) == Err::<
                    InteractionResponseView,
                    InteractionErrorView,
                >(error@),
            },
    {
        let command = match self.handle_command() {
            Ok(command) => command,
            Err(error) => {
                return Err(error);
            },
        };
        let options = match &self.data {
            Some(data) => &data.options,
            None => &None,
        };
        Ok(
            InteractionResponse {
                ty: InteractionResponseType::AutoCompleteResult,
                data: Some(command.autocomplete(options)),
            },
        )
    }

    /// Decides what is done with the interaction.
    pub fn perform(&self) -> (dispatch: Result<Dispatch, Error>)
        ensures
            match dispatch {
                Ok(found) => dispatched(*self) == Ok::<DispatchView, ErrorView>(found@),
                Err(error) => dispatched(*self) == Err::<DispatchView, ErrorView>(error@),
            },
    {
        match self.ty {
            InteractionType::Ping => Ok(Dispatch::Respond(self.handle_ping())),
            InteractionType::ApplicationCommand => match self.handle_command() {
                Ok(command) => Ok(Dispatch::Run(command)),
                Err(error) => Err(Error::InteractionFailed(error)),
            },
            InteractionType::ApplicationCommandAutoComplete => match self.handle_autocomplete() {
                Ok(response) => Ok(Dispatch::Respond(response)),
                Err(error) => Err(Error::InteractionFailed(error)),
            },
            _ => Err(Error::InvalidPayload("Not implemented".to_owned())),
        }
    }
}

} // verus!
