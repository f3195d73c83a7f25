//! The registry of commands: a fixed table that is searched by name.

use crate::commands::hey::{hey_choices, hey_options, Hey};
use crate::commands::jisho::{jisho_options, Jisho};
use crate::commands::xe::{xe_options, XE};
use crate::interaction::{
    command_option_views, ApplicationCommandInteractionDataOption, ApplicationCommandOption,
    CallbackDataView, CommandOptionView, InteractionApplicationCommandCallbackData,
};
use crate::text::same_text;
use vstd::prelude::*;

verus! {

/// One of the commands that the dispatcher knows.
#[derive(Clone, Copy, Debug, PartialEq, Eq, Structural)]
pub enum CommandKind {
    Hey,
    Jisho,
    XE,
}

/// The commands in the order in which they are searched.
pub open spec fn registry() -> Seq<CommandKind> {
    seq![CommandKind::Hey, CommandKind::Jisho, CommandKind::XE]
}

/// The first of `commands` that goes by `name`.
pub open spec fn command_named(commands: Seq<CommandKind>, name: Seq<char>) -> Option<CommandKind>
    decreases commands.len(),
{
    if commands.len() == 0 {
        None
    } else if commands[0].spec_name() == name {
        Some(commands[0])
    } else {
        command_named(commands.drop_first(), name)
    }
}

impl CommandKind {
    /// The name that the command goes by.
    pub open spec fn spec_name(self) -> Seq<char> {
        match self {
            CommandKind::Hey => "hey"@,
            CommandKind::Jisho => "jisho"@,
            CommandKind::XE => "xe"@,
        }
    }

    /// What the command does, in a sentence.
    pub open spec fn spec_description(self) -> Seq<char> {
        match self {
            CommandKind::Hey => "Say Hey to the user!"@,
            CommandKind::Jisho => "Jisho a word!"@,
            CommandKind::XE => "Convert from one currency to another"@,
        }
    }

    /// The options that the command declares.
    pub open spec fn spec_options(self) -> Seq<CommandOptionView> {
        match self {
            CommandKind::Hey => hey_options(),
            CommandKind::Jisho => jisho_options(),
            CommandKind::XE => xe_options(),
        }
    }

    /// What the command suggests while the user types.
    pub open spec fn spec_autocomplete(self) -> CallbackDataView {
        match self {
            CommandKind::Hey => CallbackDataView {
                content: None,
                choices: Some(hey_choices()),
                embeds: None,
            },
            _ => CallbackDataView { content: None, choices: None, embeds: None },
        }
    }

    /// The name that the command goes by.
    pub fn name(&self) -> (name: String)
        ensures
            name@ == self.spec_name(),
    {
        match self {
            CommandKind::Hey => (Hey {}).name(),
            CommandKind::Jisho => (Jisho {}).name(),
            CommandKind::XE => (XE {}).name(),
        }
    }

    /// What the command does, in a sentence.
    pub fn description(&self) -> (description: String)
        ensures
            description@ == self.spec_description(),
    {
        match self {
            CommandKind::Hey => (Hey {}).description(),
            CommandKind::Jisho => (Jisho {}).description(),
            CommandKind::XE => (XE {}).description(),
        }
    }

    /// The options that the command declares.
    pub fn options(&self) -> (options: Option<Vec<ApplicationCommandOption>>)
        ensures
            options is Some,
            command_option_views(options->0@) == self.spec_options(),
    {
        match self {
            CommandKind::Hey => (Hey {}).options(),
            CommandKind::Jisho => (Jisho {}).options(),
            CommandKind::XE => (XE {}).options(),
        }
    }

    /// What the command suggests while the user types.
    pub fn autocomplete(&self, options: &Option<Vec<ApplicationCommandInteractionDataOption>>) -> (data:
        InteractionApplicationCommandCallbackData)
        ensures
            data@ == self.spec_autocomplete(),
    {
        match self {
            CommandKind::Hey => (Hey {}).autocomplete(options),
            CommandKind::Jisho => (Jisho {}).autocomplete(options),
            CommandKind::XE => (XE {}).autocomplete(options),
        }
    }
}

/// The commands in the order in which they are searched.
pub fn init_commands() -> (commands: Vec<CommandKind>)
    ensures
        commands@ == registry(),
{
    let mut commands: Vec<CommandKind> = Vec::new();
    commands.push(CommandKind::Hey);
    commands.push(CommandKind::Jisho);
    commands.push(CommandKind::XE);
    assert(commands@ =~= registry());
    commands
}

/// The command that goes by `name`, if there is one.
pub fn find_command(name: &str) -> (found: Option<CommandKind>)
    ensures
        found == command_named(registry(), name@),
{
    let commands = init_commands();
    let mut at: usize = 0;
    assert(commands@.skip(0) =~= commands@);
    while at < commands.len()
        invariant
            at <= commands.len(),
            commands@ == registry(),
            command_named(registry(), name@) == command_named(commands@.skip(at as int), name@),
        decreases commands.len() - at,
    {
        let ghost rest = commands@.skip(at as int);
        assert(rest[0] == commands@[at as int]);
        let own = commands[at].name();
        if same_text(own.as_str(), name) {
            return Some(commands[at]);
        }
        assert(rest.drop_first() =~= commands@.skip(at + 1));
        at += 1;
    }
    None
}

/// The name of each command finds that command.
pub proof fn lemma_every_command_is_found(command: CommandKind)
    ensures
        command_named(registry(), command.spec_name()) == Some(command),
{
    reveal_strlit("hey");
    reveal_strlit("jisho");
    reveal_strlit("xe");
    let commands = registry();
    let after_hey = commands.drop_first();
    let after_jisho = after_hey.drop_first();
    assert(after_hey[0] == CommandKind::Jisho);
    assert(after_jisho[0] == CommandKind::XE);
    assert("hey"@.len() == 3 && "jisho"@.len() == 5 && "xe"@.len() == 2);
    reveal_with_fuel(command_named, 4);
}

} // verus!
