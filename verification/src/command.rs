//! Commands that arrive over the bus, and the scenes the agent draws itself.

use vstd::prelude::*;
use vstd::string::*;
use crate::text::text_eq;

verus! {

/// A decoded bus command.
#[derive(Debug, Clone, PartialEq, Eq)]
pub enum AppCommand {
    /// Launch `name`, backed by the process `command args..`.
    Start { name: String, command: String, args: Vec<String> },
    /// Terminate `name` and release its window.
    Stop { name: String },
    /// Bring the built-in scene `name` to the front.
    Switch { name: String },
}

/// What a command says, with every string taken as its characters.
pub enum CommandView {
    Start { name: Seq<char>, command: Seq<char>, args: Seq<Seq<char>> },
    Stop { name: Seq<char> },
    Switch { name: Seq<char> },
}

impl View for AppCommand {
    type V = CommandView;

    open spec fn view(&self) -> CommandView {
        match self {
            AppCommand::Start { name, command, args } => CommandView::Start {
                name: name@,
                command: command@,
                args: args.deep_view(),
            },
            AppCommand::Stop { name } => CommandView::Stop { name: name@ },
            AppCommand::Switch { name } => CommandView::Switch { name: name@ },
        }
    }
}

impl CommandView {
    /// The scene that the command is about.
    pub open spec fn name(self) -> Seq<char> {
        match self {
            CommandView::Start { name, .. } => name,
            CommandView::Stop { name } => name,
            CommandView::Switch { name } => name,
        }
    }
}

/// A copy of `names` with the same strings in the same order.
pub fn copy_strings(names: &Vec<String>) -> (copy: Vec<String>)
    ensures
        copy.deep_view() == names.deep_view(),
{
    let copy = names.clone();
    assert(copy.deep_view() =~= names.deep_view());
    copy
}

impl AppCommand {
    /// The scene that the command is about.
    pub fn name(&self) -> (name: &String)
        ensures
            name@ == self@.name(),
    {
        match self {
            AppCommand::Start { name, .. } => name,
            AppCommand::Stop { name } => name,
            AppCommand::Switch { name } => name,
        }
    }

    /// A copy that says the same as `self`.
    pub fn duplicate(&self) -> (copy: AppCommand)
        ensures
            copy@ == self@,
    {
        match self {
            AppCommand::Start { name, command, args } => AppCommand::Start {
                name: name.clone(),
                command: command.clone(),
                args: copy_strings(args),
            },
            AppCommand::Stop { name } => AppCommand::Stop { name: name.clone() },
            AppCommand::Switch { name } => AppCommand::Switch { name: name.clone() },
        }
    }
}

/// A scene that the agent renders itself instead of handing a window to a process.
#[derive(Debug, Clone, Copy, PartialEq, Eq, Structural)]
pub enum BuiltinScene {
    /// Diagnostics: host name, address, uptime, bus connectivity.
    Debug,
    /// Idle clock.
    Idle,
}

/// The command under which a built-in scene is launched: it starts no real process.
pub open spec fn sentinel_command() -> Seq<char> {
    "true"@
}

/// The command under which a built-in scene is launched.
pub fn sentinel() -> (command: &'static str)
    ensures
        command@ == sentinel_command(),
{
    "true"
}

/// The built-in scene that answers to `name`, if there is one.
pub open spec fn builtin_named(name: Seq<char>) -> Option<BuiltinScene> {
    if name == "debug"@ {
        Some(BuiltinScene::Debug)
    } else if name == "idle"@ {
        Some(BuiltinScene::Idle)
    } else {
        None
    }
}

/// The two identifiers differ, so each names one scene.
pub proof fn builtin_names_differ()
    ensures
        "debug"@ != "idle"@,
        builtin_named("debug"@) == Some(BuiltinScene::Debug),
        builtin_named("idle"@) == Some(BuiltinScene::Idle),
{
    reveal_strlit("debug");
    reveal_strlit("idle");
    assert("debug"@.len() != "idle"@.len());
}

impl BuiltinScene {
    /// The identifier under which the scene is registered and addressed.
    pub open spec fn identifier_spec(self) -> Seq<char> {
        match self {
            BuiltinScene::Debug => "debug"@,
            BuiltinScene::Idle => "idle"@,
        }
    }

    /// The identifier under which the scene is registered and addressed.
    pub fn identifier(&self) -> (id: &'static str)
        ensures
            id@ == self.identifier_spec(),
            builtin_named(id@) == Some(*self),
    {
        proof {
            builtin_names_differ();
        }
        match self {
            BuiltinScene::Debug => "debug",
            BuiltinScene::Idle => "idle",
        }
    }

    /// Looks a scene up by its identifier; other names belong to no built-in.
    pub fn from_name(name: &str) -> (scene: Option<BuiltinScene>)
        ensures
            scene == builtin_named(name@),
    {
        if text_eq(name, "debug") {
            Some(BuiltinScene::Debug)
        } else if text_eq(name, "idle") {
            Some(BuiltinScene::Idle)
        } else {
            None
        }
    }

    /// The scene to show at startup: the configured one where it names a
    /// built-in, the diagnostics scene where nothing or something else is configured.
    pub open spec fn startup_spec(configured: Option<Seq<char>>) -> BuiltinScene {
        match configured {
            Some(name) => match builtin_named(name) {
                Some(scene) => scene,
                None => BuiltinScene::Debug,
            },
            None => BuiltinScene::Debug,
        }
    }

    /// Validates the configured startup scene, falling back to diagnostics.
    pub fn startup(configured: Option<&str>) -> (scene: BuiltinScene)
        ensures
            scene == Self::startup_spec(
                match configured {
                    Some(name) => Some(name@),
                    None => None,
                },
            ),
    {
        match configured {
            Some(name) => match BuiltinScene::from_name(name) {
                Some(scene) => scene,
                None => BuiltinScene::Debug,
            },
            None => BuiltinScene::Debug,
        }
    }
}

} // verus!
