//! The orchestrator: the one authority over what is on screen. It is a state
//! machine: the caller waits for the next event, hands it in, and carries out
//! the actions that come back, in order.

use vstd::prelude::*;
use vstd::string::*;
use crate::command::{
    builtin_named, builtin_names_differ, sentinel, sentinel_command, AppCommand, BuiltinScene, CommandView,
};
use crate::debug_scene::{DebugScene, DebugSceneView};
use crate::error::{ErrorView, SDLError};
use crate::identity::{client_identity, client_identity_spec, system_hostname};
use crate::idle_scene::IdleScene;
use crate::mqtt_handler::{BackoffPolicy, MQTTHandler, SessionState, SessionView};
use crate::sdl_manager::{
    launch_request, stop_result, stopped_views, termination_view, HostEvent, LaunchRequest, LaunchView, SDLManager,
};
use crate::text::text_eq;

verus! {

/// The scene in front: none, or the one with this name.
#[derive(Debug, Clone, PartialEq, Eq)]
pub enum ActiveScene {
    Nothing,
    Named(String),
}

impl View for ActiveScene {
    type V = Option<Seq<char>>;

    open spec fn view(&self) -> Option<Seq<char>> {
        match self {
            ActiveScene::Nothing => None,
            ActiveScene::Named(name) => Some(name@),
        }
    }
}

/// Something that happened and that the orchestrator has to take in.
#[derive(Debug, Clone, PartialEq, Eq)]
pub enum Event {
    /// The agent starts: the default scene is to be shown.
    Startup,
    /// A command arrived from the command channel.
    Command(AppCommand),
    /// The display host brought up what a `Launch` action asked for.
    Launched { name: String, foreground: bool, process: u32, window: u32 },
    /// The display host could not bring up what a `Launch` action asked for.
    LaunchFailed { name: String, reason: String },
    /// The display host terminated what a `Terminate` action asked for.
    Terminated { name: String },
    /// The display host could not terminate what a `Terminate` action asked for.
    TerminateFailed { name: String, reason: String },
    /// The command channel reported whether the bus is reachable.
    Connectivity(bool),
    /// The render timer fired.
    Tick,
    /// The shutdown signal fired.
    Shutdown,
}

/// An event with its strings taken as characters.
pub enum EventView {
    Startup,
    Command(CommandView),
    Launched { name: Seq<char>, foreground: bool, process: u32, window: u32 },
    LaunchFailed { name: Seq<char>, reason: Seq<char> },
    Terminated { name: Seq<char> },
    TerminateFailed { name: Seq<char>, reason: Seq<char> },
    Connectivity(bool),
    Tick,
    Shutdown,
}

impl View for Event {
    type V = EventView;

    open spec fn view(&self) -> EventView {
        match self {
            Event::Startup => EventView::Startup,
            Event::Command(command) => EventView::Command(command@),
            Event::Launched { name, foreground, process, window } => EventView::Launched {
                name: name@,
                foreground: *foreground,
                process: *process,
                window: *window,
            },
            Event::LaunchFailed { name, reason } => EventView::LaunchFailed { name: name@, reason: reason@ },
            Event::Terminated { name } => EventView::Terminated { name: name@ },
            Event::TerminateFailed { name, reason } => EventView::TerminateFailed { name: name@, reason: reason@ },
            Event::Connectivity(up) => EventView::Connectivity(*up),
            Event::Tick => EventView::Tick,
            Event::Shutdown => EventView::Shutdown,
        }
    }
}

/// Something the caller has to do for the orchestrator.
#[derive(Debug, Clone, PartialEq, Eq)]
pub enum Action {
    /// Ask the display host for a window and a process; answer with
    /// `Launched` or `LaunchFailed`, handing `foreground` back as it is.
    Launch { request: LaunchRequest, foreground: bool },
    /// Terminate the process and release the window; answer with
    /// `Terminated` or `TerminateFailed`.
    Terminate { name: String, process: u32, window: u32 },
    /// Ask the focus delegate to bring the window to the front.
    Focus { name: String, window: u32 },
    /// Ask the focus delegate to hide the window.
    Minimize { name: String, window: u32 },
    /// Render one frame of the built-in scene.
    Render { scene: BuiltinScene },
    /// Signal the command channel to stop and wait until it has.
    StopChannel,
}

/// An action with its strings taken as characters.
pub enum ActionView {
    Launch { request: LaunchView, foreground: bool },
    Terminate { name: Seq<char>, process: u32, window: u32 },
    Focus { name: Seq<char>, window: u32 },
    Minimize { name: Seq<char>, window: u32 },
    Render { scene: BuiltinScene },
    StopChannel,
}

impl View for Action {
    type V = ActionView;

    open spec fn view(&self) -> ActionView {
        match self {
            Action::Launch { request, foreground } => ActionView::Launch { request: request@, foreground: *foreground },
            Action::Terminate { name, process, window } => ActionView::Terminate {
                name: name@,
                process: *process,
                window: *window,
            },
            Action::Focus { name, window } => ActionView::Focus { name: name@, window: *window },
            Action::Minimize { name, window } => ActionView::Minimize { name: name@, window: *window },
            Action::Render { scene } => ActionView::Render { scene: *scene },
            Action::StopChannel => ActionView::StopChannel,
        }
    }
}

/// The views of `actions`, in order.
pub open spec fn action_views(actions: Seq<Action>) -> Seq<ActionView> {
    actions.map_values(|a: Action| a@)
}

/// What came of an event: the actions to carry out, or why it was refused.
pub type Outcome = Result<Seq<ActionView>, ErrorView>;

/// What came of an event, with strings taken as characters.
pub open spec fn outcome_view(outcome: Result<Vec<Action>, SDLError>) -> Outcome {
    match outcome {
        Ok(actions) => Ok(action_views(actions@)),
        Err(error) => Err(error@),
    }
}

/// What the orchestrator is, as far as its behaviour goes.
pub struct ManagerView {
    /// The registry: each running scene's process and window identifiers.
    pub running: Map<Seq<char>, (u32, u32)>,
    /// The scene in front.
    pub active: Option<Seq<char>>,
    /// The diagnostics scene's state, once the scene has been created.
    pub debug_scene: Option<DebugSceneView>,
    /// Whether the idle scene has been created.
    pub idle_scene: bool,
    /// The last connectivity that the command channel reported.
    pub connectivity: bool,
    /// Whether shutdown has begun.
    pub stopping: bool,
    /// The scene shown at startup.
    pub default_scene: BuiltinScene,
    /// The host's name, for the diagnostics scene.
    pub hostname: Seq<char>,
    /// The command channel's session, until the caller takes it over.
    pub channel: Option<SessionView>,
}

/// The actions that hide the scene in front, if there is one on screen.
pub open spec fn hide_active(running: Map<Seq<char>, (u32, u32)>, active: Option<Seq<char>>) -> Seq<ActionView> {
    match active {
        Some(name) => if running.contains_key(name) {
            seq![ActionView::Minimize { name, window: running[name].1 }]
        } else {
            seq![]
        },
        None => seq![],
    }
}

/// The actions that hide the scene in front, unless it is `name` or there is none.
pub open spec fn hide_other(running: Map<Seq<char>, (u32, u32)>, active: Option<Seq<char>>, name: Seq<char>) -> Seq<ActionView> {
    if active == Some(name) {
        seq![]
    } else {
        hide_active(running, active)
    }
}

/// `actions` stop the channel first and then ask for the termination of
/// every entry of `running` once, each with its own handles, and do nothing
/// else.
pub open spec fn shuts_down(actions: Seq<ActionView>, running: Map<Seq<char>, (u32, u32)>) -> bool {
    &&& actions.len() >= 1
    &&& actions[0] == ActionView::StopChannel
    &&& terminates_all(actions.subrange(1, actions.len() as int), running)
}

/// `actions` ask for the termination of every entry of `running` once, each
/// with its own handles, and do nothing else.
pub open spec fn terminates_all(actions: Seq<ActionView>, running: Map<Seq<char>, (u32, u32)>) -> bool {
    &&& forall|i: int| 0 <= i < actions.len() ==> #[trigger] actions[i] is Terminate
    &&& forall|i: int, j: int|
        0 <= i < j < actions.len() ==> actions[i]->Terminate_name != actions[j]->Terminate_name
    &&& forall|i: int|
        0 <= i < actions.len() ==> running.contains_key(#[trigger] actions[i]->Terminate_name)
            && running[actions[i]->Terminate_name] == (
            actions[i]->Terminate_process,
            actions[i]->Terminate_window,
        )
    &&& forall|name: Seq<char>| #[trigger]
        running.contains_key(name) ==> exists|i: int|
            0 <= i < actions.len() && #[trigger] actions[i]->Terminate_name == name
}

impl ManagerView {
    /// What always holds of an orchestrator: the registry is finite; the
    /// scene in front is registered; and a registered built-in scene has
    /// been created.
    pub open spec fn inv(self) -> bool {
        &&& self.running.dom().finite()
        &&& self.active matches Some(name) ==> self.running.contains_key(name)
        &&& self.running.contains_key("debug"@) ==> self.debug_scene is Some
        &&& self.running.contains_key("idle"@) ==> self.idle_scene
        &&& self.channel matches Some(session) ==> session.wf()
    }

    /// The orchestrator at startup, on the host `hostname`: nothing runs,
    /// nothing is in front, and the command channel's session has not been
    /// opened yet.
    pub open spec fn initial(broker: Seq<char>, port: u16, default_scene: BuiltinScene, hostname: Seq<char>) -> ManagerView {
        ManagerView {
            running: Map::empty(),
            active: None,
            debug_scene: None,
            idle_scene: false,
            connectivity: false,
            stopping: false,
            default_scene,
            hostname,
            channel: Some(
                SessionView {
                    broker,
                    port,
                    client_id: client_identity_spec(hostname),
                    state: SessionState::Disconnected,
                    consecutive_errors: 0,
                    escalated: false,
                    policy: BackoffPolicy { threshold: 3, base_secs: 1, ceiling_secs: 5 },
                },
            ),
        }
    }

    /// The orchestrator once the built-in scene that answers to `name`, if
    /// any, has been created. A scene is created once and kept.
    pub open spec fn with_scene(self, name: Seq<char>) -> ManagerView {
        match builtin_named(name) {
            Some(BuiltinScene::Debug) => if self.debug_scene is None {
                ManagerView {
                    debug_scene: Some(DebugSceneView { mqtt_connected: false, hostname: self.hostname }),
                    ..self
                }
            } else {
                self
            },
            Some(BuiltinScene::Idle) => ManagerView { idle_scene: true, ..self },
            None => self,
        }
    }

    /// What is to be launched for a start of `name`: a built-in scene under
    /// the sentinel command, whatever the command says; anything else as the
    /// command says.
    pub open spec fn start_request(name: Seq<char>, command: Seq<char>, args: Seq<Seq<char>>) -> LaunchView {
        if builtin_named(name) is Some {
            launch_request(name, sentinel_command(), seq![])
        } else {
            launch_request(name, command, args)
        }
    }

    /// What a start of `name` comes to: a name that runs is refused; once
    /// shutdown has begun any other start is passed over; otherwise the
    /// launch is asked for. The orchestrator itself is unchanged until the
    /// launch is reported.
    pub open spec fn start_outcome(self, name: Seq<char>, command: Seq<char>, args: Seq<Seq<char>>) -> Outcome {
        if self.running.contains_key(name) {
            Err(ErrorView::AlreadyRunning(name))
        } else if self.stopping {
            Ok(seq![])
        } else {
            Ok(seq![ActionView::Launch { request: Self::start_request(name, command, args), foreground: false }])
        }
    }

    /// Whether a reported launch of `name` goes through: it does unless
    /// shutdown has begun or the name has been registered meanwhile.
    pub open spec fn registers(self, name: Seq<char>) -> bool {
        !self.stopping && !self.running.contains_key(name)
    }

    /// Whether a launched scene goes to the front: it does where the launch
    /// was asked for by a switch, and where no scene is in front.
    pub open spec fn fronts(self, foreground: bool) -> bool {
        foreground || self.active is None
    }

    /// The orchestrator after the launch of `name` was reported.
    pub open spec fn after_launched(self, name: Seq<char>, foreground: bool, process: u32, window: u32) -> ManagerView {
        if self.registers(name) {
            ManagerView {
                running: self.running.insert(name, (process, window)),
                active: if self.fronts(foreground) {
                    Some(name)
                } else {
                    self.active
                },
                ..self.with_scene(name)
            }
        } else {
            self
        }
    }

    /// What the report of the launch of `name` comes to.
    pub open spec fn launched_outcome(self, name: Seq<char>, foreground: bool, process: u32, window: u32) -> Outcome {
        if self.running.contains_key(name) {
            Err(ErrorView::AlreadyRunning(name))
        } else if self.stopping {
            Ok(seq![ActionView::Terminate { name, process, window }])
        } else if self.fronts(foreground) {
            Ok(hide_active(self.running, self.active) + seq![ActionView::Focus { name, window }])
        } else {
            Ok(seq![ActionView::Minimize { name, window }])
        }
    }

    /// What a stop of `name` comes to: a registered scene is to be
    /// terminated, any other name is refused. The orchestrator itself is
    /// unchanged until the termination is reported.
    pub open spec fn stop_outcome(self, name: Seq<char>) -> Outcome {
        if self.running.contains_key(name) {
            Ok(seq![ActionView::Terminate { name, process: self.running[name].0, window: self.running[name].1 }])
        } else {
            Err(ErrorView::NotFound(name))
        }
    }

    /// Whether a stop of `name` goes through, given how the termination
    /// went: it does where the name is registered and its process was
    /// terminated.
    pub open spec fn stops(self, name: Seq<char>, terminated: Result<(), Seq<char>>) -> bool {
        self.running.contains_key(name) && terminated is Ok
    }

    /// The orchestrator after the termination of `name` was reported. Where
    /// the stop goes through, the scene leaves the registry and, where it was
    /// in front, nothing is in front; a stop that does not go through changes
    /// nothing.
    pub open spec fn after_stopped(self, name: Seq<char>, terminated: Result<(), Seq<char>>) -> ManagerView {
        if self.stops(name, terminated) {
            ManagerView {
                running: self.running.remove(name),
                active: if self.active == Some(name) {
                    None
                } else {
                    self.active
                },
                ..self
            }
        } else {
            self
        }
    }

    /// What the report of the termination of `name` comes to: nothing is left
    /// to do where the stop goes through; a name that is not registered is
    /// refused as not found, a failed termination with its reason.
    pub open spec fn stopped_outcome(self, name: Seq<char>, terminated: Result<(), Seq<char>>) -> Outcome {
        match stop_result(self.running, name, terminated).1 {
            Ok(_) => Ok(seq![]),
            Err(error) => Err(error),
        }
    }

    /// Whether a switch to `name` takes effect at once: it does where `name`
    /// is a built-in scene that is registered, unless shutdown has begun.
    pub open spec fn switches(self, name: Seq<char>) -> bool {
        !self.stopping && builtin_named(name) is Some && self.running.contains_key(name)
    }

    /// The orchestrator after a switch to `name`.
    pub open spec fn after_switch(self, name: Seq<char>) -> ManagerView {
        if self.switches(name) {
            ManagerView { active: Some(name), ..self }
        } else {
            self
        }
    }

    /// What a switch to `name` comes to.
    pub open spec fn switch_outcome(self, name: Seq<char>) -> Outcome {
        if self.stopping || builtin_named(name) is None {
            Ok(seq![])
        } else if self.running.contains_key(name) {
            Ok(
                hide_other(self.running, self.active, name) + seq![
                    ActionView::Focus { name, window: self.running[name].1 },
                ],
            )
        } else {
            Ok(
                seq![
                    ActionView::Launch { request: launch_request(name, sentinel_command(), seq![]), foreground: true },
                ],
            )
        }
    }

    /// The orchestrator after the channel reported its connectivity.
    pub open spec fn after_connectivity(self, status: bool) -> ManagerView {
        ManagerView {
            connectivity: status,
            debug_scene: match self.debug_scene {
                Some(scene) => Some(DebugSceneView { mqtt_connected: status, ..scene }),
                None => None,
            },
            ..self
        }
    }

    /// What a tick asks for: one frame of the scene in front, where that is
    /// a built-in scene.
    pub open spec fn tick_actions(self) -> Seq<ActionView> {
        match self.active {
            Some(name) => match builtin_named(name) {
                Some(scene) => seq![ActionView::Render { scene }],
                None => seq![],
            },
            None => seq![],
        }
    }

    /// The orchestrator after shutdown has begun: no launch will be taken in
    /// again. Each scene leaves the registry when its termination is reported.
    pub open spec fn after_shutdown(self) -> ManagerView {
        ManagerView { stopping: true, ..self }
    }

    /// The orchestrator after `command`.
    pub open spec fn after_command(self, command: CommandView) -> ManagerView {
        match command {
            CommandView::Start { .. } => self,
            CommandView::Stop { .. } => self,
            CommandView::Switch { name } => self.after_switch(name),
        }
    }

    /// What `command` comes to.
    pub open spec fn command_outcome(self, command: CommandView) -> Outcome {
        match command {
            CommandView::Start { name, command, args } => self.start_outcome(name, command, args),
            CommandView::Stop { name } => self.stop_outcome(name),
            CommandView::Switch { name } => self.switch_outcome(name),
        }
    }

    /// The orchestrator after `event`.
    pub open spec fn after(self, event: EventView) -> ManagerView {
        match event {
            EventView::Startup => self.after_switch(self.default_scene.identifier_spec()),
            EventView::Command(command) => self.after_command(command),
            EventView::Launched { name, foreground, process, window } => self.after_launched(
                name,
                foreground,
                process,
                window,
            ),
            EventView::LaunchFailed { .. } => self,
            EventView::Terminated { name } => self.after_stopped(name, Ok(())),
            EventView::TerminateFailed { .. } => self,
            EventView::Connectivity(status) => self.after_connectivity(status),
            EventView::Tick => self,
            EventView::Shutdown => if self.stopping {
                self
            } else {
                self.after_shutdown()
            },
        }
    }

    /// Whether `outcome` is what `event` may come to. Every event but a
    /// shutdown has one outcome; a shutdown asks for the termination of the
    /// running scenes in an order that is not fixed.
    pub open spec fn allows(self, event: EventView, outcome: Outcome) -> bool {
        match event {
            EventView::Startup => outcome == self.switch_outcome(self.default_scene.identifier_spec()),
            EventView::Command(command) => outcome == self.command_outcome(command),
            EventView::Launched { name, foreground, process, window } => outcome == self.launched_outcome(
                name,
                foreground,
                process,
                window,
            ),
            EventView::LaunchFailed { name, reason } => outcome == Err::<Seq<ActionView>, ErrorView>(
                ErrorView::SDLError(reason),
            ),
            EventView::Terminated { name } => outcome == self.stopped_outcome(name, Ok(())),
            EventView::TerminateFailed { name, reason } => outcome == self.stopped_outcome(name, Err(reason)),
            EventView::Connectivity(status) => outcome == Ok::<Seq<ActionView>, ErrorView>(seq![]),
            EventView::Tick => outcome == Ok::<Seq<ActionView>, ErrorView>(self.tick_actions()),
            EventView::Shutdown => if self.stopping {
                outcome == Ok::<Seq<ActionView>, ErrorView>(seq![])
            } else {
                outcome matches Ok(actions) && shuts_down(actions, self.running)
            },
        }
    }
}

/// What is there, taken as its view.
pub open spec fn scene_view(scene: Option<DebugScene>) -> Option<DebugSceneView> {
    match scene {
        Some(s) => Some(s@),
        None => None,
    }
}

/// What is there, taken as its view.
pub open spec fn session_view(session: Option<MQTTHandler>) -> Option<SessionView> {
    match session {
        Some(s) => Some(s@),
        None => None,
    }
}

/// A text as an option of its characters.
pub open spec fn text_view(text: Option<&str>) -> Option<Seq<char>> {
    match text {
        Some(t) => Some(t@),
        None => None,
    }
}

/// The orchestrator.
pub struct AppManager {
    sdl_manager: SDLManager,
    mqtt_handler: Option<MQTTHandler>,
    active_scene: ActiveScene,
    debug_scene: Option<DebugScene>,
    idle_scene: Option<IdleScene>,
    connectivity: bool,
    stopping: bool,
    default_scene: BuiltinScene,
    hostname: String,
}

impl View for AppManager {
    type V = ManagerView;

    closed spec fn view(&self) -> ManagerView {
        ManagerView {
            running: self.sdl_manager@,
            active: self.active_scene@,
            debug_scene: scene_view(self.debug_scene),
            idle_scene: self.idle_scene is Some,
            connectivity: self.connectivity,
            stopping: self.stopping,
            default_scene: self.default_scene,
            hostname: self.hostname@,
            channel: session_view(self.mqtt_handler),
        }
    }
}

impl AppManager {
    /// The orchestrator at startup, for the host name that was reported. The
    /// bus identity is derived from the host name, so without one there is no
    /// orchestrator. `default_scene` is the configured startup scene, if any.
    pub fn with_hostname(mqtt_broker: &str, mqtt_port: u16, default_scene: Option<&str>, hostname: Option<String>) -> (manager: Option<AppManager>)
        ensures
            hostname is None ==> manager is None,
            hostname matches Some(host) ==> (manager matches Some(m) && m@.inv() && m@ == ManagerView::initial(
                mqtt_broker@,
                mqtt_port,
                BuiltinScene::startup_spec(text_view(default_scene)),
                host@,
            )),
    {
        let hostname = match hostname {
            Some(hostname) => hostname,
            None => {
                return None;
            },
        };
        let client_id = client_identity(hostname.as_str());
        proof {
            reveal_strlit("protosuit-engine-client-");
            assert(client_id@.len() > 0);
        }
        let mqtt_handler = MQTTHandler::new(mqtt_broker, mqtt_port, client_id.as_str());
        let manager = AppManager {
            sdl_manager: SDLManager::new(),
            mqtt_handler,
            active_scene: ActiveScene::Nothing,
            debug_scene: None,
            idle_scene: None,
            connectivity: false,
            stopping: false,
            default_scene: BuiltinScene::startup(default_scene),
            hostname,
        };
        assert(manager@ == ManagerView::initial(
            mqtt_broker@,
            mqtt_port,
            BuiltinScene::startup_spec(text_view(default_scene)),
            manager.hostname@,
        ));
        Some(manager)
    }

    /// The orchestrator at startup, on this host. Whatever host name the
    /// system reports, the orchestrator starts out as `with_hostname` says
    /// for that name; where the system reports none, there is no orchestrator.
    pub fn new(mqtt_broker: &str, mqtt_port: u16, default_scene: Option<&str>) -> (manager: Option<AppManager>)
        ensures
            manager matches Some(m) ==> m@.inv() && m@ == ManagerView::initial(
                mqtt_broker@,
                mqtt_port,
                BuiltinScene::startup_spec(text_view(default_scene)),
                m@.hostname,
            ),
    {
        AppManager::with_hostname(mqtt_broker, mqtt_port, default_scene, system_hostname())
    }

    /// Hands the command channel's session over, for the caller to run it.
    pub fn take_mqtt_handler(&mut self) -> (handler: Option<MQTTHandler>)
        ensures
            old(self)@.inv() ==> final(self)@.inv(),
            session_view(handler) == old(self)@.channel,
            handler matches Some(h) ==> h@.wf(),
            final(self)@ == (ManagerView { channel: None, ..old(self)@ }),
    {
        let handler = self.mqtt_handler.take();
        match &handler {
            Some(session) => {
                session.well_formed();
            },
            None => {},
        }
        handler
    }

    /// The scene in front, if any.
    pub fn active_scene(&self) -> (name: Option<&str>)
        ensures
            text_view(name) == self@.active,
    {
        match &self.active_scene {
            ActiveScene::Nothing => None,
            ActiveScene::Named(name) => Some(name.as_str()),
        }
    }

    /// Whether `name` is registered.
    pub fn is_running(&self, name: &str) -> (running: bool)
        ensures
            running == self@.running.contains_key(name@),
    {
        self.sdl_manager.is_running(name)
    }

    /// Every registered name, once each. The order is not fixed.
    pub fn get_running_apps(&self) -> (names: Vec<String>)
        ensures
            names.deep_view().no_duplicates(),
            names.deep_view().to_set() == self@.running.dom(),
            names.len() == self@.running.dom().len(),
    {
        self.sdl_manager.get_running_apps()
    }

    /// The diagnostics scene, once it has been created.
    pub fn debug_scene(&self) -> (scene: Option<&DebugScene>)
        ensures
            match scene {
                Some(s) => self@.debug_scene == Some(s@),
                None => self@.debug_scene is None,
            },
    {
        self.debug_scene.as_ref()
    }

    /// The idle scene, once it has been created.
    pub fn idle_scene(&self) -> (scene: Option<&IdleScene>)
        ensures
            scene is Some == self@.idle_scene,
    {
        self.idle_scene.as_ref()
    }

    /// The last connectivity that the command channel reported.
    pub fn connectivity(&self) -> (status: bool)
        ensures
            status == self@.connectivity,
    {
        self.connectivity
    }

    /// Whether shutdown has begun.
    pub fn is_stopping(&self) -> (stopping: bool)
        ensures
            stopping == self@.stopping,
    {
        self.stopping
    }

    /// Whether the agent has to quit, given what the window system reported
    /// since the last turn: it has once `Quit` is among the events.
    pub fn pump_events(&self, events: &Vec<HostEvent>) -> (quit: bool)
        ensures
            quit == events@.contains(HostEvent::Quit),
    {
        self.sdl_manager.pump_events(events)
    }

    /// Takes in a start of `name`. A registered name is refused, and its
    /// instance left alone. Once shutdown has begun nothing is started.
    /// Otherwise the display host is asked to launch the scene; where it goes
    /// on screen is decided when the launch is reported.
    pub fn handle_start(&mut self, name: &str, command: &str, args: &Vec<String>) -> (outcome: Result<Vec<Action>, SDLError>)
        ensures
            old(self)@.inv() ==> final(self)@.inv(),
            final(self)@ == old(self)@,
            outcome_view(outcome) == old(self)@.start_outcome(name@, command@, args.deep_view()),
    {
        let mut actions: Vec<Action> = Vec::new();
        if self.stopping && !self.sdl_manager.is_running(name) {
            assert(action_views(actions@) =~= seq![]);
            return Ok(actions);
        }
        let planned = match BuiltinScene::from_name(name) {
            Some(_) => {
                let no_args: Vec<String> = Vec::new();
                assert(no_args.deep_view() =~= seq![]);
                self.sdl_manager.launch_app(name, sentinel(), &no_args)
            },
            None => self.sdl_manager.launch_app(name, command, args),
        };
        match planned {
            Ok(request) => {
                actions.push(Action::Launch { request, foreground: false });
                assert(action_views(actions@) =~= seq![
                    ActionView::Launch {
                        request: ManagerView::start_request(name@, command@, args.deep_view()),
                        foreground: false,
                    },
                ]);
                Ok(actions)
            },
            Err(error) => Err(error),
        }
    }

    /// Takes in the report that `name` was launched, with the handles of its
    /// process and window. The scene is registered; a built-in scene is
    /// created unless it exists. It goes to the front, the scene that was in
    /// front being hidden, where `foreground` says so or nothing is in front;
    /// otherwise it is hidden. A name registered meanwhile is refused. Once
    /// shutdown has begun the scene is not registered: its termination is
    /// asked for instead.
    pub fn finish_launch(&mut self, name: &str, foreground: bool, process: u32, window: u32) -> (outcome: Result<Vec<Action>, SDLError>)
        ensures
            old(self)@.inv() ==> final(self)@.inv(),
            final(self)@ == old(self)@.after_launched(name@, foreground, process, window),
            outcome_view(outcome) == old(self)@.launched_outcome(name@, foreground, process, window),
    {
        let mut actions: Vec<Action> = Vec::new();
        if self.sdl_manager.is_running(name) {
            return Err(SDLError::AlreadyRunning(name.to_owned()));
        }
        if self.stopping {
            actions.push(Action::Terminate { name: name.to_owned(), process, window });
            assert(action_views(actions@) =~= seq![ActionView::Terminate { name: name@, process, window }]);
            return Ok(actions);
        }
        let hidden = match &self.active_scene {
            ActiveScene::Named(previous) => self.sdl_manager.get_window(previous.as_str()),
            ActiveScene::Nothing => None,
        };
        match self.sdl_manager.store_window(name, process, window) {
            Ok(()) => {},
            Err(error) => {
                return Err(error);
            },
        }
        match BuiltinScene::from_name(name) {
            Some(BuiltinScene::Debug) => {
                if self.debug_scene.is_none() {
                    self.debug_scene = Some(DebugScene::with_hostname(Some(self.hostname.clone())));
                }
            },
            Some(BuiltinScene::Idle) => {
                if self.idle_scene.is_none() {
                    self.idle_scene = Some(IdleScene::new());
                }
            },
            None => {},
        }
        let front = match &self.active_scene {
            ActiveScene::Nothing => true,
            ActiveScene::Named(_) => foreground,
        };
        if front {
            match (&self.active_scene, hidden) {
                (ActiveScene::Named(previous), Some(hidden)) => {
                    actions.push(Action::Minimize { name: previous.clone(), window: hidden });
                },
                _ => {},
            }
            actions.push(Action::Focus { name: name.to_owned(), window });
            self.active_scene = ActiveScene::Named(name.to_owned());
        } else {
            actions.push(Action::Minimize { name: name.to_owned(), window });
        }
        proof {
            builtin_names_differ();
            assert(action_views(actions@) =~= old(self)@.launched_outcome(name@, foreground, process, window)->Ok_0);
        }
        Ok(actions)
    }

    /// Takes in a stop of `name`: a registered scene is to be terminated; a
    /// name that is not registered is refused. The scene stays registered
    /// until its termination is reported.
    pub fn handle_stop(&mut self, name: &str) -> (outcome: Result<Vec<Action>, SDLError>)
        ensures
            final(self)@ == old(self)@,
            outcome_view(outcome) == old(self)@.stop_outcome(name@),
    {
        match self.sdl_manager.get_handles(name) {
            Some(handles) => {
                let mut actions: Vec<Action> = Vec::new();
                actions.push(Action::Terminate { name: name.to_owned(), process: handles.0, window: handles.1 });
                assert(action_views(actions@) =~= old(self)@.stop_outcome(name@)->Ok_0);
                Ok(actions)
            },
            None => Err(SDLError::NotFound(name.to_owned())),
        }
    }

    /// Takes in the report of how the termination of `name` went. Where the
    /// process was terminated, the scene leaves the registry; where it was in
    /// front, nothing is in front afterwards: no other scene takes its place.
    /// Where the termination failed, the stop is refused with the reason and
    /// the scene stays registered, and in front if it was. A name that is not
    /// registered is refused.
    pub fn finish_stop(&mut self, name: &str, terminated: Result<(), String>) -> (outcome: Result<Vec<Action>, SDLError>)
        ensures
            old(self)@.inv() ==> final(self)@.inv(),
            final(self)@ == old(self)@.after_stopped(name@, termination_view(terminated)),
            outcome_view(outcome) == old(self)@.stopped_outcome(name@, termination_view(terminated)),
            outcome is Err ==> final(self)@ == old(self)@,
    {
        match self.sdl_manager.stop_app(name, terminated) {
            Ok(_) => {
                let was_active = match &self.active_scene {
                    ActiveScene::Named(active) => text_eq(active.as_str(), name),
                    ActiveScene::Nothing => false,
                };
                if was_active {
                    self.active_scene = ActiveScene::Nothing;
                }
                let actions: Vec<Action> = Vec::new();
                assert(action_views(actions@) =~= seq![]);
                Ok(actions)
            },
            Err(error) => Err(error),
        }
    }

    /// Takes in a switch to `name`. A name that belongs to no built-in scene
    /// changes nothing, and once shutdown has begun nothing is switched. A
    /// built-in scene that is registered goes to the front, the scene that
    /// was in front, if it is another, being hidden. One that is not
    /// registered is launched first and goes to the front when the launch is
    /// reported.
    pub fn handle_switch(&mut self, name: &str) -> (outcome: Result<Vec<Action>, SDLError>)
        ensures
            old(self)@.inv() ==> final(self)@.inv(),
            final(self)@ == old(self)@.after_switch(name@),
            outcome_view(outcome) == old(self)@.switch_outcome(name@),
            outcome is Ok,
    {
        let mut actions: Vec<Action> = Vec::new();
        if self.stopping || BuiltinScene::from_name(name).is_none() {
            assert(action_views(actions@) =~= seq![]);
            return Ok(actions);
        }
        match self.sdl_manager.get_window(name) {
            Some(window) => {
                match &self.active_scene {
                    ActiveScene::Named(previous) => {
                        if !text_eq(previous.as_str(), name) {
                            match self.sdl_manager.get_window(previous.as_str()) {
                                Some(hidden) => {
                                    actions.push(Action::Minimize { name: previous.clone(), window: hidden });
                                },
                                None => {},
                            }
                        }
                    },
                    ActiveScene::Nothing => {},
                }
                actions.push(Action::Focus { name: name.to_owned(), window });
                self.active_scene = ActiveScene::Named(name.to_owned());
                assert(action_views(actions@) =~= old(self)@.switch_outcome(name@)->Ok_0);
            },
            None => {
                let no_args: Vec<String> = Vec::new();
                assert(no_args.deep_view() =~= seq![]);
                let request = LaunchRequest {
                    name: name.to_owned(),
                    command: sentinel().to_owned(),
                    args: no_args,
                    canvas: true,
                };
                actions.push(Action::Launch { request, foreground: true });
                assert(action_views(actions@) =~= old(self)@.switch_outcome(name@)->Ok_0);
            },
        }
        Ok(actions)
    }

    /// Takes in a command from the bus.
    pub fn dispatch(&mut self, command: &AppCommand) -> (outcome: Result<Vec<Action>, SDLError>)
        ensures
            old(self)@.inv() ==> final(self)@.inv(),
            final(self)@ == old(self)@.after_command(command@),
            outcome_view(outcome) == old(self)@.command_outcome(command@),
            outcome is Err ==> final(self)@ == old(self)@,
    {
        match command {
            AppCommand::Start { name, command, args } => self.handle_start(name.as_str(), command.as_str(), args),
            AppCommand::Stop { name } => self.handle_stop(name.as_str()),
            AppCommand::Switch { name } => self.handle_switch(name.as_str()),
        }
    }

    /// Takes in the connectivity that the command channel reported: it is
    /// remembered, and the diagnostics scene, where it exists, shows it from
    /// the next frame on.
    pub fn on_connectivity(&mut self, status: bool)
        ensures
            old(self)@.inv() ==> final(self)@.inv(),
            final(self)@ == old(self)@.after_connectivity(status),
    {
        self.connectivity = status;
        match &mut self.debug_scene {
            Some(scene) => {
                scene.set_mqtt_status(status);
            },
            None => {},
        }
    }

    /// What the render timer's tick asks for: one frame of the scene in
    /// front, where that is a built-in scene, and nothing otherwise.
    pub fn tick(&self) -> (actions: Vec<Action>)
        ensures
            action_views(actions@) == self@.tick_actions(),
    {
        let mut actions: Vec<Action> = Vec::new();
        match &self.active_scene {
            ActiveScene::Named(name) => match BuiltinScene::from_name(name.as_str()) {
                Some(scene) => {
                    actions.push(Action::Render { scene });
                },
                None => {},
            },
            ActiveScene::Nothing => {},
        }
        assert(action_views(actions@) =~= self@.tick_actions());
        actions
    }

    /// Asks for the stop of every registered scene: each is to be
    /// terminated, once. Each leaves the registry when its termination is
    /// reported. The order is not fixed.
    pub fn cleanup(&mut self) -> (actions: Vec<Action>)
        ensures
            final(self)@ == old(self)@,
            terminates_all(action_views(actions@), old(self)@.running),
            actions.len() == old(self)@.running.dom().len(),
    {
        let running = self.sdl_manager.cleanup();
        let mut actions: Vec<Action> = Vec::new();
        let mut i: usize = 0;
        while i < running.len()
            invariant
                i <= running.len(),
                actions.len() == i,
                forall|j: int|
                    0 <= j < i ==> (#[trigger] actions@[j])@ == (ActionView::Terminate {
                        name: running@[j]@.name,
                        process: running@[j]@.process,
                        window: running@[j]@.window,
                    }),
            decreases running.len() - i,
        {
            let scene = &running[i];
            actions.push(Action::Terminate { name: scene.name.clone(), process: scene.process, window: scene.window });
            i += 1;
        }
        proof {
            let views = action_views(actions@);
            let scenes = stopped_views(running@);
            assert forall|j: int| 0 <= j < views.len() implies #[trigger] views[j] == (ActionView::Terminate {
                name: scenes[j].name,
                process: scenes[j].process,
                window: scenes[j].window,
            }) by {
                assert(views[j] == actions@[j]@);
                assert(scenes[j] == running@[j]@);
            }
            assert forall|name: Seq<char>| #[trigger] old(self)@.running.contains_key(name) implies exists|j: int|
                0 <= j < views.len() && #[trigger] views[j]->Terminate_name == name by {
                let j = choose|j: int| 0 <= j < scenes.len() && #[trigger] scenes[j].name == name;
                assert(views[j]->Terminate_name == name);
            }
        }
        actions
    }

    /// Begins shutdown. The command channel is stopped first, so that no
    /// command arrives while the scenes go down; then the stop of every
    /// registered scene is asked for, once. From then on nothing is launched
    /// or switched. A scene whose termination fails stays registered; the
    /// others go on being stopped. A second shutdown does nothing.
    pub fn shutdown(&mut self) -> (actions: Vec<Action>)
        ensures
            old(self)@.inv() ==> final(self)@.inv(),
            final(self)@ == old(self)@.after(EventView::Shutdown),
            old(self)@.allows(EventView::Shutdown, Ok(action_views(actions@))),
    {
        let mut actions: Vec<Action> = Vec::new();
        if self.stopping {
            assert(action_views(actions@) =~= seq![]);
            return actions;
        }
        actions.push(Action::StopChannel);
        let mut stops = self.cleanup();
        let ghost stop_views = action_views(stops@);
        actions.append(&mut stops);
        self.stopping = true;
        proof {
            let views = action_views(actions@);
            assert(views.subrange(1, views.len() as int) =~= stop_views);
            assert(views[0] == ActionView::StopChannel);
        }
        actions
    }

    /// One turn of the orchestrator's loop: takes in `event`, moves the
    /// orchestrator on and says what the caller has to do, in order. A
    /// refused event leaves the orchestrator as it was; the refusal concerns
    /// that event alone.
    pub fn run(&mut self, event: Event) -> (outcome: Result<Vec<Action>, SDLError>)
        ensures
            old(self)@.inv() ==> final(self)@.inv(),
            final(self)@ == old(self)@.after(event@),
            old(self)@.allows(event@, outcome_view(outcome)),
            outcome is Err ==> final(self)@ == old(self)@,
    {
        match event {
            Event::Startup => {
                let scene = self.default_scene;
                self.handle_switch(scene.identifier())
            },
            Event::Command(command) => self.dispatch(&command),
            Event::Launched { name, foreground, process, window } => self.finish_launch(
                name.as_str(),
                foreground,
                process,
                window,
            ),
            Event::LaunchFailed { name, reason } => Err(SDLError::SDLError(reason)),
            Event::Terminated { name } => self.finish_stop(name.as_str(), Ok(())),
            Event::TerminateFailed { name, reason } => self.finish_stop(name.as_str(), Err(reason)),
            Event::Connectivity(status) => {
                self.on_connectivity(status);
                let actions: Vec<Action> = Vec::new();
                assert(action_views(actions@) =~= seq![]);
                Ok(actions)
            },
            Event::Tick => Ok(self.tick()),
            Event::Shutdown => Ok(self.shutdown()),
        }
    }
}

} // verus!
