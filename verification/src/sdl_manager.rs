//! The display host's bookkeeping: which scenes run, and under which handles.

use vstd::prelude::*;
use vstd::string::*;
use crate::command::{copy_strings, sentinel, sentinel_command};
use crate::error::{ErrorView, SDLError};
use crate::text::text_eq;

verus! {

/// `dashmap::DashMap`, taken as it is: nothing is read from inside it but
/// through the functions below.
#[verifier::external_type_specification]
#[verifier::external_body]
#[verifier::reject_recursive_types(K)]
#[verifier::reject_recursive_types(V)]
#[verifier::reject_recursive_types(S)]
pub struct ExDashMap<K, V, S>(dashmap::DashMap<K, V, S>);

/// What a table of running scenes holds: for each registered name, the
/// identifier of its process and the identifier of its window.
pub uninterp spec fn running_entries(table: dashmap::DashMap<String, (u32, u32)>) -> Map<Seq<char>, (u32, u32)>;

/// `DashMap::new`: the new table holds nothing.
#[verifier::external_body]
fn table_new() -> (table: dashmap::DashMap<String, (u32, u32)>)
    ensures
        running_entries(table) =~= Map::empty(),
{
    dashmap::DashMap::new()
}

/// `DashMap::contains_key`: whether the table has an entry under `key`.
#[verifier::external_body]
fn table_contains(table: &dashmap::DashMap<String, (u32, u32)>, key: &str) -> (present: bool)
    ensures
        present == running_entries(*table).contains_key(key@),
{
    table.contains_key(key)
}

/// `DashMap::get`: a copy of the value under `key`, if the table has one.
#[verifier::external_body]
fn table_get(table: &dashmap::DashMap<String, (u32, u32)>, key: &str) -> (found: Option<(u32, u32)>)
    ensures
        found == (if running_entries(*table).contains_key(key@) {
            Some(running_entries(*table)[key@])
        } else {
            None
        }),
{
    table.get(key).map(|entry| *entry.value())
}

/// `DashMap::insert`: afterwards `key` maps to `value` and every other entry
/// is as before; the value that `key` had, if any, is handed back.
#[verifier::external_body]
fn table_insert(table: &mut dashmap::DashMap<String, (u32, u32)>, key: String, value: (u32, u32)) -> (previous: Option<(u32, u32)>)
    ensures
        running_entries(*final(table)) == running_entries(*old(table)).insert(key@, value),
        previous == (if running_entries(*old(table)).contains_key(key@) {
            Some(running_entries(*old(table))[key@])
        } else {
            None
        }),
{
    table.insert(key, value)
}

/// `DashMap::remove`: afterwards the table has no entry under `key` and every
/// other entry is as before; the value that `key` had, if any, is handed back.
#[verifier::external_body]
fn table_remove(table: &mut dashmap::DashMap<String, (u32, u32)>, key: &str) -> (removed: Option<(u32, u32)>)
    ensures
        running_entries(*final(table)) == running_entries(*old(table)).remove(key@),
        removed == (if running_entries(*old(table)).contains_key(key@) {
            Some(running_entries(*old(table))[key@])
        } else {
            None
        }),
{
    table.remove(key).map(|entry| entry.1)
}

/// `DashMap::iter`, keys only: every registered name once, in no stated order.
#[verifier::external_body]
fn table_keys(table: &dashmap::DashMap<String, (u32, u32)>) -> (keys: Vec<String>)
    ensures
        keys.deep_view().no_duplicates(),
        forall|name: Seq<char>| keys.deep_view().contains(name) <==> running_entries(*table).contains_key(name),
{
    table.iter().map(|entry| entry.key().clone()).collect()
}

/// Width of a scene's window, in pixels.
pub const WINDOW_WIDTH: u32 = 720;

/// Height of a scene's window, in pixels.
pub const WINDOW_HEIGHT: u32 = 720;

/// What the display host is asked to bring up for one scene.
#[derive(Debug, Clone, PartialEq, Eq)]
pub struct LaunchRequest {
    /// The scene's name, also the window's title.
    pub name: String,
    /// The program to start.
    pub command: String,
    /// The program's arguments.
    pub args: Vec<String>,
    /// Whether the host must hand back a drawable surface: it must where the
    /// command is the sentinel, since then the agent draws the scene itself.
    pub canvas: bool,
}

/// A launch request with its strings taken as characters.
pub struct LaunchView {
    pub name: Seq<char>,
    pub command: Seq<char>,
    pub args: Seq<Seq<char>>,
    pub canvas: bool,
}

impl View for LaunchRequest {
    type V = LaunchView;

    open spec fn view(&self) -> LaunchView {
        LaunchView {
            name: self.name@,
            command: self.command@,
            args: self.args.deep_view(),
            canvas: self.canvas,
        }
    }
}

impl LaunchRequest {
    /// A copy that asks for the same launch.
    pub fn duplicate(&self) -> (copy: LaunchRequest)
        ensures
            copy@ == self@,
    {
        LaunchRequest {
            name: self.name.clone(),
            command: self.command.clone(),
            args: copy_strings(&self.args),
            canvas: self.canvas,
        }
    }
}

/// The request that launching `name` as `command args..` amounts to.
pub open spec fn launch_request(name: Seq<char>, command: Seq<char>, args: Seq<Seq<char>>) -> LaunchView {
    LaunchView { name, command, args, canvas: command == sentinel_command() }
}

/// Something the window system reported while events were pumped.
#[derive(Debug, Clone, Copy, PartialEq, Eq, Structural)]
pub enum HostEvent {
    /// The user or the system asked the agent to quit.
    Quit,
    /// Anything else; it is only logged.
    Other,
}

/// A scene to be stopped, with the handles to terminate and release.
#[derive(Debug, Clone, PartialEq, Eq)]
pub struct StoppedApp {
    pub name: String,
    pub process: u32,
    pub window: u32,
}

/// A stopped scene with its name taken as characters.
pub struct StoppedView {
    pub name: Seq<char>,
    pub process: u32,
    pub window: u32,
}

impl View for StoppedApp {
    type V = StoppedView;

    open spec fn view(&self) -> StoppedView {
        StoppedView { name: self.name@, process: self.process, window: self.window }
    }
}

/// The views of `stopped`, in order.
pub open spec fn stopped_views(stopped: Seq<StoppedApp>) -> Seq<StoppedView> {
    stopped.map_values(|s: StoppedApp| s@)
}

/// `stopped` names every entry of `entries` once, each with its own handles,
/// and names nothing else.
pub open spec fn lists_entries(stopped: Seq<StoppedView>, entries: Map<Seq<char>, (u32, u32)>) -> bool {
    &&& forall|i: int, j: int| 0 <= i < j < stopped.len() ==> stopped[i].name != stopped[j].name
    &&& forall|i: int|
        0 <= i < stopped.len() ==> entries.contains_key(#[trigger] stopped[i].name) && entries[stopped[i].name] == (
            stopped[i].process,
            stopped[i].window,
        )
    &&& forall|name: Seq<char>| #[trigger]
        entries.contains_key(name) ==> exists|i: int| 0 <= i < stopped.len() && #[trigger] stopped[i].name == name
}

/// A result with its error taken as its view.
pub open spec fn error_view<T>(result: Result<T, SDLError>) -> Result<T, ErrorView> {
    match result {
        Ok(value) => Ok(value),
        Err(error) => Err(error@),
    }
}

/// What the settling of a stop comes to: the registry afterwards, and the
/// answer. A stop succeeds, and the entry leaves, only where the name is
/// registered and its process was terminated; otherwise the registry is as
/// it was.
pub open spec fn stop_result(entries: Map<Seq<char>, (u32, u32)>, name: Seq<char>, terminated: Result<(), Seq<char>>) -> (
    Map<Seq<char>, (u32, u32)>,
    Result<(u32, u32), ErrorView>,
) {
    if !entries.contains_key(name) {
        (entries, Err(ErrorView::NotFound(name)))
    } else {
        match terminated {
            Err(reason) => (entries, Err(ErrorView::SDLError(reason))),
            Ok(_) => (entries.remove(name), Ok(entries[name])),
        }
    }
}

/// How a termination went, the reason of a failure taken as characters.
pub open spec fn termination_view(terminated: Result<(), String>) -> Result<(), Seq<char>> {
    match terminated {
        Ok(_) => Ok(()),
        Err(reason) => Err(reason@),
    }
}

/// Registry of running scenes, by name.
pub struct SDLManager {
    running_apps: dashmap::DashMap<String, (u32, u32)>,
}

impl View for SDLManager {
    type V = Map<Seq<char>, (u32, u32)>;

    /// For each registered name, its process and window identifiers.
    closed spec fn view(&self) -> Map<Seq<char>, (u32, u32)> {
        running_entries(self.running_apps)
    }
}

impl SDLManager {
    /// A registry in which nothing runs.
    pub fn new() -> (host: SDLManager)
        ensures
            host@ =~= Map::empty(),
    {
        SDLManager { running_apps: table_new() }
    }

    /// Whether `app_name` is registered.
    pub fn is_running(&self, app_name: &str) -> (running: bool)
        ensures
            running == self@.contains_key(app_name@),
    {
        table_contains(&self.running_apps, app_name)
    }

    /// Plans the launch of `app_name`. A name that is registered is refused and
    /// nothing is to be launched; otherwise the request says what to bring up.
    /// The registry itself changes only when the window is stored.
    pub fn launch_app(&self, app_name: &str, command: &str, args: &Vec<String>) -> (planned: Result<LaunchRequest, SDLError>)
        ensures
            self@.contains_key(app_name@) ==> (planned matches Err(e) && e@ == ErrorView::AlreadyRunning(
                app_name@,
            )),
            !self@.contains_key(app_name@) ==> (planned matches Ok(request) && request@ == launch_request(
                app_name@,
                command@,
                args.deep_view(),
            )),
    {
        if table_contains(&self.running_apps, app_name) {
            return Err(SDLError::AlreadyRunning(app_name.to_owned()));
        }
        Ok(
            LaunchRequest {
                name: app_name.to_owned(),
                command: command.to_owned(),
                args: copy_strings(args),
                canvas: text_eq(command, sentinel()),
            },
        )
    }

    /// Registers `app_name` with the handles of its process and window. A
    /// name that is registered keeps its entry, and the call is refused.
    pub fn store_window(&mut self, app_name: &str, process: u32, window: u32) -> (stored: Result<(), SDLError>)
        ensures
            old(self)@.contains_key(app_name@) ==> final(self)@ == old(self)@ && (stored matches Err(e) && e@
                == ErrorView::AlreadyRunning(app_name@)),
            !old(self)@.contains_key(app_name@) ==> final(self)@ == old(self)@.insert(app_name@, (process, window))
                && stored is Ok,
    {
        if table_contains(&self.running_apps, app_name) {
            return Err(SDLError::AlreadyRunning(app_name.to_owned()));
        }
        let _ = table_insert(&mut self.running_apps, app_name.to_owned(), (process, window));
        Ok(())
    }

    /// The process and window identifiers of `app_name`, if it is registered:
    /// what is to be terminated and released when the scene is stopped.
    pub fn get_handles(&self, app_name: &str) -> (handles: Option<(u32, u32)>)
        ensures
            handles == (if self@.contains_key(app_name@) {
                Some(self@[app_name@])
            } else {
                None
            }),
    {
        table_get(&self.running_apps, app_name)
    }

    /// Settles the stop of `app_name`, given how the termination of its
    /// process went. A name that is not registered is refused. Where the
    /// process could not be terminated, the stop is refused with the reason
    /// and the entry stays. Where it was terminated, the entry leaves the
    /// registry and its identifiers are handed back.
    pub fn stop_app(&mut self, app_name: &str, terminated: Result<(), String>) -> (stopped: Result<(u32, u32), SDLError>)
        ensures
            final(self)@ == stop_result(old(self)@, app_name@, termination_view(terminated)).0,
            error_view(stopped) == stop_result(old(self)@, app_name@, termination_view(terminated)).1,
    {
        if !table_contains(&self.running_apps, app_name) {
            return Err(SDLError::NotFound(app_name.to_owned()));
        }
        match terminated {
            Err(reason) => Err(SDLError::SDLError(reason)),
            Ok(()) => match table_remove(&mut self.running_apps, app_name) {
                Some(handles) => Ok(handles),
                None => Err(SDLError::NotFound(app_name.to_owned())),
            },
        }
    }

    /// The window identifier of `app_name`, if it is registered.
    pub fn get_window(&self, app_name: &str) -> (window: Option<u32>)
        ensures
            window == (if self@.contains_key(app_name@) {
                Some(self@[app_name@].1)
            } else {
                None
            }),
    {
        match table_get(&self.running_apps, app_name) {
            Some(handles) => Some(handles.1),
            None => None,
        }
    }

    /// The window identifier of `app_name`; an unregistered name is an error.
    pub fn get_window_obj(&self, app_name: &str) -> (window: Result<u32, SDLError>)
        ensures
            self@.contains_key(app_name@) ==> window == Ok::<u32, SDLError>(self@[app_name@].1),
            !self@.contains_key(app_name@) ==> (window matches Err(e) && e@ == ErrorView::NotFound(app_name@)),
    {
        match table_get(&self.running_apps, app_name) {
            Some(handles) => Ok(handles.1),
            None => Err(SDLError::NotFound(app_name.to_owned())),
        }
    }

    /// Every registered name, once each. The order is not fixed.
    pub fn get_running_apps(&self) -> (names: Vec<String>)
        ensures
            self@.dom().finite(),
            names.deep_view().no_duplicates(),
            names.deep_view().to_set() == self@.dom(),
            names.len() == self@.dom().len(),
    {
        let names = table_keys(&self.running_apps);
        proof {
            assert(names.deep_view().to_set() =~= self@.dom());
            names.deep_view().unique_seq_to_set();
            assert(names.deep_view().len() == names.len());
        }
        names
    }

    /// Every scene that is registered, once each, with its process and window
    /// identifiers: what is to be terminated when all scenes go down. The
    /// registry itself changes when each stop is settled. The order is not
    /// fixed.
    pub fn cleanup(&self) -> (running: Vec<StoppedApp>)
        ensures
            lists_entries(stopped_views(running@), self@),
            running.len() == self@.dom().len(),
    {
        let names = self.get_running_apps();
        let ghost keys = names.deep_view();
        let mut running: Vec<StoppedApp> = Vec::new();
        let mut i: usize = 0;
        while i < names.len()
            invariant
                i <= names.len(),
                keys == names.deep_view(),
                keys.no_duplicates(),
                keys.to_set() == self@.dom(),
                running.len() == i,
                forall|j: int|
                    0 <= j < i ==> (#[trigger] running@[j])@.name == keys[j] && self@[keys[j]] == (
                        running@[j].process,
                        running@[j].window,
                    ),
            decreases names.len() - i,
        {
            let name = names[i].clone();
            assert(name@ == keys[i as int]);
            assert(keys.to_set().contains(keys[i as int]));
            match self.get_handles(name.as_str()) {
                Some(handles) => {
                    running.push(StoppedApp { name, process: handles.0, window: handles.1 });
                },
                None => {
                    assert(false);
                },
            }
            i += 1;
        }
        proof {
            let views = stopped_views(running@);
            assert forall|name: Seq<char>| #[trigger] self@.contains_key(name) implies exists|j: int|
                0 <= j < views.len() && #[trigger] views[j].name == name by {
                assert(keys.to_set().contains(name));
                let j = choose|j: int| 0 <= j < keys.len() && keys[j] == name;
                assert(views[j].name == name);
            }
            assert forall|a: int, b: int| 0 <= a < b < views.len() implies views[a].name != views[b].name by {
                assert(views[a].name == keys[a]);
                assert(views[b].name == keys[b]);
            }
            assert forall|a: int| 0 <= a < views.len() implies self@.contains_key(#[trigger] views[a].name)
                && self@[views[a].name] == (views[a].process, views[a].window) by {
                assert(views[a].name == keys[a]);
                assert(keys.to_set().contains(keys[a]));
            }
        }
        running
    }

    /// Whether the agent has to quit: it has once the window system reported `Quit`.
    pub fn pump_events(&self, events: &Vec<HostEvent>) -> (quit: bool)
        ensures
            quit == events@.contains(HostEvent::Quit),
    {
        let mut i: usize = 0;
        while i < events.len()
            invariant
                i <= events.len(),
                forall|j: int| 0 <= j < i ==> events@[j] != HostEvent::Quit,
            decreases events.len() - i,
        {
            match events[i] {
                HostEvent::Quit => {
                    return true;
                },
                HostEvent::Other => {},
            }
            i += 1;
        }
        false
    }
}

} // verus!
