//! What holds over whole runs of the orchestrator: how the registry's size
//! follows the starts and stops that went through, and what shutdown leaves.

use vstd::prelude::*;
use crate::app_manager::{ActionView, EventView, ManagerView, Outcome};
use crate::command::{builtin_names_differ, CommandView};
use crate::error::ErrorView;

verus! {

/// A start or a stop, as it reaches the orchestrator. A start carries what
/// the display host answers in case the launch is asked for: the handles of
/// the launched scene, or nothing where the launch fails. A stop carries
/// what the display host answers in case the termination is asked for: that
/// the process was terminated, or why it could not be.
pub enum Request {
    Start { name: Seq<char>, command: Seq<char>, args: Seq<Seq<char>>, launch: Option<(u32, u32)> },
    Stop { name: Seq<char>, terminated: Result<(), Seq<char>> },
}

impl ManagerView {
    /// Whether `request` goes through. A start goes through where the launch
    /// is asked for, succeeds and is registered; a stop where the name is
    /// registered and its process is terminated.
    pub open spec fn goes_through(self, request: Request) -> bool {
        match request {
            Request::Start { name, launch, .. } => self.registers(name) && launch is Some,
            Request::Stop { name, terminated } => self.stops(name, terminated),
        }
    }

    /// The orchestrator after `request`: after the command and, where it
    /// asked for a launch or a termination, the report of how that went.
    pub open spec fn after_request(self, request: Request) -> ManagerView {
        match request {
            Request::Start { name, command, args, launch } => {
                let asked = self.after(EventView::Command(CommandView::Start { name, command, args }));
                if self.start_outcome(name, command, args) matches Ok(actions) && actions.len() == 1 {
                    match launch {
                        Some((process, window)) => asked.after(
                            EventView::Launched { name, foreground: false, process, window },
                        ),
                        None => asked,
                    }
                } else {
                    asked
                }
            },
            Request::Stop { name, terminated } => {
                let asked = self.after(EventView::Command(CommandView::Stop { name }));
                if self.stop_outcome(name) is Ok {
                    match terminated {
                        Ok(_) => asked.after(EventView::Terminated { name }),
                        Err(reason) => asked.after(EventView::TerminateFailed { name, reason }),
                    }
                } else {
                    asked
                }
            },
        }
    }

    /// The orchestrator after `requests`, in order.
    pub open spec fn after_requests(self, requests: Seq<Request>) -> ManagerView
        decreases requests.len(),
    {
        if requests.len() == 0 {
            self
        } else {
            self.after_requests(requests.drop_last()).after_request(requests.last())
        }
    }

    /// How many starts among `requests` went through.
    pub open spec fn starts_through(self, requests: Seq<Request>) -> nat
        decreases requests.len(),
    {
        if requests.len() == 0 {
            0
        } else {
            let before = self.after_requests(requests.drop_last());
            let counted = self.starts_through(requests.drop_last());
            if requests.last() is Start && before.goes_through(requests.last()) {
                counted + 1
            } else {
                counted
            }
        }
    }

    /// How many stops among `requests` went through.
    pub open spec fn stops_through(self, requests: Seq<Request>) -> nat
        decreases requests.len(),
    {
        if requests.len() == 0 {
            0
        } else {
            let before = self.after_requests(requests.drop_last());
            let counted = self.stops_through(requests.drop_last());
            if requests.last() is Stop && before.goes_through(requests.last()) {
                counted + 1
            } else {
                counted
            }
        }
    }

    /// The orchestrator after the terminations of `names` were reported, in order.
    pub open spec fn after_terminations(self, names: Seq<Seq<char>>) -> ManagerView
        decreases names.len(),
    {
        if names.len() == 0 {
            self
        } else {
            self.after_terminations(names.drop_last()).after(EventView::Terminated { name: names.last() })
        }
    }

    /// The orchestrator after `events`, in order.
    pub open spec fn after_events(self, events: Seq<EventView>) -> ManagerView
        decreases events.len(),
    {
        if events.len() == 0 {
            self
        } else {
            self.after_events(events.drop_last()).after(events.last())
        }
    }
}

/// No event breaks what always holds of an orchestrator.
pub proof fn lemma_inv_is_kept(manager: ManagerView, event: EventView)
    requires
        manager.inv(),
    ensures
        manager.after(event).inv(),
{
    builtin_names_differ();
}

/// One start or stop changes the registry's size by one where it goes
/// through, and changes nothing of the registry where it does not: a start
/// of a running name, a launch that fails, a stop of an unknown name, a
/// termination that fails.
pub proof fn lemma_request_counts(manager: ManagerView, request: Request)
    requires
        manager.inv(),
    ensures
        manager.after_request(request).inv(),
        request is Start && manager.goes_through(request) ==> manager.after_request(request).running.dom().len()
            == manager.running.dom().len() + 1,
        request is Stop && manager.goes_through(request) ==> manager.after_request(request).running.dom().len()
            == manager.running.dom().len() - 1,
        !manager.goes_through(request) ==> manager.after_request(request).running == manager.running,
{
    builtin_names_differ();
    match request {
        Request::Start { name, command, args, launch } => {},
        Request::Stop { name, terminated } => {
            if manager.stops(name, terminated) {
                assert(manager.running.remove(name).dom() =~= manager.running.dom().remove(name));
            }
        },
    }
}

/// Over any run of starts and stops, the registry's size is its size at the
/// outset, plus the starts that went through, minus the stops that went
/// through.
pub proof fn lemma_registry_size(manager: ManagerView, requests: Seq<Request>)
    requires
        manager.inv(),
    ensures
        manager.after_requests(requests).inv(),
        manager.after_requests(requests).running.dom().len() == manager.running.dom().len()
            + manager.starts_through(requests) - manager.stops_through(requests),
    decreases requests.len(),
{
    if requests.len() > 0 {
        lemma_registry_size(manager, requests.drop_last());
        lemma_request_counts(manager.after_requests(requests.drop_last()), requests.last());
    }
}

/// A start of a name that does not run adds that name and nothing else. The
/// command itself asks for the launch and changes nothing; once the launch
/// is reported, the registry is the old one with the name added under the
/// reported handles: one entry more, every other entry as before. Once
/// shutdown has begun the start is passed over, and a launch reported late
/// is not registered.
pub proof fn lemma_start_adds_one_entry(manager: ManagerView, name: Seq<char>, command: Seq<char>, args: Seq<Seq<char>>, process: u32, window: u32)
    requires
        manager.inv(),
        !manager.running.contains_key(name),
    ensures
        manager.after(EventView::Command(CommandView::Start { name, command, args })) == manager,
        !manager.stopping ==> {
            let after = manager.after(EventView::Launched { name, foreground: false, process, window });
            &&& manager.start_outcome(name, command, args) == Ok::<Seq<ActionView>, ErrorView>(
                seq![
                    ActionView::Launch {
                        request: ManagerView::start_request(name, command, args),
                        foreground: false,
                    },
                ],
            )
            &&& manager.launched_outcome(name, false, process, window) is Ok
            &&& after.inv()
            &&& after.running == manager.running.insert(name, (process, window))
            &&& after.running.dom() == manager.running.dom().insert(name)
            &&& after.running.dom().len() == manager.running.dom().len() + 1
            &&& forall|other: Seq<char>|
                other != name ==> (after.running.contains_key(other) <==> manager.running.contains_key(other))
            &&& forall|other: Seq<char>| #[trigger]
                manager.running.contains_key(other) ==> after.running[other] == manager.running[other]
        },
        manager.stopping ==> {
            &&& manager.start_outcome(name, command, args) == Ok::<Seq<ActionView>, ErrorView>(seq![])
            &&& manager.after(EventView::Launched { name, foreground: false, process, window }) == manager
        },
{
    builtin_names_differ();
    if !manager.stopping {
        assert(manager.running.insert(name, (process, window)).dom() =~= manager.running.dom().insert(name));
    }
}

/// Starting a name that runs is refused as already running, and changes
/// neither the registry nor anything else.
pub proof fn lemma_second_start_is_refused(manager: ManagerView, name: Seq<char>, command: Seq<char>, args: Seq<Seq<char>>, launch: Option<(u32, u32)>)
    requires
        manager.inv(),
        manager.running.contains_key(name),
    ensures
        manager.command_outcome(CommandView::Start { name, command, args }) == Err::<Seq<ActionView>, ErrorView>(
            ErrorView::AlreadyRunning(name),
        ),
        manager.after(EventView::Command(CommandView::Start { name, command, args })) == manager,
        manager.after_request(Request::Start { name, command, args, launch }) == manager,
        !manager.goes_through(Request::Start { name, command, args, launch }),
{
    assert(manager.running.dom().contains(name));
}

/// A stop of a registered name takes that name out and nothing else, once
/// its termination is reported. The command itself asks for the termination
/// and changes nothing; afterwards the registry is the old one without the
/// name: one entry less, every other entry as before.
pub proof fn lemma_stop_removes_one_entry(manager: ManagerView, name: Seq<char>)
    requires
        manager.inv(),
        manager.running.contains_key(name),
    ensures
        manager.stop_outcome(name) == Ok::<Seq<ActionView>, ErrorView>(
            seq![ActionView::Terminate { name, process: manager.running[name].0, window: manager.running[name].1 }],
        ),
        manager.after(EventView::Command(CommandView::Stop { name })) == manager,
        manager.stopped_outcome(name, Ok(())) == Ok::<Seq<ActionView>, ErrorView>(seq![]),
        manager.after(EventView::Terminated { name }).inv(),
        manager.after(EventView::Terminated { name }).running == manager.running.remove(name),
        manager.after(EventView::Terminated { name }).running.dom().len() == manager.running.dom().len() - 1,
        manager.goes_through(Request::Stop { name, terminated: Ok(()) }),
{
    builtin_names_differ();
    assert(manager.running.remove(name).dom() =~= manager.running.dom().remove(name));
}

/// A stop that does not succeed changes nothing. Where the process of a
/// registered name cannot be terminated, the stop is refused with the
/// reason, and the registry, its size and the scene in front are as before.
/// A stop of a name that is not registered is refused as not found, whatever
/// is reported of a termination.
pub proof fn lemma_failed_stop_changes_nothing(manager: ManagerView, name: Seq<char>, reason: Seq<char>)
    requires
        manager.inv(),
    ensures
        manager.after(EventView::TerminateFailed { name, reason }) == manager,
        manager.after_request(Request::Stop { name, terminated: Err(reason) }) == manager,
        !manager.goes_through(Request::Stop { name, terminated: Err(reason) }),
        manager.running.contains_key(name) ==> manager.stopped_outcome(name, Err(reason)) == Err::<
            Seq<ActionView>,
            ErrorView,
        >(ErrorView::SDLError(reason)),
        !manager.running.contains_key(name) ==> {
            &&& manager.stop_outcome(name) == Err::<Seq<ActionView>, ErrorView>(ErrorView::NotFound(name))
            &&& manager.stopped_outcome(name, Err(reason)) == Err::<Seq<ActionView>, ErrorView>(
                ErrorView::NotFound(name),
            )
            &&& manager.stopped_outcome(name, Ok(())) == Err::<Seq<ActionView>, ErrorView>(ErrorView::NotFound(name))
            &&& manager.after(EventView::Terminated { name }) == manager
        },
{
}

/// Shutdown stops the channel first and then reaches every scene that was
/// registered exactly once: for each there is one action that asks for its
/// termination, with its own handles, and no second one; and nothing else is
/// to be terminated. No failure of one stop keeps another from being asked
/// for: the actions do not depend on how any termination goes. Each scene
/// leaves the registry when its termination is reported.
pub proof fn lemma_shutdown_stops_each_once(manager: ManagerView, actions: Seq<ActionView>, name: Seq<char>)
    requires
        manager.inv(),
        !manager.stopping,
        manager.allows(EventView::Shutdown, Ok(actions)),
    ensures
        actions.len() == manager.running.dom().len() + 1,
        actions[0] == ActionView::StopChannel,
        manager.running.contains_key(name) ==> exists|i: int|
            1 <= i < actions.len() && #[trigger] actions[i] == (ActionView::Terminate {
                name,
                process: manager.running[name].0,
                window: manager.running[name].1,
            }) && forall|j: int| 1 <= j < actions.len() && j != i ==> (#[trigger] actions[j])->Terminate_name != name,
        !manager.running.contains_key(name) ==> forall|j: int|
            1 <= j < actions.len() ==> (#[trigger] actions[j])->Terminate_name != name,
        manager.after(EventView::Shutdown).inv(),
        manager.after(EventView::Shutdown).stopping,
        manager.after(EventView::Shutdown).running == manager.running,
        manager.after(EventView::Shutdown).active == manager.active,
{
    let stops = actions.subrange(1, actions.len() as int);
    assert forall|j: int| 1 <= j < actions.len() implies #[trigger] actions[j] == stops[j - 1] by {}
    if manager.running.contains_key(name) {
        let k = choose|k: int| 0 <= k < stops.len() && #[trigger] stops[k]->Terminate_name == name;
        let i = k + 1;
        assert(stops[k] is Terminate);
        assert(actions[i] == stops[k]);
        assert forall|j: int| 1 <= j < actions.len() && j != i implies (#[trigger] actions[j])->Terminate_name
            != name by {
            assert(actions[j] == stops[j - 1]);
            if j - 1 < k {
                assert(stops[j - 1]->Terminate_name != stops[k]->Terminate_name);
            } else {
                assert(stops[k]->Terminate_name != stops[j - 1]->Terminate_name);
            }
        }
    } else {
        assert forall|j: int| 1 <= j < actions.len() implies (#[trigger] actions[j])->Terminate_name != name by {
            assert(actions[j] == stops[j - 1]);
            assert(manager.running.contains_key(stops[j - 1]->Terminate_name));
        }
    }
    let names = stops.map_values(|a: ActionView| a->Terminate_name);
    assert(names.no_duplicates()) by {
        assert forall|a: int, b: int| 0 <= a < names.len() && 0 <= b < names.len() && a != b implies names[a]
            != names[b] by {
            if a < b {
                assert(stops[a]->Terminate_name != stops[b]->Terminate_name);
            } else {
                assert(stops[b]->Terminate_name != stops[a]->Terminate_name);
            }
        }
    }
    assert(names.to_set() =~= manager.running.dom()) by {
        assert forall|n: Seq<char>| names.to_set().contains(n) <==> manager.running.dom().contains(n) by {
            if names.to_set().contains(n) {
                let a = choose|a: int| 0 <= a < names.len() && names[a] == n;
                assert(manager.running.contains_key(stops[a]->Terminate_name));
            }
            if manager.running.contains_key(n) {
                let a = choose|a: int| 0 <= a < stops.len() && #[trigger] stops[a]->Terminate_name == n;
                assert(names[a] == n);
            }
        }
    }
    names.unique_seq_to_set();
}

/// Reported terminations take out the scenes that they name and no other.
/// Where every registered scene is among them, as after a shutdown all of
/// whose stops succeed, nothing is registered and nothing is in front
/// afterwards; a scene whose termination was not reported stays registered.
pub proof fn lemma_terminations_clear_the_registry(manager: ManagerView, names: Seq<Seq<char>>)
    requires
        manager.inv(),
    ensures
        manager.after_terminations(names).inv(),
        manager.after_terminations(names).stopping == manager.stopping,
        forall|name: Seq<char>|
            #![trigger manager.after_terminations(names).running.contains_key(name)]
            manager.after_terminations(names).running.contains_key(name) <==> (manager.running.contains_key(name)
                && !names.contains(name)),
        forall|name: Seq<char>| #[trigger]
            manager.after_terminations(names).running.contains_key(name) ==> manager.after_terminations(
                names,
            ).running[name] == manager.running[name],
        (forall|name: Seq<char>| manager.running.contains_key(name) ==> names.contains(name)) ==> {
            &&& manager.after_terminations(names).running.dom().is_empty()
            &&& manager.after_terminations(names).active is None
        },
    decreases names.len(),
{
    builtin_names_differ();
    let after = manager.after_terminations(names);
    if names.len() > 0 {
        lemma_terminations_clear_the_registry(manager, names.drop_last());
    }
    assert forall|name: Seq<char>|
        #![trigger after.running.contains_key(name)]
        after.running.contains_key(name) <==> (manager.running.contains_key(name) && !names.contains(name)) by {
        if names.len() > 0 {
            let earlier = names.drop_last();
            let last = names.last();
            let before = manager.after_terminations(earlier);
            assert(after == before.after(EventView::Terminated { name: last }));
            assert(before.running.contains_key(name) <==> (manager.running.contains_key(name) && !earlier.contains(
                name,
            )));
            assert(names[names.len() - 1] == last);
            if earlier.contains(name) {
                let i = choose|i: int| 0 <= i < earlier.len() && earlier[i] == name;
                assert(names[i] == name);
            }
            if names.contains(name) && name != last {
                let i = choose|i: int| 0 <= i < names.len() && names[i] == name;
                assert(earlier[i] == name);
            }
        }
    }
    if forall|name: Seq<char>| manager.running.contains_key(name) ==> names.contains(name) {
        assert forall|name: Seq<char>| !after.running.dom().contains(name) by {
            assert(after.running.contains_key(name) <==> (manager.running.contains_key(name) && !names.contains(
                name,
            )));
        }
        assert(after.running.dom() =~= Set::empty());
        match after.active {
            Some(name) => {
                assert(after.running.dom().contains(name));
            },
            None => {},
        }
    }
}

/// Once shutdown has begun, no event has anything launched, focused or
/// hidden, and nothing is registered again: a start and a switch are passed
/// over, a scene whose launch is reported late is terminated, and the
/// registry only loses entries, as terminations are reported.
pub proof fn lemma_nothing_starts_after_shutdown(manager: ManagerView, event: EventView, outcome: Outcome)
    requires
        manager.inv(),
        manager.stopping,
        manager.allows(event, outcome),
    ensures
        manager.after(event).inv(),
        manager.after(event).stopping,
        forall|name: Seq<char>| #[trigger]
            manager.after(event).running.contains_key(name) ==> manager.running.contains_key(name)
                && manager.after(event).running[name] == manager.running[name],
        event matches EventView::Command(CommandView::Start { name, .. }) ==> manager.after(event) == manager && (
        outcome == Ok::<Seq<ActionView>, ErrorView>(seq![]) || outcome == Err::<Seq<ActionView>, ErrorView>(
            ErrorView::AlreadyRunning(name),
        )),
        outcome matches Ok(actions) ==> forall|i: int|
            0 <= i < actions.len() ==> !(#[trigger] actions[i] is Launch) && !(actions[i] is Focus) && !(
            actions[i] is Minimize),
{
    builtin_names_differ();
    match event {
        EventView::Shutdown => {
            assert(outcome->Ok_0 =~= seq![]);
        },
        _ => {},
    }
}

/// Shutdown is final: whatever events follow it, shutdown stays begun and
/// nothing is registered that was not registered when it began.
pub proof fn lemma_shutdown_is_final(manager: ManagerView, events: Seq<EventView>)
    requires
        manager.inv(),
        manager.stopping,
    ensures
        manager.after_events(events).inv(),
        manager.after_events(events).stopping,
        forall|name: Seq<char>| #[trigger]
            manager.after_events(events).running.contains_key(name) ==> manager.running.contains_key(name),
    decreases events.len(),
{
    builtin_names_differ();
    if events.len() > 0 {
        lemma_shutdown_is_final(manager, events.drop_last());
        let before = manager.after_events(events.drop_last());
        lemma_inv_is_kept(before, events.last());
    }
}

} // verus!
