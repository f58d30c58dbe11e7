//! What the focus delegate has been asked to show, and why exactly one scene
//! is in front. The delegate is outside the library; here its state is
//! followed through the events that reach the orchestrator and the actions
//! that it hands out.

use vstd::prelude::*;
use crate::app_manager::{ActionView, EventView, ManagerView};
use crate::command::{builtin_named, builtin_names_differ, BuiltinScene, CommandView};
use crate::error::ErrorView;

verus! {

/// How the focus delegate was last asked to show a scene.
pub enum Visibility {
    Focused,
    Minimized,
}

/// For each scene on screen, how the focus delegate was last asked to show it.
pub type Desktop = Map<Seq<char>, Visibility>;

/// The desktop once `event` has happened: a scene that was terminated has
/// left the screen. Asking for a termination takes nothing off the screen.
pub open spec fn settled(desktop: Desktop, event: EventView) -> Desktop {
    match event {
        EventView::Terminated { name } => desktop.remove(name),
        _ => desktop,
    }
}

/// The desktop after `action` was carried out.
pub open spec fn shown_after(desktop: Desktop, action: ActionView) -> Desktop {
    match action {
        ActionView::Focus { name, .. } => desktop.insert(name, Visibility::Focused),
        ActionView::Minimize { name, .. } => desktop.insert(name, Visibility::Minimized),
        _ => desktop,
    }
}

/// The desktop after `actions` were carried out, in order.
pub open spec fn replay(desktop: Desktop, actions: Seq<ActionView>) -> Desktop
    decreases actions.len(),
{
    if actions.len() == 0 {
        desktop
    } else {
        replay(shown_after(desktop, actions[0]), actions.drop_first())
    }
}

/// The desktop shows what the orchestrator holds: the scenes on screen are
/// the registered ones, the scene in front is focused, and every other
/// scene is minimized.
pub open spec fn in_step(manager: ManagerView, desktop: Desktop) -> bool {
    &&& desktop.dom() == manager.running.dom()
    &&& forall|name: Seq<char>| #[trigger]
        desktop.contains_key(name) ==> (desktop[name] is Focused <==> manager.active == Some(name))
}

/// Exactly one scene is focused, and it is `name`: every other scene on
/// screen is minimized.
pub open spec fn only_in_front(desktop: Desktop, name: Seq<char>) -> bool {
    &&& desktop.contains_key(name)
    &&& desktop[name] is Focused
    &&& forall|other: Seq<char>| #[trigger] desktop.contains_key(other) && other != name ==> desktop[other] is Minimized
}

/// No scene is focused: every scene on screen is minimized.
pub open spec fn none_in_front(desktop: Desktop) -> bool {
    forall|name: Seq<char>| #[trigger] desktop.contains_key(name) ==> desktop[name] is Minimized
}

/// Replaying no action changes nothing.
pub proof fn lemma_replay_none(desktop: Desktop)
    ensures
        replay(desktop, seq![]) == desktop,
{
}

/// Replaying one action carries it out.
pub proof fn lemma_replay_one(desktop: Desktop, action: ActionView)
    ensures
        replay(desktop, seq![action]) == shown_after(desktop, action),
{
    reveal_with_fuel(replay, 2);
    assert(seq![action].drop_first() =~= seq![]);
}

/// Replaying two actions carries out the first, then the second.
pub proof fn lemma_replay_two(desktop: Desktop, first: ActionView, second: ActionView)
    ensures
        replay(desktop, seq![first, second]) == shown_after(shown_after(desktop, first), second),
{
    assert(seq![first, second].drop_first() =~= seq![second]);
    lemma_replay_one(shown_after(desktop, first), second);
}

/// Actions that ask for no focus and no hiding leave the desktop as it is.
pub proof fn lemma_replay_leaves_screen(desktop: Desktop, actions: Seq<ActionView>)
    requires
        forall|i: int| 0 <= i < actions.len() ==> !(#[trigger] actions[i] is Focus) && !(actions[i] is Minimize),
    ensures
        replay(desktop, actions) == desktop,
    decreases actions.len(),
{
    if actions.len() > 0 {
        let rest = actions.drop_first();
        assert forall|i: int| 0 <= i < rest.len() implies !(#[trigger] rest[i] is Focus) && !(rest[i] is Minimize) by {
            assert(rest[i] == actions[i + 1]);
        }
        assert(shown_after(desktop, actions[0]) == desktop);
        lemma_replay_leaves_screen(desktop, rest);
    }
}

/// At startup the desktop shows what the orchestrator holds: nothing runs,
/// and nothing is on screen.
pub proof fn lemma_desktop_starts_in_step(broker: Seq<char>, port: u16, default_scene: BuiltinScene, hostname: Seq<char>)
    ensures
        ManagerView::initial(broker, port, default_scene, hostname).inv(),
        in_step(ManagerView::initial(broker, port, default_scene, hostname), Map::empty()),
{
    reveal_strlit("protosuit-engine-client-");
    let initial = ManagerView::initial(broker, port, default_scene, hostname);
    assert(initial.running.dom() =~= Set::empty());
    assert(Map::<Seq<char>, Visibility>::empty().dom() =~= initial.running.dom());
}

/// The desktop follows the orchestrator through every event: where the
/// desktop showed what the orchestrator held, it does so again once the
/// event has happened and its actions are carried out. So at every moment
/// at most one scene is focused, the one in front, and every other
/// registered scene is minimized. An event that is refused changes neither.
pub proof fn lemma_desktop_follows(manager: ManagerView, desktop: Desktop, event: EventView, actions: Seq<ActionView>)
    requires
        manager.inv(),
        in_step(manager, desktop),
        manager.allows(event, Ok(actions)),
    ensures
        manager.after(event).inv(),
        in_step(manager.after(event), replay(settled(desktop, event), actions)),
{
    builtin_names_differ();
    let next = manager.after(event);
    match event {
        EventView::Startup => {
            lemma_switch_follows(manager, desktop, manager.default_scene.identifier_spec());
        },
        EventView::Command(command) => {
            match command {
                CommandView::Start { name, command, args } => {
                    if manager.stopping {
                        lemma_replay_none(desktop);
                    } else {
                        lemma_replay_one(desktop, actions[0]);
                        assert(actions =~= seq![actions[0]]);
                    }
                },
                CommandView::Stop { name } => {
                    lemma_replay_one(desktop, actions[0]);
                    assert(actions =~= seq![actions[0]]);
                },
                CommandView::Switch { name } => {
                    lemma_switch_follows(manager, desktop, name);
                },
            }
        },
        EventView::Launched { name, foreground, process, window } => {
            if manager.stopping {
                lemma_replay_one(desktop, actions[0]);
                assert(actions =~= seq![actions[0]]);
                assert(replay(desktop, actions).dom() =~= next.running.dom());
            } else if manager.fronts(foreground) {
                let focus = ActionView::Focus { name, window };
                match manager.active {
                    Some(previous) => {
                        let hide = ActionView::Minimize { name: previous, window: manager.running[previous].1 };
                        assert(actions =~= seq![hide, focus]);
                        lemma_replay_two(desktop, hide, focus);
                    },
                    None => {
                        assert(actions =~= seq![focus]);
                        lemma_replay_one(desktop, focus);
                    },
                }
                assert(replay(desktop, actions).dom() =~= next.running.dom());
            } else {
                let hide = ActionView::Minimize { name, window };
                assert(actions =~= seq![hide]);
                lemma_replay_one(desktop, hide);
                assert(replay(desktop, actions).dom() =~= next.running.dom());
            }
        },
        EventView::LaunchFailed { .. } => {},
        EventView::Terminated { name } => {
            lemma_replay_none(desktop.remove(name));
            assert(actions =~= seq![]);
            assert(desktop.remove(name).dom() =~= next.running.dom());
        },
        EventView::TerminateFailed { .. } => {},
        EventView::Connectivity(status) => {
            lemma_replay_none(desktop);
        },
        EventView::Tick => {
            if actions.len() == 0 {
                lemma_replay_none(desktop);
                assert(actions =~= seq![]);
            } else {
                lemma_replay_one(desktop, actions[0]);
                assert(actions =~= seq![actions[0]]);
            }
        },
        EventView::Shutdown => {
            if manager.stopping {
                lemma_replay_none(desktop);
            } else {
                assert forall|i: int| 0 <= i < actions.len() implies !(#[trigger] actions[i] is Focus) && !(
                actions[i] is Minimize) by {
                    if i > 0 {
                        assert(actions[i] == actions.subrange(1, actions.len() as int)[i - 1]);
                    }
                }
                lemma_replay_leaves_screen(desktop, actions);
            }
        },
    }
}

/// The desktop follows the orchestrator through a switch.
proof fn lemma_switch_follows(manager: ManagerView, desktop: Desktop, name: Seq<char>)
    requires
        manager.inv(),
        in_step(manager, desktop),
    ensures
        manager.after_switch(name).inv(),
        in_step(manager.after_switch(name), replay(desktop, manager.switch_outcome(name)->Ok_0)),
{
    let actions = manager.switch_outcome(name)->Ok_0;
    if manager.stopping || builtin_named(name) is None {
        lemma_replay_none(desktop);
    } else if manager.running.contains_key(name) {
        let focus = ActionView::Focus { name, window: manager.running[name].1 };
        match manager.active {
            Some(previous) => {
                if previous == name {
                    assert(actions =~= seq![focus]);
                    lemma_replay_one(desktop, focus);
                } else {
                    let hide = ActionView::Minimize { name: previous, window: manager.running[previous].1 };
                    assert(actions =~= seq![hide, focus]);
                    lemma_replay_two(desktop, hide, focus);
                }
            },
            None => {
                assert(actions =~= seq![focus]);
                lemma_replay_one(desktop, focus);
            },
        }
        assert(replay(desktop, actions).dom() =~= manager.after_switch(name).running.dom());
    } else {
        lemma_replay_one(desktop, actions[0]);
        assert(actions =~= seq![actions[0]]);
    }
}

/// `actions` focus exactly one window, that of `name`: the last action asks
/// for the focus on `window` for `name`, and no action before it asks for a
/// focus.
pub open spec fn focuses_only(actions: Seq<ActionView>, name: Seq<char>, window: u32) -> bool {
    &&& actions.len() >= 1
    &&& actions.last() == (ActionView::Focus { name, window })
    &&& forall|i: int| 0 <= i < actions.len() - 1 ==> !(#[trigger] actions[i] is Focus)
}

/// A switch to a built-in scene puts exactly that scene in front. Where the
/// scene is registered, the switch itself does: its actions focus the
/// scene's window and no other, and afterwards the scene is the one in
/// front, it is focused, and every other registered scene is minimized.
/// Where it is not, the switch has it launched, and the same holds once the
/// launch is reported, whatever handles the scene got. Once shutdown has
/// begun the switch is passed over: nothing is launched or focused, and
/// nothing changes.
pub proof fn lemma_switch_puts_one_in_front(manager: ManagerView, desktop: Desktop, name: Seq<char>, process: u32, window: u32)
    requires
        manager.inv(),
        in_step(manager, desktop),
        builtin_named(name) is Some,
    ensures
        manager.switch_outcome(name) is Ok,
        manager.stopping ==> {
            &&& manager.switch_outcome(name) == Ok::<Seq<ActionView>, ErrorView>(seq![])
            &&& manager.after(EventView::Command(CommandView::Switch { name })) == manager
            &&& replay(desktop, manager.switch_outcome(name)->Ok_0) == desktop
        },
        !manager.stopping && manager.running.contains_key(name) ==> {
            let after = manager.after(EventView::Command(CommandView::Switch { name }));
            let actions = manager.switch_outcome(name)->Ok_0;
            let shown = replay(desktop, actions);
            &&& focuses_only(actions, name, manager.running[name].1)
            &&& after.active == Some(name)
            &&& after.running == manager.running
            &&& in_step(after, shown)
            &&& only_in_front(shown, name)
        },
        !manager.stopping && !manager.running.contains_key(name) ==> {
            let asked = manager.after(EventView::Command(CommandView::Switch { name }));
            let after = asked.after(EventView::Launched { name, foreground: true, process, window });
            let actions = asked.launched_outcome(name, true, process, window)->Ok_0;
            let shown = replay(desktop, actions);
            &&& asked == manager
            &&& manager.switch_outcome(name)->Ok_0.len() == 1
            &&& manager.switch_outcome(name)->Ok_0[0] is Launch
            &&& asked.launched_outcome(name, true, process, window) is Ok
            &&& focuses_only(actions, name, window)
            &&& after.active == Some(name)
            &&& after.running == manager.running.insert(name, (process, window))
            &&& in_step(after, shown)
            &&& only_in_front(shown, name)
        },
{
    if manager.stopping {
        lemma_replay_none(desktop);
    } else if manager.running.contains_key(name) {
        lemma_desktop_follows(
            manager,
            desktop,
            EventView::Command(CommandView::Switch { name }),
            manager.switch_outcome(name)->Ok_0,
        );
    } else {
        lemma_desktop_follows(
            manager,
            desktop,
            EventView::Launched { name, foreground: true, process, window },
            manager.launched_outcome(name, true, process, window)->Ok_0,
        );
    }
}

/// Stopping the scene in front leaves nothing in front. The stop asks for
/// the scene's termination and changes nothing yet. Once the termination is
/// reported, the scene has left the registry and the screen, nothing is in
/// front, no scene is focused in its place, and every scene that is left is
/// minimized, as it was. Where the termination fails, the stop is refused and
/// the scene stays registered and in front.
pub proof fn lemma_stop_of_active_leaves_none_in_front(manager: ManagerView, desktop: Desktop, name: Seq<char>, reason: Seq<char>)
    requires
        manager.inv(),
        in_step(manager, desktop),
        manager.active == Some(name),
    ensures
        manager.stop_outcome(name) == Ok::<Seq<ActionView>, ErrorView>(
            seq![ActionView::Terminate { name, process: manager.running[name].0, window: manager.running[name].1 }],
        ),
        manager.after(EventView::Command(CommandView::Stop { name })) == manager,
        manager.stopped_outcome(name, Ok(())) == Ok::<Seq<ActionView>, ErrorView>(seq![]),
        manager.after(EventView::Terminated { name }).active is None,
        manager.after(EventView::Terminated { name }).running == manager.running.remove(name),
        in_step(manager.after(EventView::Terminated { name }), desktop.remove(name)),
        none_in_front(desktop.remove(name)),
        manager.stopped_outcome(name, Err(reason)) == Err::<Seq<ActionView>, ErrorView>(ErrorView::SDLError(reason)),
        manager.after(EventView::TerminateFailed { name, reason }) == manager,
        only_in_front(desktop, name),
{
    lemma_desktop_follows(manager, desktop, EventView::Terminated { name }, seq![]);
    lemma_replay_none(desktop.remove(name));
}

} // verus!
