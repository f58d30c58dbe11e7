//! The bus's wire format: the topics of the command family and the JSON
//! bodies that they carry.

use vstd::prelude::*;
use vstd::string::*;
use crate::command::{AppCommand, CommandView};
use crate::json::{json_tree, parse_value, parsed_json, utf8_lossy, utf8_lossy_text, value_items, value_member, value_text, JsonTree};
use crate::text::text_eq;

verus! {

/// Which command a topic carries.
#[derive(Debug, Clone, Copy, PartialEq, Eq, Structural)]
pub enum CommandKind {
    Start,
    Stop,
    Switch,
}

/// The filter that covers every command topic: one level under the prefix.
pub open spec fn command_filter() -> Seq<char> {
    "app/+"@
}

/// The command that `topic` carries, where it is one of the three command topics.
pub open spec fn topic_kind(topic: Seq<char>) -> Option<CommandKind> {
    if topic == "app/start"@ {
        Some(CommandKind::Start)
    } else if topic == "app/stop"@ {
        Some(CommandKind::Stop)
    } else if topic == "app/switch"@ {
        Some(CommandKind::Switch)
    } else {
        None
    }
}

/// The three command topics differ, so each carries its own kind.
pub proof fn lemma_command_topics_differ()
    ensures
        topic_kind("app/start"@) == Some(CommandKind::Start),
        topic_kind("app/stop"@) == Some(CommandKind::Stop),
        topic_kind("app/switch"@) == Some(CommandKind::Switch),
{
    reveal_strlit("app/start");
    reveal_strlit("app/stop");
    reveal_strlit("app/switch");
    assert("app/start"@.len() == 9);
    assert("app/stop"@.len() == 8);
    assert("app/switch"@.len() == 10);
}

/// The topic on which the status of the scene `app_name` is published.
pub open spec fn status_topic(app_name: Seq<char>) -> Seq<char> {
    "app/status/"@ + app_name
}

/// The string member `key` of an object, where it has one.
pub open spec fn text_member(tree: JsonTree, key: Seq<char>) -> Option<Seq<char>> {
    match tree {
        JsonTree::Object(members) => if members.contains_key(key) {
            match members[key] {
                JsonTree::Text(text) => Some(text),
                _ => None,
            }
        } else {
            None
        },
        _ => None,
    }
}

/// Whether every element is a string.
pub open spec fn all_text(items: Seq<JsonTree>) -> bool {
    forall|i: int| 0 <= i < items.len() ==> #[trigger] items[i] is Text
}

/// The strings that the elements hold, in order.
pub open spec fn texts_of(items: Seq<JsonTree>) -> Seq<Seq<char>> {
    Seq::new(items.len(), |i: int| items[i]->Text_0)
}

/// The member `key` of an object as a list of strings, where it is an array
/// whose elements are all strings.
pub open spec fn text_list_member(tree: JsonTree, key: Seq<char>) -> Option<Seq<Seq<char>>> {
    match tree {
        JsonTree::Object(members) => if members.contains_key(key) {
            match members[key] {
                JsonTree::Array(items) => if all_text(items) {
                    Some(texts_of(items))
                } else {
                    None
                },
                _ => None,
            }
        } else {
            None
        },
        _ => None,
    }
}

/// The command of kind `kind` that a JSON body denotes. The body is an
/// object with the string member `name` and, for a start, the string member
/// `command` and the member `args`, an array of strings. Other members are
/// passed over. Anything else denotes no command.
pub open spec fn decoded(kind: CommandKind, body: JsonTree) -> Option<CommandView> {
    match kind {
        CommandKind::Start => match (
            text_member(body, "name"@),
            text_member(body, "command"@),
            text_list_member(body, "args"@),
        ) {
            (Some(name), Some(command), Some(args)) => Some(CommandView::Start { name, command, args }),
            _ => None,
        },
        CommandKind::Stop => match text_member(body, "name"@) {
            Some(name) => Some(CommandView::Stop { name }),
            None => None,
        },
        CommandKind::Switch => match text_member(body, "name"@) {
            Some(name) => Some(CommandView::Switch { name }),
            None => None,
        },
    }
}

/// The command of kind `kind` that a payload denotes: the payload is read as
/// UTF-8, then as JSON, then as a command body.
pub open spec fn decoded_payload(kind: CommandKind, payload: Seq<u8>) -> Option<CommandView> {
    match parsed_json(utf8_lossy_text(payload)) {
        Some(body) => decoded(kind, body),
        None => None,
    }
}

/// What a command says, if there is one.
pub open spec fn command_view(command: Option<AppCommand>) -> Option<CommandView> {
    match command {
        Some(c) => Some(c@),
        None => None,
    }
}

/// The command that `topic` carries, where it is one of the three command topics.
pub fn classify_topic(topic: &str) -> (kind: Option<CommandKind>)
    ensures
        kind == topic_kind(topic@),
{
    if text_eq(topic, "app/start") {
        Some(CommandKind::Start)
    } else if text_eq(topic, "app/stop") {
        Some(CommandKind::Stop)
    } else if text_eq(topic, "app/switch") {
        Some(CommandKind::Switch)
    } else {
        None
    }
}

fn read_text(body: &serde_json::Value, key: &str) -> (text: Option<String>)
    ensures
        match text_member(json_tree(*body), key@) {
            Some(expected) => text matches Some(t) && t@ == expected,
            None => text is None,
        },
{
    match value_member(body, key) {
        Some(member) => match value_text(member) {
            Some(text) => Some(text.to_owned()),
            None => None,
        },
        None => None,
    }
}

fn read_text_list(body: &serde_json::Value, key: &str) -> (list: Option<Vec<String>>)
    ensures
        match text_list_member(json_tree(*body), key@) {
            Some(expected) => list matches Some(l) && l.deep_view() == expected,
            None => list is None,
        },
{
    let member = match value_member(body, key) {
        Some(member) => member,
        None => {
            return None;
        },
    };
    let elements = match value_items(member) {
        Some(elements) => elements,
        None => {
            return None;
        },
    };
    let ghost items = json_tree(*member)->Array_0;
    let mut list: Vec<String> = Vec::new();
    let mut i: usize = 0;
    while i < elements.len()
        invariant
            i <= elements.len(),
            text_list_member(json_tree(*body), key@) == (if all_text(items) {
                Some(texts_of(items))
            } else {
                None
            }),
            elements@.len() == items.len(),
            forall|j: int| 0 <= j < items.len() ==> json_tree(#[trigger] elements@[j]) == items[j],
            list.len() == i,
            forall|j: int| 0 <= j < i ==> #[trigger] items[j] is Text,
            forall|j: int| 0 <= j < i ==> (#[trigger] list@[j])@ == items[j]->Text_0,
        decreases elements.len() - i,
    {
        match value_text(&elements[i]) {
            Some(text) => {
                list.push(text.to_owned());
            },
            None => {
                assert(!(items[i as int] is Text));
                return None;
            },
        }
        i += 1;
    }
    assert(list.deep_view() =~= texts_of(items));
    Some(list)
}

/// Reads a command of kind `kind` out of a parsed JSON body.
pub fn decode_command(kind: CommandKind, body: &serde_json::Value) -> (command: Option<AppCommand>)
    ensures
        command_view(command) == decoded(kind, json_tree(*body)),
{
    match kind {
        CommandKind::Start => {
            let name = read_text(body, "name");
            let command = read_text(body, "command");
            let args = read_text_list(body, "args");
            match (name, command, args) {
                (Some(name), Some(command), Some(args)) => Some(AppCommand::Start { name, command, args }),
                _ => None,
            }
        },
        CommandKind::Stop => match read_text(body, "name") {
            Some(name) => Some(AppCommand::Stop { name }),
            None => None,
        },
        CommandKind::Switch => match read_text(body, "name") {
            Some(name) => Some(AppCommand::Switch { name }),
            None => None,
        },
    }
}

/// Reads a command of kind `kind` out of a message's payload.
pub fn decode_payload(kind: CommandKind, payload: &[u8]) -> (command: Option<AppCommand>)
    ensures
        command_view(command) == decoded_payload(kind, payload@),
{
    let text = utf8_lossy(payload);
    match parse_value(text.as_str()) {
        Some(body) => decode_command(kind, &body),
        None => None,
    }
}

} // verus!
