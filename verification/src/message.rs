//! The command dispatcher: decodes one inbound line and decides what the
//! window host does with it.
//!
//! A line is a window command when it is a JSON object whose `command` member
//! names one and whose `data` member fits it. Every other line is an opaque
//! payload and is handed to the content surface as it is.

use vstd::prelude::*;
use serde_json::Value;
use crate::text::same_text;

verus! {

/// Title of the shell's window, which also addresses it for external
/// activation.
pub const WINDOW_TITLE: &'static str = "NeoAI Chat";

/// Name of the member that selects the command.
pub const TAG_MEMBER: &'static str = "command";

/// Name of the member that holds the command's payload.
pub const CONTENT_MEMBER: &'static str = "data";

/// A window command received from the external process.
#[derive(Debug, Clone, Copy, PartialEq, Eq, Structural)]
pub enum InboundMessage {
    /// Bring the window to the foreground.
    Focus,
    /// Set the window's always-on-top flag.
    SetAlwaysOnTop(bool),
}

/// One member of a JSON object, as far as the dispatcher looks at it.
#[derive(Debug)]
pub enum JsonField {
    /// The object has no such member.
    Absent,
    Null,
    Bool(bool),
    Text(String),
    /// A number, an array or an object.
    Other,
}

/// A [`JsonField`] as a mathematical value.
pub enum JsonFieldView {
    Absent,
    Null,
    Bool(bool),
    Text(Seq<char>),
    Other,
}

impl View for JsonField {
    type V = JsonFieldView;

    open spec fn view(&self) -> JsonFieldView {
        match self {
            JsonField::Absent => JsonFieldView::Absent,
            JsonField::Null => JsonFieldView::Null,
            JsonField::Bool(b) => JsonFieldView::Bool(*b),
            JsonField::Text(s) => JsonFieldView::Text(s@),
            JsonField::Other => JsonFieldView::Other,
        }
    }
}

/// What the host is asked to do for one inbound line.
#[derive(Debug)]
pub enum HostAction {
    /// Request foreground focus for the window; with `activate_by_title`,
    /// also attempt an external activation addressed by [`WINDOW_TITLE`].
    Focus { activate_by_title: bool },
    /// Set the window's always-on-top flag to the given value.
    SetAlwaysOnTop(bool),
    /// Evaluate the given script in the content surface.
    EvaluateScript(String),
}

/// A [`HostAction`] as a mathematical value.
pub enum HostActionView {
    Focus { activate_by_title: bool },
    SetAlwaysOnTop(bool),
    EvaluateScript(Seq<char>),
}

impl View for HostAction {
    type V = HostActionView;

    open spec fn view(&self) -> HostActionView {
        match self {
            HostAction::Focus { activate_by_title } => HostActionView::Focus {
                activate_by_title: *activate_by_title,
            },
            HostAction::SetAlwaysOnTop(v) => HostActionView::SetAlwaysOnTop(*v),
            HostAction::EvaluateScript(s) => HostActionView::EvaluateScript(s@),
        }
    }
}

/// What `serde_json::from_str` makes of `line` when asked for a
/// `serde_json::Value`: `None` unless the whole line is one JSON object, else
/// the object's members named `tag` and `content`.
pub uninterp spec fn json_members(line: Seq<char>, tag: Seq<char>, content: Seq<char>) -> Option<
    (JsonFieldView, JsonFieldView),
>;

/// Parses `line` with `serde_json::from_str` into a `serde_json::Value` and,
/// where that is an object, looks up two of its members with
/// `serde_json::Map::get`. Null, booleans and strings are carried over; every
/// other kind of value is reported as [`JsonField::Other`].
#[verifier::external_body]
fn parse_members(line: &str, tag: &str, content: &str) -> (r: Option<(JsonField, JsonField)>)
    ensures
        match r {
            Some((t, c)) => json_members(line@, tag@, content@) == Some((t@, c@)),
            None => json_members(line@, tag@, content@) is None,
        },
{
    let pick = |v: Option<&Value>| match v {
        None => JsonField::Absent,
        Some(Value::Null) => JsonField::Null,
        Some(Value::Bool(b)) => JsonField::Bool(*b),
        Some(Value::String(s)) => JsonField::Text(s.clone()),
        Some(_) => JsonField::Other,
    };
    match serde_json::from_str::<Value>(line) {
        Ok(Value::Object(map)) => Some((pick(map.get(tag)), pick(map.get(content)))),
        _ => None,
    }
}

/// The command that a tag and a payload denote, if any: `focus` takes no
/// payload (a null one counts as none), `set_always_on_top` takes a boolean.
pub open spec fn message_of(tag: JsonFieldView, content: JsonFieldView) -> Option<InboundMessage> {
    match tag {
        JsonFieldView::Text(name) => {
            if name == "focus"@ {
                match content {
                    JsonFieldView::Absent | JsonFieldView::Null => Some(InboundMessage::Focus),
                    _ => None,
                }
            } else if name == "set_always_on_top"@ {
                match content {
                    JsonFieldView::Bool(v) => Some(InboundMessage::SetAlwaysOnTop(v)),
                    _ => None,
                }
            } else {
                None
            }
        },
        _ => None,
    }
}

/// The command that a line denotes, if any.
pub open spec fn decoded(line: Seq<char>) -> Option<InboundMessage> {
    match json_members(line, TAG_MEMBER@, CONTENT_MEMBER@) {
        Some((tag, content)) => message_of(tag, content),
        None => None,
    }
}

/// The script that posts `line` to the content surface as a message event
/// with a wildcard origin.
pub open spec fn post_message_script(line: Seq<char>) -> Seq<char> {
    "window.postMessage("@ + line + ",\"*\")"@
}

/// The action for a line, given what it decoded to.
pub open spec fn action_for(
    line: Seq<char>,
    message: Option<InboundMessage>,
    activate_by_title: bool,
) -> HostActionView {
    match message {
        Some(InboundMessage::Focus) => HostActionView::Focus { activate_by_title },
        Some(InboundMessage::SetAlwaysOnTop(v)) => HostActionView::SetAlwaysOnTop(v),
        None => HostActionView::EvaluateScript(post_message_script(line)),
    }
}

/// Decodes the two members of a JSON object into a command.
pub fn decode_members(tag: &JsonField, content: &JsonField) -> (m: Option<InboundMessage>)
    ensures
        m == message_of(tag@, content@),
{
    match tag {
        JsonField::Text(name) => {
            if same_text(name.as_str(), "focus") {
                match content {
                    JsonField::Absent => Some(InboundMessage::Focus),
                    JsonField::Null => Some(InboundMessage::Focus),
                    _ => None,
                }
            } else if same_text(name.as_str(), "set_always_on_top") {
                match content {
                    JsonField::Bool(v) => Some(InboundMessage::SetAlwaysOnTop(*v)),
                    _ => None,
                }
            } else {
                None
            }
        },
        _ => None,
    }
}

/// Decodes one inbound line. `None` is the fallback for every line that is
/// not a recognized command; it is not an error.
pub fn decode_line(line: &str) -> (m: Option<InboundMessage>)
    ensures
        m == decoded(line@),
{
    match parse_members(line, TAG_MEMBER, CONTENT_MEMBER) {
        Some((tag, content)) => decode_members(&tag, &content),
        None => None,
    }
}

/// Decides the host's action for `line`, given what the line decoded to.
/// A command becomes the matching window call and nothing else; any other
/// line becomes one script that posts the line, unchanged, to the content
/// surface. `activate_by_title` says whether the windowing environment needs
/// the external activation for a focus request to take effect.
pub fn dispatch(line: &str, message: Option<InboundMessage>, activate_by_title: bool) -> (action:
    HostAction)
    ensures
        action@ == action_for(line@, message, activate_by_title),
{
    match message {
        Some(InboundMessage::Focus) => HostAction::Focus { activate_by_title },
        Some(InboundMessage::SetAlwaysOnTop(v)) => HostAction::SetAlwaysOnTop(v),
        None => {
            let mut script = String::from_str("window.postMessage(");
            script.append(line);
            script.append(",\"*\")");
            HostAction::EvaluateScript(script)
        },
    }
}

/// Decodes `line` and decides the host's action for it.
pub fn dispatch_line(line: &str, activate_by_title: bool) -> (action: HostAction)
    ensures
        action@ == action_for(line@, decoded(line@), activate_by_title),
{
    dispatch(line, decode_line(line), activate_by_title)
}

/// How many focus requests an action makes.
pub open spec fn focus_calls(action: HostActionView) -> nat {
    if action is Focus {
        1
    } else {
        0
    }
}

/// How many times an action sets the always-on-top flag to `value`.
pub open spec fn always_on_top_calls(action: HostActionView, value: bool) -> nat {
    if action == HostActionView::SetAlwaysOnTop(value) {
        1
    } else {
        0
    }
}

/// How many scripts an action injects into the content surface.
pub open spec fn script_injections(action: HostActionView) -> nat {
    if action is EvaluateScript {
        1
    } else {
        0
    }
}

/// A command results in exactly one window call of its kind and in no
/// script; any other line results in exactly one script, which holds the
/// line unchanged, and in no window call.
pub proof fn lemma_one_effect_per_line(
    line: Seq<char>,
    message: Option<InboundMessage>,
    activate_by_title: bool,
)
    ensures
        ({
            let action = action_for(line, message, activate_by_title);
            &&& message == Some(InboundMessage::Focus) ==> focus_calls(action) == 1
                && always_on_top_calls(action, true) == 0 && always_on_top_calls(action, false)
                == 0 && script_injections(action) == 0
            &&& forall|v: bool|
                message == Some(InboundMessage::SetAlwaysOnTop(v)) ==> #[trigger] always_on_top_calls(
                    action,
                    v,
                ) == 1 && always_on_top_calls(action, !v) == 0 && focus_calls(action) == 0
                    && script_injections(action) == 0
            &&& message is None ==> script_injections(action) == 1 && focus_calls(action) == 0
                && always_on_top_calls(action, true) == 0 && always_on_top_calls(action, false)
                == 0 && action == HostActionView::EvaluateScript(post_message_script(line))
        }),
        post_message_script(line).len() == line.len() + 24,
        post_message_script(line).subrange(19, 19 + line.len() as int) == line,
{
    reveal_strlit("window.postMessage(");
    reveal_strlit(",\"*\")");
    assert(post_message_script(line).subrange(19, 19 + line.len() as int) =~= line);
}

} // verus!
