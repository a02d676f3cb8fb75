//! The live-preview session: the decisions of one preview connection as a
//! state machine, the message sent after each render, and the choice of the
//! previewed template.
use vstd::prelude::*;
use base64::Engine;
use vstd::utf8::encode_utf8;
use crate::config::AppError;
use crate::token::{hex_encode, hex_of};

verus! {

/// Milliseconds that must pass between two regenerations.
pub const DEBOUNCE_MS: u64 = 1000;

#[derive(Clone, Copy, Debug, PartialEq, Eq, Structural)]
pub enum Phase {
    Starting,
    Active,
    Closing,
    Closed,
}

/// What the client sent, as the inbound monitor sees it.
#[derive(Clone, Copy, Debug, PartialEq, Eq, Structural)]
pub enum ClientFrame {
    Close,
    Other,
    ReadError,
    End,
}

/// A filesystem change in the template directory.
#[derive(Clone, Copy, Debug, PartialEq, Eq, Structural)]
pub enum FileChange {
    Created,
    DataModified,
    Removed,
    Other,
}

#[derive(Clone, Copy, Debug, PartialEq, Eq, Structural)]
pub enum SessionEvent {
    /// The socket was upgraded, at `now` milliseconds.
    Opened { now: u64 },
    Frame { frame: ClientFrame },
    /// The keepalive period elapsed.
    Tick,
    /// The watcher saw a change, at `now` milliseconds; `watched` tells
    /// whether it touched the previewed template.
    FileEvent { change: FileChange, watched: bool, now: u64 },
    /// Both the inbound monitor and the watcher have stopped.
    Stopped,
}

#[derive(Clone, Copy, Debug, PartialEq, Eq, Structural)]
pub enum SessionAction {
    /// Render the template and send the result as a text frame.
    Render,
    /// Send a ping frame; a failed send is not fatal.
    Ping,
    /// Fire the one-shot cancellation that stops the monitor and the watcher.
    Cancel,
    Nothing,
}

#[derive(Clone, Copy, Debug, PartialEq, Eq, Structural)]
pub struct PreviewSession {
    pub phase: Phase,
    /// When the last render started, in milliseconds.
    pub last_render: u64,
}

pub open spec fn regenerates_on(change: FileChange) -> bool {
    change == FileChange::Created || change == FileChange::DataModified || change == FileChange::Removed
}

/// The next state and the action of a session on an event.
pub open spec fn next(s: PreviewSession, e: SessionEvent) -> (PreviewSession, SessionAction) {
    match (s.phase, e) {
        (Phase::Starting, SessionEvent::Opened { now }) =>
            (PreviewSession { phase: Phase::Active, last_render: now }, SessionAction::Render),
        (Phase::Active, SessionEvent::Frame { frame }) =>
            if frame == ClientFrame::Other {
                (s, SessionAction::Nothing)
            } else {
                (PreviewSession { phase: Phase::Closing, ..s }, SessionAction::Cancel)
            },
        (Phase::Active, SessionEvent::Tick) => (s, SessionAction::Ping),
        (Phase::Active, SessionEvent::FileEvent { change, watched, now }) =>
            if watched && regenerates_on(change) && now >= s.last_render && now - s.last_render >= DEBOUNCE_MS {
                (PreviewSession { last_render: now, ..s }, SessionAction::Render)
            } else {
                (s, SessionAction::Nothing)
            },
        (Phase::Closing, SessionEvent::Stopped) => (PreviewSession { phase: Phase::Closed, ..s }, SessionAction::Nothing),
        _ => (s, SessionAction::Nothing),
    }
}

/// The actions of a session that meets `events` in turn.
pub open spec fn actions(s: PreviewSession, events: Seq<SessionEvent>) -> Seq<SessionAction>
    decreases events.len(),
{
    if events.len() == 0 {
        Seq::empty()
    } else {
        let (t, a) = next(s, events[0]);
        seq![a] + actions(t, events.drop_first())
    }
}

pub open spec fn sends_frame(a: SessionAction) -> bool {
    a == SessionAction::Render || a == SessionAction::Ping
}

pub open spec fn ended(p: Phase) -> bool {
    p == Phase::Closing || p == Phase::Closed
}

impl PreviewSession {
    pub fn new() -> (r: PreviewSession)
        ensures
            r.phase == Phase::Starting,
            r.last_render == 0,
    {
        PreviewSession { phase: Phase::Starting, last_render: 0 }
    }

    /// Takes one event: updates the session and says what to do.
    pub fn step(&mut self, e: SessionEvent) -> (a: SessionAction)
        ensures
            (*final(self), a) == next(*old(self), e),
    {
        match (self.phase, e) {
            (Phase::Starting, SessionEvent::Opened { now }) => {
                self.phase = Phase::Active;
                self.last_render = now;
                SessionAction::Render
            },
            (Phase::Active, SessionEvent::Frame { frame }) => {
                if frame == ClientFrame::Other {
                    SessionAction::Nothing
                } else {
                    self.phase = Phase::Closing;
                    SessionAction::Cancel
                }
            },
            (Phase::Active, SessionEvent::Tick) => SessionAction::Ping,
            (Phase::Active, SessionEvent::FileEvent { change, watched, now }) => {
                let relevant = watched && (change == FileChange::Created || change == FileChange::DataModified
                    || change == FileChange::Removed);
                if relevant && now >= self.last_render && now - self.last_render >= DEBOUNCE_MS {
                    self.last_render = now;
                    SessionAction::Render
                } else {
                    SessionAction::Nothing
                }
            },
            (Phase::Closing, SessionEvent::Stopped) => {
                self.phase = Phase::Closed;
                SessionAction::Nothing
            },
            _ => SessionAction::Nothing,
        }
    }
}

proof fn lemma_actions_len(s: PreviewSession, events: Seq<SessionEvent>)
    ensures
        actions(s, events).len() == events.len(),
    decreases events.len(),
{
    if events.len() > 0 {
        let (t, a) = next(s, events[0]);
        lemma_actions_len(t, events.drop_first());
    }
}

/// Once the end of a session has been observed, whatever comes next sends no
/// frame and fires no second cancellation, and the session never becomes
/// active again.
pub proof fn lemma_quiet_after_close(s: PreviewSession, events: Seq<SessionEvent>)
    requires
        ended(s.phase),
    ensures
        forall|i: int| 0 <= i < events.len() ==> #[trigger] actions(s, events)[i] == SessionAction::Nothing,
    decreases events.len(),
{
    if events.len() > 0 {
        let (t, a) = next(s, events[0]);
        assert(ended(t.phase));
        lemma_quiet_after_close(t, events.drop_first());
        lemma_actions_len(t, events.drop_first());
        assert(actions(s, events) == seq![a] + actions(t, events.drop_first()));
        assert forall|i: int| 0 <= i < events.len() implies #[trigger] actions(s, events)[i] == SessionAction::Nothing by {
            if i > 0 {
                assert(actions(s, events)[i] == actions(t, events.drop_first())[i - 1]);
            }
        }
    }
}

/// A render driven by a file change needs a creation, data change or removal
/// of the previewed template, at least the debounce window after the previous
/// render.
pub proof fn lemma_debounced(s: PreviewSession, change: FileChange, watched: bool, now: u64)
    ensures
        next(s, SessionEvent::FileEvent { change, watched, now }).1 == SessionAction::Render
            ==> watched && regenerates_on(change) && now - s.last_render >= DEBOUNCE_MS,
{
}

/// Whether a filesystem event on `paths` touches the template at `template_path`.
pub fn concerns_template(paths: &Vec<String>, template_path: &str) -> (r: bool)
    ensures
        r == exists|i: int| 0 <= i < paths@.len() && #[trigger] paths@[i]@ == template_path@,
{
    let wanted = template_path.to_owned();
    let mut i: usize = 0;
    while i < paths.len()
        invariant
            i <= paths@.len(),
            wanted@ == template_path@,
            forall|j: int| 0 <= j < i ==> #[trigger] paths@[j]@ != template_path@,
        decreases paths@.len() - i,
    {
        if paths[i] == wanted {
            assert(paths@[i as int]@ == template_path@);
            return true;
        }
        i = i + 1;
    }
    false
}

/// What a client is sent after each render.
pub struct PreviewMessage {
    pub status: String,
    pub message: String,
    pub image_data: String,
}

/// The character of the standard base64 alphabet for a value below 64.
pub open spec fn base64_digit(n: int) -> char {
    seq!['A', 'B', 'C', 'D', 'E', 'F', 'G', 'H', 'I', 'J', 'K', 'L', 'M', 'N', 'O', 'P', 'Q', 'R', 'S', 'T', 'U', 'V', 'W', 'X', 'Y', 'Z', 'a', 'b', 'c', 'd', 'e', 'f', 'g', 'h', 'i', 'j', 'k', 'l', 'm', 'n', 'o', 'p', 'q', 'r', 's', 't', 'u', 'v', 'w', 'x', 'y', 'z', '0', '1', '2', '3', '4', '5', '6', '7', '8', '9', '+', '/'][n]
}

/// The standard base64 encoding, with padding: each group of three bytes
/// becomes four characters of six bits each, most significant first; a
/// final group of one or two bytes is padded with `=`.
pub open spec fn base64_of(bytes: Seq<u8>) -> Seq<char>
    decreases bytes.len(),
{
    if bytes.len() == 0 {
        Seq::empty()
    } else if bytes.len() == 1 {
        let b0 = bytes[0] as int;
        seq![base64_digit(b0 / 4), base64_digit((b0 % 4) * 16), '=', '=']
    } else if bytes.len() == 2 {
        let b0 = bytes[0] as int;
        let b1 = bytes[1] as int;
        seq![base64_digit(b0 / 4), base64_digit((b0 % 4) * 16 + b1 / 16), base64_digit((b1 % 16) * 4), '=']
    } else {
        let b0 = bytes[0] as int;
        let b1 = bytes[1] as int;
        let b2 = bytes[2] as int;
        seq![
            base64_digit(b0 / 4),
            base64_digit((b0 % 4) * 16 + b1 / 16),
            base64_digit((b1 % 16) * 4 + b2 / 64),
            base64_digit(b2 % 64),
        ] + base64_of(bytes.subrange(3, bytes.len() as int))
    }
}

/// Relies on base64's `STANDARD` engine `encode`: the standard alphabet, with
/// padding.
#[verifier::external_body]
fn base64_encode(bytes: &[u8]) -> (r: String)
    ensures
        r@ == base64_of(bytes@),
{
    base64::engine::general_purpose::STANDARD.encode(bytes)
}

/// The message for a render's outcome: on success an empty message and the
/// base64 bitmap, on failure the failure's text and no image.
pub fn create_msg(outcome: &Result<Vec<u8>, String>) -> (r: PreviewMessage)
    ensures
        outcome matches Ok(b) ==> r.status@ == "ok"@ && r.message@ == ""@ && r.image_data@ == base64_of(b@),
        outcome matches Err(m) ==> r.status@ == "error"@ && r.message@ == m@ && r.image_data@ == ""@,
{
    match outcome {
        Ok(b) => PreviewMessage {
            status: "ok".to_owned(),
            message: "".to_owned(),
            image_data: base64_encode(b.as_slice()),
        },
        Err(m) => PreviewMessage { status: "error".to_owned(), message: m.clone(), image_data: "".to_owned() },
    }
}

/// The preview identifier of a template name: the hex of its UTF-8 bytes.
pub open spec fn preview_id(name: Seq<char>) -> Seq<char> {
    hex_of(encode_utf8(name))
}

/// The template whose preview identifier is `id`, the first in `names`.
pub fn select_preview_template(names: &Vec<String>, id: &Option<String>) -> (r: Result<String, AppError>)
    ensures
        id is None ==> (r matches Err(AppError::ValidationError(m)) && m@ == "missing template parameter"@),
        id is Some ==> (r is Ok <==> exists|i: int| 0 <= i < names@.len() && preview_id(#[trigger] names@[i]@) == id.unwrap()@),
        r matches Ok(n) ==> exists|i: int| 0 <= i < names@.len() && names@[i]@ == n@
            && preview_id(names@[i]@) == id.unwrap()@
            && forall|j: int| 0 <= j < i ==> preview_id(#[trigger] names@[j]@) != id.unwrap()@,
        id is Some && r is Err ==> (r matches Err(AppError::ValidationError(m)) && m@ == "invalid template"@),
{
    let wanted = match id {
        Some(w) => w,
        None => return Err(AppError::ValidationError("missing template parameter".to_owned())),
    };
    let mut i: usize = 0;
    while i < names.len()
        invariant
            i <= names@.len(),
            id.unwrap() == *wanted,
            id is Some,
            forall|j: int| 0 <= j < i ==> preview_id(#[trigger] names@[j]@) != wanted@,
        decreases names@.len() - i,
    {
        let candidate = hex_encode(names[i].as_str().as_bytes());
        if candidate == *wanted {
            let r = names[i].clone();
            assert(preview_id(names@[i as int]@) == id.unwrap()@);
            return Ok(r);
        }
        i = i + 1;
    }
    Err(AppError::ValidationError("invalid template".to_owned()))
}

} // verus!
