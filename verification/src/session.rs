//! The order of a capture: what to do first, and what to do next once the
//! outside world has answered.
//!
//! The caller owns the bus connection and the output file.  It performs
//! each [`Action`] and reports what came of it as an [`Event`]; [`step`]
//! decides everything in between.

use vstd::prelude::*;
use crate::error::{CaptureError, ErrorKind};
use crate::pixels::{convert_to_png, rotated};
use crate::raster::{render, rendered, Resolution};
use crate::reply::{
    frame, frame_in, names_output, output_id, output_in, resolution, resolution_in, ReplyItem,
};

verus! {

/// Well-known name of the compositor on the session bus.
pub const SERVICE: &'static str = "org.way-cooler";

/// Object that answers for the screen.
pub const OBJECT_PATH: &'static str = "/org/way_cooler/Screen";

/// Interface of the screen object.
pub const INTERFACE: &'static str = "org.way_cooler.Screen";

/// Longest wait for a reply, in milliseconds.
pub const WAIT_TIME: i32 = 2000;

/// File written where the user names none.
pub const DEFAULT_OUTPUT: &'static str = "screenshot.png";

/// A method of the screen interface.
#[derive(Clone, Copy, Debug, PartialEq, Eq, Structural)]
pub enum Method {
    /// Which output is active: answers with its name.
    ActiveScreen,
    /// The size of a named output: answers with a record of two integers.
    Resolution,
    /// The raw contents of the active output: answers with an array of bytes.
    Scrape,
}

impl Method {
    /// The method's name on the bus.
    pub open spec fn spec_name(self) -> Seq<char> {
        match self {
            Method::ActiveScreen => "ActiveScreen"@,
            Method::Resolution => "Resolution"@,
            Method::Scrape => "Scrape"@,
        }
    }

    /// The method's name on the bus.
    pub fn name(&self) -> (name: &'static str)
        ensures
            name@ == self.spec_name(),
    {
        match self {
            Method::ActiveScreen => "ActiveScreen",
            Method::Resolution => "Resolution",
            Method::Scrape => "Scrape",
        }
    }
}

/// A method call to send: the method and its one string argument, if any.
#[derive(Clone, Debug, PartialEq, Eq)]
pub struct Request {
    pub method: Method,
    pub argument: Option<String>,
}

/// What a [`Request`] stands for.
pub struct RequestView {
    pub method: Method,
    pub argument: Option<Seq<char>>,
}

impl View for Request {
    type V = RequestView;

    open spec fn view(&self) -> RequestView {
        RequestView {
            method: self.method,
            argument: match self.argument {
                Some(text) => Some(text@),
                None => None,
            },
        }
    }
}

/// How far a capture has come.
#[derive(Clone, Copy, Debug, PartialEq, Eq, Structural)]
pub enum Stage {
    /// Waiting for the connection to the session bus.
    Connecting,
    /// Waiting for the name of the active output.
    AwaitingOutput,
    /// Waiting for the size of the output.
    AwaitingResolution,
    /// Waiting for the raw frame of an output of the given size.
    AwaitingFrame(Resolution),
    /// Waiting for the finished file to be written.
    Saving,
    /// Nothing is left to do, after success or failure.
    Done,
}

/// What the outside world answered to the last [`Action`].
#[derive(Debug, PartialEq, Eq)]
pub enum Event {
    /// The session bus is connected.
    Connected,
    /// The session bus cannot be reached.
    ConnectFailed,
    /// The method call could not be put together.
    CallNotBuilt,
    /// The method call timed out or was answered with a fault.
    CallFailed,
    /// The method call was answered with these items.
    Reply(Vec<ReplyItem>),
    /// The output file cannot be created.
    FileNotCreated,
    /// The output file was created but the image cannot be written to it.
    FileNotWritten,
    /// The output file holds the image.
    Saved,
}

/// What the caller is to do next.
#[derive(Clone, Debug, PartialEq, Eq)]
pub enum Action {
    /// Print the version and stop with success.  Nothing else happens.
    ShowVersion,
    /// Open a private connection to the session bus.
    Connect,
    /// Send this call to the screen object and wait for the reply.
    Invoke(Request),
    /// Create the output file and write these bytes to it.
    Save(Vec<u8>),
    /// Stop with success.
    Finish,
    /// Report this failure and stop.
    Abort(CaptureError),
    /// The event was not waited for: go on waiting.
    Nothing,
}

/// What an [`Action`] stands for.
pub enum ActionView {
    ShowVersion,
    Connect,
    Invoke(RequestView),
    Save(Seq<u8>),
    Finish,
    Abort(CaptureError),
    Nothing,
}

impl View for Action {
    type V = ActionView;

    open spec fn view(&self) -> ActionView {
        match *self {
            Action::ShowVersion => ActionView::ShowVersion,
            Action::Connect => ActionView::Connect,
            Action::Invoke(request) => ActionView::Invoke(request@),
            Action::Save(file) => ActionView::Save(file@),
            Action::Finish => ActionView::Finish,
            Action::Abort(e) => ActionView::Abort(e),
            Action::Nothing => ActionView::Nothing,
        }
    }
}

impl ActionView {
    /// The status the process ends with, where the action ends it: zero
    /// for success, one for a failure.
    pub open spec fn exit_code(self) -> Option<i32> {
        match self {
            ActionView::ShowVersion | ActionView::Finish => Some(0i32),
            ActionView::Abort(_) => Some(1i32),
            _ => None,
        }
    }

    /// Whether the action reaches out to the bus.
    pub open spec fn uses_bus(self) -> bool {
        self is Connect || self is Invoke
    }

    /// Whether the action touches the output file.
    pub open spec fn writes_file(self) -> bool {
        self is Save
    }
}

impl Action {
    /// The status to end the process with, if this action ends it: zero
    /// after `ShowVersion` and `Finish`, one after `Abort`.
    pub fn exit_code(&self) -> (code: Option<i32>)
        ensures
            code == self@.exit_code(),
    {
        match self {
            Action::ShowVersion | Action::Finish => Some(0),
            Action::Abort(_) => Some(1),
            _ => None,
        }
    }
}

/// The call of `method` without an argument.
pub open spec fn plain_call(method: Method) -> ActionView {
    ActionView::Invoke(RequestView { method, argument: None })
}

/// The end of a capture that failed with `e`.
pub open spec fn failed(e: CaptureError) -> (Stage, ActionView) {
    (Stage::Done, ActionView::Abort(e))
}

/// The first stage and action: the version alone where it is asked for,
/// the connection to the bus otherwise.
pub open spec fn first(show_version: bool) -> (Stage, ActionView) {
    if show_version {
        (Stage::Done, ActionView::ShowVersion)
    } else {
        (Stage::Connecting, ActionView::Connect)
    }
}

/// What follows a call that did not bring a reply, if `event` is such an
/// outcome.
pub open spec fn call_failure(event: Event) -> Option<CaptureError> {
    match event {
        Event::CallNotBuilt => Some(CaptureError::BuildCall),
        Event::CallFailed => Some(CaptureError::SendCall),
        _ => None,
    }
}

/// The stage and the action that follow `event` in `stage`.
///
/// An event that the stage does not wait for changes nothing.
pub open spec fn next(stage: Stage, event: Event) -> (Stage, ActionView) {
    match stage {
        Stage::Connecting => match event {
            Event::Connected => (Stage::AwaitingOutput, plain_call(Method::ActiveScreen)),
            Event::ConnectFailed => failed(CaptureError::Connect),
            _ => (stage, ActionView::Nothing),
        },
        Stage::AwaitingOutput => match event {
            Event::Reply(items) => match output_in(items@) {
                Ok(name) => (
                    Stage::AwaitingResolution,
                    ActionView::Invoke(
                        RequestView { method: Method::Resolution, argument: Some(name) },
                    ),
                ),
                Err(e) => failed(e),
            },
            _ => match call_failure(event) {
                Some(e) => failed(e),
                None => (stage, ActionView::Nothing),
            },
        },
        Stage::AwaitingResolution => match event {
            Event::Reply(items) => match resolution_in(items@) {
                Ok(size) => (Stage::AwaitingFrame(size), plain_call(Method::Scrape)),
                Err(e) => failed(e),
            },
            _ => match call_failure(event) {
                Some(e) => failed(e),
                None => (stage, ActionView::Nothing),
            },
        },
        Stage::AwaitingFrame(size) => match event {
            Event::Reply(items) => match frame_in(items@) {
                Ok(raw) => match rendered(rotated(raw), size) {
                    Ok(file) => (Stage::Saving, ActionView::Save(file)),
                    Err(e) => failed(e),
                },
                Err(e) => failed(e),
            },
            _ => match call_failure(event) {
                Some(e) => failed(e),
                None => (stage, ActionView::Nothing),
            },
        },
        Stage::Saving => match event {
            Event::Saved => (Stage::Done, ActionView::Finish),
            Event::FileNotCreated => failed(CaptureError::CreateFile),
            Event::FileNotWritten => failed(CaptureError::SaveImage),
            _ => (stage, ActionView::Nothing),
        },
        Stage::Done => (stage, ActionView::Nothing),
    }
}

/// Begins a run: with `show_version` set the only action is to print the
/// version, otherwise the capture starts by connecting to the session bus.
pub fn start(show_version: bool) -> (result: (Stage, Action))
    ensures
        (result.0, result.1@) == first(show_version),
{
    if show_version {
        (Stage::Done, Action::ShowVersion)
    } else {
        (Stage::Connecting, Action::Connect)
    }
}

/// The path of the file to write: the one the user chose, or
/// `screenshot.png`.
pub fn output_path(chosen: Option<String>) -> (path: String)
    ensures
        path@ == match chosen {
            Some(name) => name@,
            None => DEFAULT_OUTPUT@,
        },
{
    match chosen {
        Some(name) => name,
        None => DEFAULT_OUTPUT.to_owned(),
    }
}

/// Ends a capture with the failure `e`.
fn abort(e: CaptureError) -> (result: (Stage, Action))
    ensures
        (result.0, result.1@) == failed(e),
{
    (Stage::Done, Action::Abort(e))
}

/// Answers an event other than a reply while a call is under way.
fn no_reply(stage: Stage, event: Event) -> (result: (Stage, Action))
    requires
        !(event is Reply),
    ensures
        (result.0, result.1@) == match call_failure(event) {
            Some(e) => failed(e),
            None => (stage, ActionView::Nothing),
        },
{
    match event {
        Event::CallNotBuilt => abort(CaptureError::BuildCall),
        Event::CallFailed => abort(CaptureError::SendCall),
        _ => (stage, Action::Nothing),
    }
}

/// Decides what follows `event` in `stage`.
///
/// Once connected, the capture asks for the active output, then for that
/// output's size, then for its raw frame.  The frame is rotated into RGBA
/// and rendered, and the finished file is handed out to be saved.  Any
/// failure on the way ends the capture with `Abort`; the file is handed
/// out only when it is complete.  An event that `stage` does not wait for
/// is answered with `Nothing` and leaves the stage as it is.
pub fn step(stage: Stage, event: Event) -> (result: (Stage, Action))
    ensures
        (result.0, result.1@) == next(stage, event),
{
    match stage {
        Stage::Connecting => match event {
            Event::Connected => (
                Stage::AwaitingOutput,
                Action::Invoke(Request { method: Method::ActiveScreen, argument: None }),
            ),
            Event::ConnectFailed => abort(CaptureError::Connect),
            _ => (stage, Action::Nothing),
        },
        Stage::AwaitingOutput => match event {
            Event::Reply(items) => match output_id(&items) {
                Ok(name) => (
                    Stage::AwaitingResolution,
                    Action::Invoke(Request { method: Method::Resolution, argument: Some(name) }),
                ),
                Err(e) => abort(e),
            },
            other => no_reply(stage, other),
        },
        Stage::AwaitingResolution => match event {
            Event::Reply(items) => match resolution(&items) {
                Ok(size) => (
                    Stage::AwaitingFrame(size),
                    Action::Invoke(Request { method: Method::Scrape, argument: None }),
                ),
                Err(e) => abort(e),
            },
            other => no_reply(stage, other),
        },
        Stage::AwaitingFrame(size) => match event {
            Event::Reply(items) => match frame(items) {
                Ok(raw) => {
                    let mut pixels = raw;
                    convert_to_png(&mut pixels);
                    match render(pixels, size) {
                        Ok(file) => (Stage::Saving, Action::Save(file)),
                        Err(e) => abort(e),
                    }
                },
                Err(e) => abort(e),
            },
            other => no_reply(stage, other),
        },
        Stage::Saving => match event {
            Event::Saved => (Stage::Done, Action::Finish),
            Event::FileNotCreated => abort(CaptureError::CreateFile),
            Event::FileNotWritten => abort(CaptureError::SaveImage),
            _ => (stage, Action::Nothing),
        },
        Stage::Done => (stage, Action::Nothing),
    }
}

/// The actions that a run of events draws, one for each event, beginning
/// in `stage`.
pub open spec fn actions(stage: Stage, events: Seq<Event>) -> Seq<ActionView>
    decreases events.len(),
{
    if events.len() == 0 {
        Seq::empty()
    } else {
        let (then, action) = next(stage, events[0]);
        seq![action] + actions(then, events.subrange(1, events.len() as int))
    }
}

/// Asked for the version, a run prints it, ends with success, and never
/// reaches out to the bus or to the file, whatever events are fed to it.
pub proof fn lemma_version_alone(events: Seq<Event>)
    ensures
        first(true) == (Stage::Done, ActionView::ShowVersion),
        first(true).1.exit_code() == Some(0i32),
        actions(first(true).0, events).len() == events.len(),
        forall|i: int|
            0 <= i < events.len() ==> actions(first(true).0, events)[i] == ActionView::Nothing,
{
    lemma_done_is_silent(events);
}

/// After the end of a run nothing is done any more.
pub proof fn lemma_done_is_silent(events: Seq<Event>)
    ensures
        actions(Stage::Done, events).len() == events.len(),
        forall|i: int|
            0 <= i < events.len() ==> actions(Stage::Done, events)[i] == ActionView::Nothing,
    decreases events.len(),
{
    if events.len() > 0 {
        let rest = events.subrange(1, events.len() as int);
        lemma_done_is_silent(rest);
        assert forall|i: int| 0 <= i < events.len() implies actions(Stage::Done, events)[i]
            == ActionView::Nothing by {
            if i > 0 {
                assert(actions(Stage::Done, events)[i] == actions(Stage::Done, rest)[i - 1]);
            }
        }
    }
}

/// A failure ends the run: after `Abort` the stage is `Done` and the exit
/// status is one.  After `Nothing` the stage is what it was.
pub proof fn lemma_failure_is_final(stage: Stage, event: Event)
    ensures
        next(stage, event).1 is Abort ==> next(stage, event).0 == Stage::Done,
        next(stage, event).1 is Abort ==> next(stage, event).1.exit_code() == Some(1i32),
        next(stage, event).1 is Nothing ==> next(stage, event).0 == stage,
{
}

/// The file is handed out in one place only: when the raw frame has
/// arrived and has been rendered in full.  The bytes to save are then the
/// rendering of the rotated frame at the size that the compositor gave.
pub proof fn lemma_file_needs_frame(stage: Stage, event: Event)
    requires
        next(stage, event).1.writes_file(),
    ensures
        stage is AwaitingFrame,
        event is Reply,
        frame_in(event->Reply_0@) is Ok,
        next(stage, event).0 == Stage::Saving,
        rendered(rotated(frame_in(event->Reply_0@)->Ok_0), stage->AwaitingFrame_0) == Ok::<
            Seq<u8>,
            CaptureError,
        >(next(stage, event).1->Save_0),
{
}

/// Where the bus cannot be reached, or the first call brings no reply, the
/// run ends at once with a failure, and no file is written then or later.
pub proof fn lemma_unreachable_service(stage: Stage, event: Event, later: Seq<Event>)
    requires
        (stage == Stage::Connecting && event is ConnectFailed) || (stage == Stage::AwaitingOutput
            && (event is CallNotBuilt || event is CallFailed)),
    ensures
        next(stage, event).0 == Stage::Done,
        next(stage, event).1 is Abort,
        next(stage, event).1.exit_code() == Some(1i32),
        forall|i: int|
            0 <= i < later.len() ==> !(#[trigger] actions(next(stage, event).0, later)[i]).writes_file(),
{
    lemma_done_is_silent(later);
}

impl Stage {
    /// How far along a stage is: a capture only ever moves to a later one.
    pub open spec fn rank(self) -> nat {
        match self {
            Stage::Connecting => 0,
            Stage::AwaitingOutput => 1,
            Stage::AwaitingResolution => 2,
            Stage::AwaitingFrame(_) => 3,
            Stage::Saving => 4,
            Stage::Done => 5,
        }
    }
}

/// A capture never goes back: every event that draws an action moves it
/// to a later stage, and every other event leaves it where it is.
pub proof fn lemma_capture_moves_forward(stage: Stage, event: Event)
    ensures
        next(stage, event).1 is Nothing <==> next(stage, event).0 == stage,
        !(next(stage, event).1 is Nothing) ==> next(stage, event).0.rank() > stage.rank(),
        !(next(stage, event).1 is Connect),
        !(next(stage, event).1 is ShowVersion),
{
}

/// The three calls come in one order.  The active output is asked for
/// once the bus is connected; its size is asked for with the very name
/// that the compositor gave; the frame is asked for once the size is
/// known, and that size is kept for it.
pub proof fn lemma_calls_in_order(stage: Stage, event: Event)
    requires
        next(stage, event).1 is Invoke,
    ensures
        match next(stage, event).1->Invoke_0.method {
            Method::ActiveScreen => {
                &&& stage == Stage::Connecting
                &&& event is Connected
                &&& next(stage, event).0 == Stage::AwaitingOutput
                &&& next(stage, event).1->Invoke_0.argument is None
            },
            Method::Resolution => {
                &&& stage == Stage::AwaitingOutput
                &&& event is Reply
                &&& next(stage, event).0 == Stage::AwaitingResolution
                &&& output_in(event->Reply_0@) == Ok::<Seq<char>, CaptureError>(
                    next(stage, event).1->Invoke_0.argument->Some_0,
                )
                &&& next(stage, event).1->Invoke_0.argument is Some
            },
            Method::Scrape => {
                &&& stage == Stage::AwaitingResolution
                &&& event is Reply
                &&& resolution_in(event->Reply_0@) == Ok::<Resolution, CaptureError>(
                    next(stage, event).0->AwaitingFrame_0,
                )
                &&& next(stage, event).0 is AwaitingFrame
                &&& next(stage, event).1->Invoke_0.argument is None
            },
        },
{
}

/// A reply to `ActiveScreen` that names no output ends the capture with a
/// failure of the family `ReplyShape`: no size is asked for, and nothing
/// that comes later is answered with a call or a file.
pub proof fn lemma_unnamed_output_ends_capture(items: Vec<ReplyItem>, later: Seq<Event>)
    requires
        items@.len() == 0 || !names_output(items@[0]),
    ensures
        next(Stage::AwaitingOutput, Event::Reply(items)).0 == Stage::Done,
        next(Stage::AwaitingOutput, Event::Reply(items)).1 is Abort,
        next(Stage::AwaitingOutput, Event::Reply(items)).1->Abort_0.spec_kind()
            == ErrorKind::ReplyShape,
        forall|i: int|
            0 <= i < later.len() ==> (#[trigger] actions(Stage::Done, later)[i]) == ActionView::Nothing,
{
    lemma_done_is_silent(later);
}

/// The size of the output is reached only in one way: the first reply
/// names an output, by a string or by a list of strings that is not
/// empty, and the second is a record of two positive integers.
pub proof fn lemma_size_needs_both_replies(first: Vec<ReplyItem>, second: Vec<ReplyItem>)
    ensures
        ({
            let asked = next(Stage::AwaitingOutput, Event::Reply(first));
            let sized = next(asked.0, Event::Reply(second));
            sized.0 is AwaitingFrame <==> {
                &&& first@.len() > 0
                &&& names_output(first@[0])
                &&& resolution_in(second@) is Ok
            }
        }),
        ({
            let asked = next(Stage::AwaitingOutput, Event::Reply(first));
            let sized = next(asked.0, Event::Reply(second));
            sized.0 is AwaitingFrame ==> sized.0->AwaitingFrame_0.valid() && resolution_in(second@)
                == Ok::<Resolution, CaptureError>(sized.0->AwaitingFrame_0)
        }),
{
}

} // verus!
