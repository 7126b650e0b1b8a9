//! The two control surfaces, as rules: what a text frame on the messaging
//! channel and what a request path on the command server lead to.
//!
//! Both act on the one lifecycle state. Whatever must happen outside the
//! library after the answer is given comes back as an [`Effect`].

use vstd::prelude::*;
use crate::lifecycle::{launched_by, launches, Lifecycle, StartOutcome, StopOutcome};
use crate::text::{same_text, starts_with};
use crate::watcher::{Watcher, WatcherModel};

verus! {

/// Delay between the answer to `kill` and the shutdown, in milliseconds: it
/// lets the answer leave first.
pub const KILL_DELAY_MS: u64 = 100;

/// Delay between the answer to a shutdown request on the command server and
/// the shutdown, in milliseconds.
pub const HTTP_SHUTDOWN_DELAY_MS: u64 = 200;

/// Request paths that begin with this ask for a shutdown.
pub const SHUTDOWN_PATH: &'static str = "/stop";

/// Body of the answer to a shutdown request.
pub const SHUTDOWN_BODY: &'static str = "Programmet stoppes...";

/// Content type of the control page.
pub const CONTROL_PAGE_TYPE: &'static str = "text/html";

/// The control page: a form whose button issues the shutdown request.
pub const CONTROL_PAGE: &'static str =
    "\n                    <html><body>\n                    <h1>PW Mover running</h1>\n                    <form method='GET' action='/stop'>\n                        <button type='submit'>Stop programmet</button>\n                    </form>\n                    </body></html>\n                ";

/// File name handed to the generator on `template`.
pub const TEMPLATE_FILE_NAME: &'static str = "eksempel.spec.ts";

/// Description handed to the generator on `template`.
pub const TEMPLATE_DESCRIPTION: &'static str = "Bruger logger ind";

/// First of the four steps handed to the generator on `template`.
pub const TEMPLATE_STEP_1: &'static str = "Åbner login siden";

/// Second step.
pub const TEMPLATE_STEP_2: &'static str = "Indtaster brugernavn og kode";

/// Third step.
pub const TEMPLATE_STEP_3: &'static str = "Klikker login";

/// Fourth step.
pub const TEMPLATE_STEP_4: &'static str = "Ser forsiden vises";

/// A command of the messaging channel.
#[derive(Clone, Copy, Debug, PartialEq, Eq, Structural)]
pub enum Command {
    Start,
    Stop,
    Template,
    Kill,
    Unknown,
}

/// The command that a text frame stands for. Only the exact texts count.
pub open spec fn command_of(text: Seq<char>) -> Command {
    if text == "start"@ {
        Command::Start
    } else if text == "stop"@ {
        Command::Stop
    } else if text == "template"@ {
        Command::Template
    } else if text == "kill"@ {
        Command::Kill
    } else {
        Command::Unknown
    }
}

/// Reads the command in a text frame.
pub fn parse_command(text: &str) -> (command: Command)
    ensures
        command == command_of(text@),
{
    if same_text(text, "start") {
        Command::Start
    } else if same_text(text, "stop") {
        Command::Stop
    } else if same_text(text, "template") {
        Command::Template
    } else if same_text(text, "kill") {
        Command::Kill
    } else {
        Command::Unknown
    }
}

/// The acknowledgment sent back for a text frame.
#[derive(Clone, Copy, Debug, PartialEq, Eq, Structural)]
pub enum Reply {
    Started,
    AlreadyRunning,
    Stopped,
    NotRunning,
    TemplateDone,
    ShuttingDown,
    UnknownCommand,
}

impl Reply {
    /// The text of the acknowledgment.
    pub open spec fn text_spec(self) -> Seq<char> {
        match self {
            Reply::Started => "Watcher startet"@,
            Reply::AlreadyRunning => "Watcher kører allerede"@,
            Reply::Stopped => "Watcher stoppet"@,
            Reply::NotRunning => "Watcher kører ikke"@,
            Reply::TemplateDone => "Template done..."@,
            Reply::ShuttingDown => "App lukker ned..."@,
            Reply::UnknownCommand => "Ukendt kommando"@,
        }
    }

    pub fn text(self) -> (t: &'static str)
        ensures
            t@ == self.text_spec(),
    {
        match self {
            Reply::Started => "Watcher startet",
            Reply::AlreadyRunning => "Watcher kører allerede",
            Reply::Stopped => "Watcher stoppet",
            Reply::NotRunning => "Watcher kører ikke",
            Reply::TemplateDone => "Template done...",
            Reply::ShuttingDown => "App lukker ned...",
            Reply::UnknownCommand => "Ukendt kommando",
        }
    }
}

/// What is handed to the generator of test specifications.
#[derive(Debug)]
pub struct TemplateRequest {
    pub file_name: String,
    pub description: String,
    pub steps: Vec<String>,
}

impl TemplateRequest {
    /// Whether this is the fixed demonstration request: the fixed file name
    /// and description, and the four fixed steps in their order.
    pub open spec fn is_demonstration(&self) -> bool {
        &&& self.file_name@ == TEMPLATE_FILE_NAME@
        &&& self.description@ == TEMPLATE_DESCRIPTION@
        &&& self.steps@.len() == 4
        &&& self.steps@[0]@ == TEMPLATE_STEP_1@
        &&& self.steps@[1]@ == TEMPLATE_STEP_2@
        &&& self.steps@[2]@ == TEMPLATE_STEP_3@
        &&& self.steps@[3]@ == TEMPLATE_STEP_4@
    }

    /// The demonstration request.
    pub fn demonstration() -> (request: TemplateRequest)
        ensures
            request.is_demonstration(),
    {
        let mut steps: Vec<String> = Vec::new();
        steps.push(TEMPLATE_STEP_1.to_owned());
        steps.push(TEMPLATE_STEP_2.to_owned());
        steps.push(TEMPLATE_STEP_3.to_owned());
        steps.push(TEMPLATE_STEP_4.to_owned());
        TemplateRequest {
            file_name: TEMPLATE_FILE_NAME.to_owned(),
            description: TEMPLATE_DESCRIPTION.to_owned(),
            steps,
        }
    }
}

/// What the caller does besides giving the answer.
#[derive(Debug)]
pub enum Effect {
    /// Nothing.
    Nothing,
    /// Call the generator with this request; whether it succeeds is of no
    /// account, the answer is the same.
    GenerateTemplate(TemplateRequest),
    /// Set aside a task that waits for `millis` milliseconds, then shuts the
    /// lifecycle state down and ends the process. The wait is what lets the
    /// answer leave before the process ends.
    ShutdownAfter { millis: u64 },
}

/// The answer to one text frame and what follows it.
#[derive(Debug)]
pub struct Response {
    pub reply: Reply,
    pub effect: Effect,
}

/// The acknowledgment for `command` on a state that is running or not.
pub open spec fn reply_for(command: Command, running: bool) -> Reply {
    match command {
        Command::Start => if running {
            Reply::AlreadyRunning
        } else {
            Reply::Started
        },
        Command::Stop => if running {
            Reply::Stopped
        } else {
            Reply::NotRunning
        },
        Command::Template => Reply::TemplateDone,
        Command::Kill => Reply::ShuttingDown,
        Command::Unknown => Reply::UnknownCommand,
    }
}

/// Whether a watcher is at work after `command`.
pub open spec fn running_after(command: Command, running: bool) -> bool {
    match command {
        Command::Start => true,
        Command::Stop => false,
        _ => running,
    }
}

/// Whether `effect` is what `command` calls for.
pub open spec fn effect_fits(command: Command, effect: Effect) -> bool {
    match command {
        Command::Template => effect matches Effect::GenerateTemplate(request)
            && request.is_demonstration(),
        Command::Kill => effect == (Effect::ShutdownAfter { millis: KILL_DELAY_MS }),
        _ => effect is Nothing,
    }
}

/// Handles one text frame of the messaging channel.
///
/// `start` and `stop` act on the lifecycle state at once, through `launch`
/// and `join`; `launch` is called only for a `start` on a state with no
/// watcher at work, `join` only for a `stop`. `template` and `kill` leave the
/// state alone and come back as an effect; `kill` is answered before
/// anything ends. Any other text is answered as unknown.
pub fn dispatch<J, L: FnOnce(Watcher) -> J, H: FnOnce(J)>(
    state: &mut Lifecycle<J>,
    text: &str,
    launch: L,
    join: H,
) -> (response: Response)
    requires
        command_of(text@) == Command::Start && launches(old(state).running()) ==> forall|
            w: Watcher,
        |
            w@ == WatcherModel::fresh() ==> #[trigger] call_requires(launch, (w,)),
        command_of(text@) == Command::Stop ==> (old(state).worker() matches Some(j)
            ==> call_requires(join, (j,))),
    ensures
        response.reply == reply_for(command_of(text@), old(state).running()),
        effect_fits(command_of(text@), response.effect),
        final(state).running() == running_after(command_of(text@), old(state).running()),
        final(state).running() == old(state).running() ==> *final(state) == *old(state),
        command_of(text@) == Command::Start && launches(old(state).running())
            ==> final(state).stop_sender() is Some && launched_by(
            launch,
            final(state).stop_sender()->0,
            final(state).worker()->0,
        ),
        command_of(text@) == Command::Stop ==> (old(state).worker() matches Some(j)
            ==> call_ensures(join, (j,), ())),
{
    match parse_command(text) {
        Command::Start => {
            let reply = match state.start(launch) {
                StartOutcome::Started => Reply::Started,
                StartOutcome::AlreadyRunning => Reply::AlreadyRunning,
            };
            Response { reply, effect: Effect::Nothing }
        },
        Command::Stop => {
            let reply = match state.stop(join) {
                StopOutcome::Stopped => Reply::Stopped,
                StopOutcome::NotRunning => Reply::NotRunning,
            };
            Response { reply, effect: Effect::Nothing }
        },
        Command::Template => Response {
            reply: Reply::TemplateDone,
            effect: Effect::GenerateTemplate(TemplateRequest::demonstration()),
        },
        Command::Kill => Response {
            reply: Reply::ShuttingDown,
            effect: Effect::ShutdownAfter { millis: KILL_DELAY_MS },
        },
        Command::Unknown => Response { reply: Reply::UnknownCommand, effect: Effect::Nothing },
    }
}

/// Where a request to the command server leads.
#[derive(Clone, Copy, Debug, PartialEq, Eq, Structural)]
pub enum Route {
    /// Acknowledge, then shut down.
    Shutdown,
    /// Show the control page.
    ControlPage,
}

/// The route of a request path: a shutdown for every path that begins with
/// [`SHUTDOWN_PATH`], the control page for every other.
pub open spec fn route_of(path: Seq<char>) -> Route {
    if SHUTDOWN_PATH@.is_prefix_of(path) {
        Route::Shutdown
    } else {
        Route::ControlPage
    }
}

/// Routes a request of the command server by its path.
pub fn route(path: &str) -> (r: Route)
    ensures
        r == route_of(path@),
{
    if starts_with(path, SHUTDOWN_PATH) {
        Route::Shutdown
    } else {
        Route::ControlPage
    }
}

/// An answer of the command server.
#[derive(Debug)]
pub struct HttpAnswer {
    pub body: &'static str,
    /// The content type to declare, where the plain default does not do.
    pub content_type: Option<&'static str>,
    pub effect: Effect,
}

/// The answer that goes with a route.
pub fn answer(r: Route) -> (a: HttpAnswer)
    ensures
        r == Route::Shutdown ==> {
            &&& a.body@ == SHUTDOWN_BODY@
            &&& a.content_type is None
            &&& a.effect == (Effect::ShutdownAfter { millis: HTTP_SHUTDOWN_DELAY_MS })
        },
        r == Route::ControlPage ==> {
            &&& a.body@ == CONTROL_PAGE@
            &&& a.content_type matches Some(t) && t@ == CONTROL_PAGE_TYPE@
            &&& a.effect is Nothing
        },
{
    match r {
        Route::Shutdown => HttpAnswer {
            body: SHUTDOWN_BODY,
            content_type: None,
            effect: Effect::ShutdownAfter { millis: HTTP_SHUTDOWN_DELAY_MS },
        },
        Route::ControlPage => HttpAnswer {
            body: CONTROL_PAGE,
            content_type: Some(CONTROL_PAGE_TYPE),
            effect: Effect::Nothing,
        },
    }
}

} // verus!
