//! The requests that the user interface can make of the shell.
//!
//! Each function decides what is answered, or what the caller has to ask
//! of the operating system first; none of them touches the system itself.

use crate::config::{BackendConfig, Platform};
use crate::supervisor::texts_view;
use vstd::prelude::*;
use vstd::string::*;

verus! {

/// A program for the caller to start, with its arguments.
#[derive(Clone, Debug, PartialEq, Eq)]
pub struct Launch {
    pub program: String,
    pub args: Vec<String>,
}

pub ghost struct LaunchView {
    pub program: Seq<char>,
    pub args: Seq<Seq<char>>,
}

impl View for Launch {
    type V = LaunchView;

    open spec fn view(&self) -> LaunchView {
        LaunchView { program: self.program@, args: texts_view(self.args@) }
    }
}

/// A notification for the caller to show.
#[derive(Clone, Debug, PartialEq, Eq)]
pub struct Notification {
    pub identifier: String,
    pub title: String,
    pub body: String,
}

pub ghost struct NotificationView {
    pub identifier: Seq<char>,
    pub title: Seq<char>,
    pub body: Seq<char>,
}

impl View for Notification {
    type V = NotificationView;

    open spec fn view(&self) -> NotificationView {
        NotificationView { identifier: self.identifier@, title: self.title@, body: self.body@ }
    }
}

/// The identifier under which the application shows its notifications.
pub open spec fn application_identifier() -> Seq<char> {
    "com.conciliacion.financiera"@
}

/// The answer given when the data directory cannot be resolved.
pub open spec fn no_data_dir_message() -> Seq<char> {
    "Could not get app data directory"@
}

/// The program that shows a folder in the file browser.
pub open spec fn folder_opener() -> Seq<char> {
    "open"@
}

/// What has to be started to show `path` in the file browser of
/// `platform`: the opener with the path as its one argument where the
/// platform has one, and nothing anywhere else.
pub open spec fn folder_launch(platform: Platform, path: Seq<char>) -> Option<LaunchView> {
    match platform {
        Platform::MacOs => Some(LaunchView { program: folder_opener(), args: seq![path] }),
        Platform::Other => None,
    }
}

/// The answer to a request to show a folder, given how the launch went:
/// `None` where nothing had to be started, else the outcome of starting
/// it, with the system's error text.
pub open spec fn folder_reply(launched: Option<Result<(), Seq<char>>>) -> Result<(), Seq<char>> {
    match launched {
        None => Ok(()),
        Some(outcome) => outcome,
    }
}

/// The port that the backend was told to listen on. The answer depends on
/// the configuration alone, which nothing changes: it is the same every
/// time.
pub fn get_backend_port(state: &BackendConfig) -> (port: u16)
    ensures
        port == state@.port,
{
    state.assigned_port()
}

/// The application's data directory as the answer to the user interface:
/// the path that the platform resolved, or an error that says that it
/// resolved none.
pub fn get_app_data_dir(resolved: Option<String>) -> (reply: Result<String, String>)
    ensures
        match resolved {
            Some(path) => reply == Ok::<String, String>(path),
            None => reply is Err && reply->Err_0@ == no_data_dir_message(),
        },
{
    match resolved {
        Some(path) => Ok(path),
        None => Err(String::from_str("Could not get app data directory")),
    }
}

/// Decides what to start in order to show `path` in the file browser.
pub fn open_folder_in_finder(platform: Platform, path: String) -> (launch: Option<Launch>)
    ensures
        match folder_launch(platform, path@) {
            Some(view) => launch is Some && launch->Some_0@ == view,
            None => launch is None,
        },
{
    match platform {
        Platform::MacOs => {
            let mut args: Vec<String> = Vec::new();
            args.push(path);
            let launch = Launch { program: String::from_str("open"), args };
            assert(launch@.args =~= seq![path@]);
            Some(launch)
        },
        Platform::Other => None,
    }
}

/// An outcome with its error text as a sequence of characters.
pub open spec fn outcome_view(outcome: Result<(), String>) -> Result<(), Seq<char>> {
    match outcome {
        Ok(()) => Ok(()),
        Err(error) => Err(error@),
    }
}

/// How a launch went, if there was one, by its view.
pub open spec fn launched_view(launched: Option<Result<(), String>>) -> Option<
    Result<(), Seq<char>>,
> {
    match launched {
        None => None,
        Some(outcome) => Some(outcome_view(outcome)),
    }
}

/// The answer to a request to show a folder, once the caller has done
/// what `open_folder_in_finder` asked for: `launched` is `None` where
/// nothing was to be started, else the outcome of starting it.
pub fn open_folder_reply(launched: Option<Result<(), String>>) -> (reply: Result<(), String>)
    ensures
        outcome_view(reply) == folder_reply(launched_view(launched)),
{
    match launched {
        None => Ok(()),
        Some(outcome) => outcome,
    }
}

/// The notification to show for a title and a body.
pub fn show_notification(title: String, body: String) -> (notification: Notification)
    ensures
        notification@ == (NotificationView {
            identifier: application_identifier(),
            title: title@,
            body: body@,
        }),
{
    Notification { identifier: String::from_str("com.conciliacion.financiera"), title, body }
}

/// Where the platform has no way to show a folder, a request to show one
/// succeeds without anything being started, whatever the path: nothing is
/// asked of the caller, and a caller that starts nothing is answered with
/// success.
pub proof fn lemma_open_folder_elsewhere_is_noop(
    path: Seq<char>,
    launched: Option<Result<(), Seq<char>>>,
)
    requires
        launched is Some <==> folder_launch(Platform::Other, path) is Some,
    ensures
        folder_launch(Platform::Other, path) is None,
        folder_reply(launched) == Ok::<(), Seq<char>>(()),
{
}

} // verus!
