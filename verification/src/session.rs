//! Interactive sessions on an instance: the command line and how its end is reported.

use vstd::prelude::*;
use crate::app::{App, AppView};
use crate::laws;
use crate::text;

verus! {

/// How a session ended.
pub enum SessionEnd {
    /// The command reported success.
    Success,
    /// The command reported this status.
    Exited(String),
    /// The command could not be started, for this reason.
    LaunchFailed(String),
}

/// What a `SessionEnd` says.
pub enum SessionEndView {
    Success,
    Exited(Seq<char>),
    LaunchFailed(Seq<char>),
}

impl View for SessionEnd {
    type V = SessionEndView;

    open spec fn view(&self) -> SessionEndView {
        match self {
            SessionEnd::Success => SessionEndView::Success,
            SessionEnd::Exited(status) => SessionEndView::Exited(status@),
            SessionEnd::LaunchFailed(error) => SessionEndView::LaunchFailed(error@),
        }
    }
}

impl SessionEndView {
    /// The message that the detail screen shows.
    pub open spec fn message(self) -> Option<Seq<char>> {
        match self {
            SessionEndView::Success => None,
            SessionEndView::Exited(status) => Some("SSM session exited: "@ + status),
            SessionEndView::LaunchFailed(error) => Some("SSM launch failed: "@ + error),
        }
    }

    /// The lines that are printed below a session that did not succeed.
    pub open spec fn notice(self) -> Seq<Seq<char>> {
        match self {
            SessionEndView::Success => seq![],
            SessionEndView::Exited(status) => seq![
                "\nSSM session exited with status "@ + status + ". Press Enter to return."@,
            ],
            SessionEndView::LaunchFailed(error) => seq![
                "\nFailed to launch 'aws ssm start-session': "@ + error,
                "Ensure the aws CLI and the Session Manager plugin are installed."@,
                "Press Enter to return."@,
            ],
        }
    }
}

/// The arguments of the `aws` command that starts a session.
pub fn session_args(instance_id: &str) -> (args: Vec<String>)
    ensures
        text::texts(args@) == seq!["ssm"@, "start-session"@, "--target"@, instance_id@],
{
    let mut args: Vec<String> = Vec::new();
    args.push("ssm".to_owned());
    args.push("start-session".to_owned());
    args.push("--target".to_owned());
    args.push(instance_id.to_owned());
    assert(text::texts(args@) =~= seq!["ssm"@, "start-session"@, "--target"@, instance_id@]);
    args
}

/// The message that the detail screen shows after a session.
pub fn session_message(end: &SessionEnd) -> (message: Option<String>)
    ensures
        text::text_opt(message) == end@.message(),
{
    match end {
        SessionEnd::Success => None,
        SessionEnd::Exited(status) => Some(
            text::concat2("SSM session exited: ", status.as_str()),
        ),
        SessionEnd::LaunchFailed(error) => Some(
            text::concat2("SSM launch failed: ", error.as_str()),
        ),
    }
}

/// The lines that are printed below a session that did not succeed.
pub fn session_notice(end: &SessionEnd) -> (lines: Vec<String>)
    ensures
        text::texts(lines@) == end@.notice(),
{
    let mut lines: Vec<String> = Vec::new();
    match end {
        SessionEnd::Success => {},
        SessionEnd::Exited(status) => {
            lines.push(
                text::concat3(
                    "\nSSM session exited with status ",
                    status.as_str(),
                    ". Press Enter to return.",
                ),
            );
        },
        SessionEnd::LaunchFailed(error) => {
            lines.push(
                text::concat2("\nFailed to launch 'aws ssm start-session': ", error.as_str()),
            );
            lines.push(
                "Ensure the aws CLI and the Session Manager plugin are installed.".to_owned(),
            );
            lines.push("Press Enter to return.".to_owned());
        },
    }
    assert(text::texts(lines@) =~= end@.notice());
    lines
}

impl AppView {
    /// The state after a session: `Ok` holds the message of the session, `Err` what went
    /// wrong with the terminal around it.
    pub open spec fn session_finished(
        self,
        outcome: Result<Option<Seq<char>>, Seq<char>>,
    ) -> AppView {
        AppView {
            last_message: match outcome {
                Ok(message) => message,
                Err(error) => Some("Error: "@ + error),
            },
            ..self
        }
    }
}

/// The texts of a session's outcome.
pub open spec fn outcome_view(
    outcome: Result<Option<String>, String>,
) -> Result<Option<Seq<char>>, Seq<char>> {
    match outcome {
        Ok(message) => Ok(text::text_opt(message)),
        Err(error) => Err(error@),
    }
}

impl App {
    /// Keeps the message of a session.
    pub fn session_finished(&mut self, outcome: Result<Option<String>, String>)
        ensures
            final(self)@ == old(self)@.session_finished(outcome_view(outcome)),
            final(self).status_filter_idx == old(self).status_filter_idx,
            old(self)@.well_formed() ==> final(self)@.well_formed(),
    {
        proof {
            if self@.well_formed() {
                laws::law_sessions_keep_invariant(self@, outcome_view(outcome));
            }
        }
        match outcome {
            Ok(message) => {
                self.last_message = message;
            },
            Err(error) => {
                self.last_message = Some(text::concat2("Error: ", error.as_str()));
            },
        }
    }
}

} // verus!
