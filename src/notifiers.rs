use vstd::prelude::*;

use crate::report::{outcome_title, Outcome, Report};
use crate::views::strings_view;

verus! {

/// A program to run, with its arguments.
#[derive(Clone, Debug, PartialEq, Eq)]
pub struct NotifyCommand {
    pub program: String,
    pub args: Vec<String>,
}

/// A notification backend: says how a report is shown on the user's desktop.
pub trait Notify {
    /// The command that shows `report` as a desktop notification.
    fn command(&self, report: &Report) -> NotifyCommand;
}

/// The `--icon` argument of `notify-send` for an outcome.
pub open spec fn icon_arg(outcome: Outcome) -> Seq<char> {
    match outcome {
        Outcome::TestsPassed => "--icon=face-angel"@,
        _ => "--icon=face-angry"@,
    }
}

/// The arguments of `notify-send`: the title, the icon, then the detail if
/// there is one.
pub open spec fn notify_send_args(report: (Outcome, Option<Seq<char>>)) -> Seq<Seq<char>> {
    let base = seq![outcome_title(report.0), icon_arg(report.0)];
    match report.1 {
        Some(detail) => base.push(detail),
        None => base,
    }
}

/// The AppleScript statement that displays `text` under `title`.
pub open spec fn osascript_statement(title: Seq<char>, text: Seq<char>) -> Seq<char> {
    "'display notification \""@ + text + "\" with title \""@ + title + "\"'"@
}

/// The arguments of `osascript`: one statement, with the detail as its text,
/// or an empty text when there is none.
pub open spec fn osascript_args(report: (Outcome, Option<Seq<char>>)) -> Seq<Seq<char>> {
    let text = match report.1 {
        Some(detail) => detail,
        None => Seq::empty(),
    };
    seq!["-e"@, osascript_statement(outcome_title(report.0), text)]
}

/// The `--icon` argument of `notify-send` for an outcome.
pub fn get_icon_arg(outcome: Outcome) -> (r: &'static str)
    ensures
        r@ == icon_arg(outcome),
{
    match outcome {
        Outcome::TestsPassed => "--icon=face-angel",
        _ => "--icon=face-angry",
    }
}

/// Shows notifications with the `notify-send` command, which comes with
/// libnotify on Linux.
pub struct NotifySend;

impl NotifySend {
    pub fn new() -> NotifySend {
        NotifySend
    }
}

impl Notify for NotifySend {
    fn command(&self, report: &Report) -> (r: NotifyCommand)
        ensures
            r.program@ == "notify-send"@,
            strings_view(r.args@) == notify_send_args(report@),
    {
        let mut args: Vec<String> = vec![
            String::from_str(report.title()),
            String::from_str(get_icon_arg(report.outcome)),
        ];
        match &report.detail {
            Some(detail) => args.push(detail.clone()),
            None => {},
        }
        assert(strings_view(args@) =~= notify_send_args(report@));
        NotifyCommand { program: String::from_str("notify-send"), args }
    }
}

/// Shows notifications with AppleScript, through the `osascript` command of
/// macOS.
pub struct Osascript;

impl Osascript {
    pub fn new() -> Osascript {
        Osascript
    }
}

impl Notify for Osascript {
    fn command(&self, report: &Report) -> (r: NotifyCommand)
        ensures
            r.program@ == "osascript"@,
            strings_view(r.args@) == osascript_args(report@),
    {
        let mut statement = String::from_str("'display notification \"");
        match &report.detail {
            Some(detail) => statement.append(detail.as_str()),
            None => {},
        }
        statement.append("\" with title \"");
        statement.append(report.title());
        statement.append("\"'");
        let args: Vec<String> = vec![String::from_str("-e"), statement];
        proof {
            let text = match report@.1 {
                Some(detail) => detail,
                None => Seq::empty(),
            };
            assert(statement@ =~= osascript_statement(outcome_title(report.outcome), text));
        }
        assert(strings_view(args@) =~= osascript_args(report@));
        NotifyCommand { program: String::from_str("osascript"), args }
    }
}

} // verus!
