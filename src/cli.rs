use vstd::prelude::*;

use crate::usage_log::{describe, description_text, Activity};

verus! {

/// The one action that a command-line invocation asks for.
#[derive(Clone, Debug, PartialEq, Eq)]
pub enum Command {
    /// Show the list of options.
    Help,
    /// Convert the given `<number><scale letter>` text.
    Convert(String),
    /// Look up the current temperature at the given postal code.
    Zip(String),
    /// Show the usage log.
    History,
    /// No action was asked for.
    Unrecognized,
}

/// The action chosen from the options given: help first, then a conversion,
/// then a postal-code lookup, then the history; with none of them, none.
pub open spec fn command_for(help: bool, temp: Option<String>, zip: Option<String>, read: bool) -> Command {
    if help {
        Command::Help
    } else if temp is Some {
        Command::Convert(temp->0)
    } else if zip is Some {
        Command::Zip(zip->0)
    } else if read {
        Command::History
    } else {
        Command::Unrecognized
    }
}

/// Picks the single action of an invocation from its options: `help` and
/// `read` say whether those flags were given, `temp` and `zip` hold the
/// arguments of those options where they were given.
pub fn select_command(help: bool, temp: Option<String>, zip: Option<String>, read: bool) -> (r: Command)
    ensures
        r == command_for(help, temp, zip, read),
{
    if help {
        Command::Help
    } else if let Some(t) = temp {
        Command::Convert(t)
    } else if let Some(z) = zip {
        Command::Zip(z)
    } else if read {
        Command::History
    } else {
        Command::Unrecognized
    }
}

/// The list of options, as the help action shows it.
pub open spec fn help_text_spec() -> Seq<char> {
    "-= temperature-converter =-\n    -t  --temp  :  Enter a temperature and scale (ex: 12C) to convert\n    -z  --zip   :  Enter a zip code to get the current temperature\n    -r  --read  :  Print out app use history\n All entries are recorded."@
}

/// The list of options that the help action shows.
pub fn help_text() -> (r: String)
    ensures
        r@ == help_text_spec(),
{
    String::from_str(
        "-= temperature-converter =-\n    -t  --temp  :  Enter a temperature and scale (ex: 12C) to convert\n    -z  --zip   :  Enter a zip code to get the current temperature\n    -r  --read  :  Print out app use history\n All entries are recorded.",
    )
}

/// What is shown when no action was asked for.
pub fn usage_hint() -> (r: String)
    ensures
        r@ == "Enter -h or --help to see a list of commands"@,
{
    String::from_str("Enter -h or --help to see a list of commands")
}

/// What the history action shows: the log's contents under a heading, or a
/// read error where the log could not be read.
pub open spec fn history_report_text(contents: Option<Seq<char>>) -> Seq<char> {
    match contents {
        Some(t) => "-= Print use history =-\n"@ + t,
        None => "File read error"@,
    }
}

/// The history display, from the log's contents (`None` where the log could
/// not be read).
pub fn history_report(contents: Option<String>) -> (r: String)
    ensures
        r@ == history_report_text(
            match contents {
                Some(t) => Some(t@),
                None => None,
            },
        ),
{
    match contents {
        Some(t) => {
            let mut r = String::from_str("-= Print use history =-\n");
            r.append(t.as_str());
            r
        },
        None => String::from_str("File read error"),
    }
}

impl Command {
    /// The kind of activity that the usage log records for the action.
    pub open spec fn spec_activity(&self) -> Activity {
        match self {
            Command::Help => Activity::HelpRequested,
            Command::Convert(_) => Activity::TemperatureConverted,
            Command::Zip(_) => Activity::TemperatureRetrieved,
            Command::History => Activity::HistoryAccessed,
            Command::Unrecognized => Activity::InvalidEntry,
        }
    }

    /// The kind of activity that the usage log records for the action.
    pub fn activity(&self) -> (r: Activity)
        ensures
            r == self.spec_activity(),
    {
        match self {
            Command::Help => Activity::HelpRequested,
            Command::Convert(_) => Activity::TemperatureConverted,
            Command::Zip(_) => Activity::TemperatureRetrieved,
            Command::History => Activity::HistoryAccessed,
            Command::Unrecognized => Activity::InvalidEntry,
        }
    }
}

/// How an action is described in the usage log, given what it showed.
pub fn log_description(cmd: &Command, shown: &str) -> (r: String)
    ensures
        r@ == description_text(cmd.spec_activity(), shown@),
{
    describe(cmd.activity(), shown)
}

} // verus!
