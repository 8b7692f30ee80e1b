use vstd::prelude::*;

verus! {

/// The front-end that recorded a usage log entry.
#[derive(Clone, Copy, Debug, PartialEq, Eq, Structural)]
pub enum Application {
    CLI,
    GUI,
}

impl Application {
    /// The tag that marks the front-end in the log.
    pub open spec fn spec_tag(self) -> Seq<char> {
        match self {
            Application::CLI => "CLI"@,
            Application::GUI => "GUI"@,
        }
    }

    /// The front-end's tag: `CLI` or `GUI`.
    pub fn tag(&self) -> (r: String)
        ensures
            r@ == self.spec_tag(),
    {
        match self {
            Application::CLI => String::from_str("CLI"),
            Application::GUI => String::from_str("GUI"),
        }
    }
}

/// A log entry: the action's description, the front-end, the time, and a
/// blank line that parts it from the next entry.
pub open spec fn entry_text(description: Seq<char>, app: Application, timestamp: Seq<char>) -> Seq<char> {
    description + " - from "@ + app.spec_tag() + " on "@ + timestamp + "\n\n"@
}

/// The text appended to the usage log for one action, e.g.
/// `Help requested - from CLI on <timestamp>` followed by a blank line.
pub fn log_entry(description: &str, app: Application, timestamp: &str) -> (r: String)
    ensures
        r@ == entry_text(description@, app, timestamp@),
{
    let mut r = String::from_str(description);
    r.append(" - from ");
    let tag = app.tag();
    r.append(tag.as_str());
    r.append(" on ");
    r.append(timestamp);
    r.append("\n\n");
    r
}

/// What a front-end did, as the usage log classifies it.
#[derive(Clone, Copy, Debug, PartialEq, Eq, Structural)]
pub enum Activity {
    HelpRequested,
    TemperatureConverted,
    TemperatureRetrieved,
    HistoryAccessed,
    InvalidEntry,
}

/// The description of an activity; conversions and lookups quote what was
/// shown, in parentheses.
pub open spec fn description_text(a: Activity, shown: Seq<char>) -> Seq<char> {
    match a {
        Activity::HelpRequested => "Help requested"@,
        Activity::TemperatureConverted => "Temperature converted (\n"@ + shown + "\n)"@,
        Activity::TemperatureRetrieved => "Temperature retrieved by ZIP code (\n"@ + shown + "\n)"@,
        Activity::HistoryAccessed => "History accessed"@,
        Activity::InvalidEntry => "Invalid entry"@,
    }
}

/// The description that the usage log records for an activity, given what
/// the front-end showed for it.
pub fn describe(a: Activity, shown: &str) -> (r: String)
    ensures
        r@ == description_text(a, shown@),
{
    match a {
        Activity::HelpRequested => String::from_str("Help requested"),
        Activity::TemperatureConverted => {
            let mut r = String::from_str("Temperature converted (\n");
            r.append(shown);
            r.append("\n)");
            r
        },
        Activity::TemperatureRetrieved => {
            let mut r = String::from_str("Temperature retrieved by ZIP code (\n");
            r.append(shown);
            r.append("\n)");
            r
        },
        Activity::HistoryAccessed => String::from_str("History accessed"),
        Activity::InvalidEntry => String::from_str("Invalid entry"),
    }
}

} // verus!
