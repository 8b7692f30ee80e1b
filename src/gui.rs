use vstd::prelude::*;

use crate::scale::Scale;

verus! {

/// The pages of the converter window.
#[derive(Clone, Copy, Debug, PartialEq, Eq, Structural)]
pub enum Page {
    /// Converts the temperature entered in the window.
    Temp,
    /// Looks up the current temperature at a postal code.
    Zip,
    /// Shows the usage log.
    Hist,
}

/// What the converter window holds between frames. `V` is the type of the
/// temperature entered.
pub struct GuiSession<V> {
    pub temperature: V,
    pub scale: Scale,
    pub zip: String,
    pub zipout: String,
    pub history: String,
    pub page: Page,
}

/// What the user or a finished background task did.
pub enum GuiEvent<V> {
    /// A page tab was clicked.
    PageSelected(Page),
    /// A scale was picked in the scale selector.
    ScaleSelected(Scale),
    /// The temperature entered was changed.
    TemperatureSet(V),
    /// The postal code field was edited.
    ZipEdited(String),
    /// The lookup button was pressed.
    GoPressed,
    /// A lookup finished; the text is what it reports.
    LookupFinished(String),
    /// The history's update button was pressed.
    UpdatePressed,
    /// The usage log was read; the text is its contents.
    HistoryLoaded(String),
    /// The usage log could not be read; the text says why.
    HistoryFailed(String),
}

/// The outside work that the window is to do after an event.
#[derive(Clone, Debug, PartialEq, Eq)]
pub enum GuiAction {
    /// Nothing.
    Idle,
    /// Record the current conversion in the usage log.
    LogConversion,
    /// Look up the current temperature at this postal code in the background.
    StartLookup(String),
    /// Read the usage log and report back with `HistoryLoaded` or
    /// `HistoryFailed`.
    ReadHistory,
    /// Record in the usage log that the history was shown.
    LogHistoryAccess,
}

/// The session after an event, and the work that the event asks for. Tabs and
/// the results of outside work are taken on any page; a widget's event only
/// on the page that shows the widget.
pub open spec fn step<V>(s: GuiSession<V>, e: GuiEvent<V>) -> (GuiSession<V>, GuiAction) {
    match e {
        GuiEvent::PageSelected(p) => (GuiSession { page: p, ..s }, GuiAction::Idle),
        GuiEvent::ScaleSelected(sc) => if s.page == Page::Temp {
            (GuiSession { scale: sc, ..s }, GuiAction::LogConversion)
        } else {
            (s, GuiAction::Idle)
        },
        GuiEvent::TemperatureSet(v) => if s.page == Page::Temp {
            (GuiSession { temperature: v, ..s }, GuiAction::Idle)
        } else {
            (s, GuiAction::Idle)
        },
        GuiEvent::ZipEdited(z) => if s.page == Page::Zip {
            (GuiSession { zip: z, ..s }, GuiAction::Idle)
        } else {
            (s, GuiAction::Idle)
        },
        GuiEvent::GoPressed => if s.page == Page::Zip {
            (s, GuiAction::StartLookup(s.zip))
        } else {
            (s, GuiAction::Idle)
        },
        GuiEvent::LookupFinished(t) => (GuiSession { zipout: t, ..s }, GuiAction::Idle),
        GuiEvent::UpdatePressed => if s.page == Page::Hist {
            (s, GuiAction::ReadHistory)
        } else {
            (s, GuiAction::Idle)
        },
        GuiEvent::HistoryLoaded(t) => (GuiSession { history: t, ..s }, GuiAction::LogHistoryAccess),
        GuiEvent::HistoryFailed(m) => (GuiSession { history: m, ..s }, GuiAction::Idle),
    }
}

impl<V> GuiSession<V> {
    /// A fresh window: the converter page, the given temperature in
    /// Fahrenheit, the postal code 20500 and no lookup or history yet.
    pub fn new(temperature: V) -> (r: GuiSession<V>)
        ensures
            r.temperature == temperature,
            r.scale == Scale::Fahrenheit,
            r.zip@ == "20500"@,
            r.zipout@ == "Press Go!"@,
            r.history@ == Seq::<char>::empty(),
            r.page == Page::Temp,
    {
        GuiSession {
            temperature,
            scale: Scale::Fahrenheit,
            zip: String::from_str("20500"),
            zipout: String::from_str("Press Go!"),
            history: String::new(),
            page: Page::Temp,
        }
    }

    /// Applies an event and returns the work that it asks for.
    pub fn handle(&mut self, event: GuiEvent<V>) -> (a: GuiAction)
        ensures
            (*final(self), a) == step(*old(self), event),
    {
        match event {
            GuiEvent::PageSelected(p) => {
                self.page = p;
                GuiAction::Idle
            },
            GuiEvent::ScaleSelected(sc) => {
                if self.page == Page::Temp {
                    self.scale = sc;
                    GuiAction::LogConversion
                } else {
                    GuiAction::Idle
                }
            },
            GuiEvent::TemperatureSet(v) => {
                if self.page == Page::Temp {
                    self.temperature = v;
                }
                GuiAction::Idle
            },
            GuiEvent::ZipEdited(z) => {
                if self.page == Page::Zip {
                    self.zip = z;
                }
                GuiAction::Idle
            },
            GuiEvent::GoPressed => {
                if self.page == Page::Zip {
                    GuiAction::StartLookup(self.zip.clone())
                } else {
                    GuiAction::Idle
                }
            },
            GuiEvent::LookupFinished(t) => {
                self.zipout = t;
                GuiAction::Idle
            },
            GuiEvent::UpdatePressed => {
                if self.page == Page::Hist {
                    GuiAction::ReadHistory
                } else {
                    GuiAction::Idle
                }
            },
            GuiEvent::HistoryLoaded(t) => {
                self.history = t;
                GuiAction::LogHistoryAccess
            },
            GuiEvent::HistoryFailed(m) => {
                self.history = m;
                GuiAction::Idle
            },
        }
    }
}

} // verus!
