//! What a block shows: a severity, a text widget that holds the current
//! reading, and the display segment that the renderer gets.

use vstd::prelude::*;

verus! {

/// How serious a reading is. It only drives colour and iconography.
#[derive(Debug, Clone, Copy, PartialEq, Eq, Structural)]
pub enum State {
    /// Nothing to report.
    Idle,
    Info,
    Good,
    Warning,
    Critical,
}

/// The model of a display segment, and of the widget that produces it.
pub ghost struct SegmentView {
    pub text: Seq<char>,
    pub icon: Seq<char>,
    pub state: State,
}

/// One renderable unit: a text, the key of an icon and a severity.
#[derive(Debug, Clone, PartialEq, Eq)]
pub struct DisplaySegment {
    pub text: String,
    pub icon: String,
    pub state: State,
}

impl View for DisplaySegment {
    type V = SegmentView;

    open spec fn view(&self) -> SegmentView {
        SegmentView { text: self.text@, icon: self.icon@, state: self.state }
    }
}

impl DeepView for DisplaySegment {
    type V = SegmentView;

    open spec fn deep_view(&self) -> SegmentView {
        self@
    }
}

/// A widget that holds a text, the key of an icon and a severity, and keeps
/// nothing of what it held before.
pub struct TextWidget {
    text: String,
    icon: String,
    state: State,
}

impl View for TextWidget {
    type V = SegmentView;

    closed spec fn view(&self) -> SegmentView {
        SegmentView { text: self.text@, icon: self.icon@, state: self.state }
    }
}

impl TextWidget {
    /// An inert widget: no text, no icon, neutral severity.
    pub fn new() -> (widget: TextWidget)
        ensures
            widget@ == (SegmentView { text: Seq::empty(), icon: Seq::empty(), state: State::Idle }),
    {
        TextWidget { text: String::new(), icon: String::new(), state: State::Idle }
    }

    /// The widget with its text replaced.
    pub fn with_text(self, text: &str) -> (widget: TextWidget)
        ensures
            widget@ == (SegmentView { text: text@, ..self@ }),
    {
        TextWidget { text: text.to_owned(), icon: self.icon, state: self.state }
    }

    /// The widget with its icon key replaced.
    pub fn with_icon(self, name: &str) -> (widget: TextWidget)
        ensures
            widget@ == (SegmentView { icon: name@, ..self@ }),
    {
        TextWidget { text: self.text, icon: name.to_owned(), state: self.state }
    }

    /// The widget with its severity replaced.
    pub fn with_state(self, state: State) -> (widget: TextWidget)
        ensures
            widget@ == (SegmentView { state: state, ..self@ }),
    {
        TextWidget { text: self.text, icon: self.icon, state }
    }

    /// Replaces the text and nothing else.
    pub fn set_text(&mut self, text: String)
        ensures
            final(self)@ == (SegmentView { text: text@, ..old(self)@ }),
    {
        self.text = text;
    }

    /// Replaces the icon key and nothing else.
    pub fn set_icon(&mut self, name: &str)
        ensures
            final(self)@ == (SegmentView { icon: name@, ..old(self)@ }),
    {
        self.icon = name.to_owned();
    }

    /// Replaces the severity and nothing else.
    pub fn set_state(&mut self, state: State)
        ensures
            final(self)@ == (SegmentView { state: state, ..old(self)@ }),
    {
        self.state = state;
    }

    /// The display segment that shows what the widget holds now.
    pub fn segment(&self) -> (segment: DisplaySegment)
        ensures
            segment@ == self@,
    {
        DisplaySegment { text: self.text.clone(), icon: self.icon.clone(), state: self.state }
    }
}

} // verus!
