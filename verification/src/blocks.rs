//! What every block is: something that can be polled, shown, clicked and
//! told apart, and that can be built from its configuration.

use vstd::prelude::*;
use crossbeam_channel::Sender;
use crate::config::Config;
use crate::errors::{BlockError, ConfigError, ConfigFault, ProbeError};
use crate::input::I3BarEvent;
use crate::interval::Interval;
use crate::scheduler::{Task, Update};
use crate::widget::{DisplaySegment, SegmentView, State, TextWidget};

pub mod firewall;
pub mod killswitch;

verus! {

/// The text of a block whose condition does not hold.
pub const DOWN_TEXT: &'static str = "down";

/// What a block knows of the condition that it watches: nothing before its
/// first poll, and after that what the latest poll found.
pub ghost enum Reading {
    Unknown,
    Good,
    Critical,
}

/// The reading that a poll leaves behind. A probe that failed counts as a
/// condition that does not hold: what cannot be confirmed is shown as down.
pub open spec fn reading_of(probe: Result<bool, ProbeError>) -> Reading {
    match probe {
        Ok(true) => Reading::Good,
        _ => Reading::Critical,
    }
}

/// How a reading is shown by a block with the given icon.
pub open spec fn face_of(reading: Reading, icon: Seq<char>) -> SegmentView {
    match reading {
        Reading::Unknown => SegmentView { text: Seq::empty(), icon, state: State::Idle },
        Reading::Good => SegmentView { text: Seq::empty(), icon, state: State::Good },
        Reading::Critical => SegmentView { text: DOWN_TEXT@, icon, state: State::Critical },
    }
}

/// A widget that shows what a poll found, under the given icon. It is made
/// afresh, so that nothing of an earlier poll is left in it.
pub fn widget_for(probe: Result<bool, ProbeError>, icon: &str) -> (widget: TextWidget)
    ensures
        widget@ == face_of(reading_of(probe), icon@),
{
    let active = match probe {
        Ok(active) => active,
        Err(_) => false,
    };
    let mut widget = TextWidget::new().with_icon(icon);
    widget.set_text(
        if active {
            String::new()
        } else {
            DOWN_TEXT.to_owned()
        },
    );
    widget.set_state(
        if active {
            State::Good
        } else {
            State::Critical
        },
    );
    widget
}

/// A unit of the bar that the scheduler polls and the renderer shows.
pub trait Block {
    /// The identity that the block was built with.
    spec fn identity(&self) -> Seq<char>;

    /// The time that the block wants to pass between two polls.
    spec fn interval(&self) -> Interval;

    /// What the block shows, segment by segment.
    spec fn shown(&self) -> Seq<SegmentView>;

    /// Takes in what the probe found and says when to poll again. The
    /// identity and the interval stay; a wait that is asked for is the
    /// block's interval; and the only failure is that of the probe, passed
    /// on under the block's identity.
    fn update(&mut self, probe: Result<bool, ProbeError>) -> (next: Result<
        Option<Update>,
        BlockError,
    >)
        ensures
            final(self).identity() == old(self).identity(),
            final(self).interval() == old(self).interval(),
            next matches Ok(Some(Update::RescheduleAfter(wait))) ==> wait == old(self).interval(),
            next matches Err(e) ==> probe == Err::<bool, ProbeError>(e.cause) && e.block@ == old(
                self,
            ).identity(),
    ;

    /// The segments to render, which are exactly what the block shows.
    fn view(&self) -> (segments: Vec<DisplaySegment>)
        ensures
            segments.deep_view() == self.shown(),
    ;

    /// Takes a click, whatever it holds. The identity and the interval stay.
    fn click(&mut self, event: &I3BarEvent) -> (done: Result<(), BlockError>)
        ensures
            final(self).identity() == old(self).identity(),
            final(self).interval() == old(self).interval(),
            done matches Err(e) ==> e.block@ == old(self).identity(),
    ;

    /// The identity of the block.
    fn id(&self) -> (id: &str)
        ensures
            id@ == self.identity(),
    ;
}

/// A block that can be built from a typed configuration.
pub trait ConfigBlock: Block + Sized {
    /// The typed configuration of this kind of block.
    type Config;

    /// The interval that a configuration asks for.
    spec fn wanted_interval(block_config: &Self::Config) -> Interval;

    /// Builds the block under the identity `id`. It is built exactly where
    /// the interval asked for is strictly positive, and then has that
    /// interval. Nothing is probed here.
    fn new(
        block_config: Self::Config,
        config: Config,
        tx_update_request: Sender<Task>,
        id: String,
    ) -> (made: Result<Self, ConfigError>)
        ensures
            made is Ok <==> Self::wanted_interval(&block_config)@ > 0,
            made matches Ok(block) ==> block.identity() == id@ && block.interval()
                == Self::wanted_interval(&block_config),
            made matches Err(e) ==> e@ == ConfigFault::InvalidInterval,
    ;
}

/// Two renderings of a block that nothing has touched in between hold the
/// same segments.
pub proof fn lemma_view_repeats<B: Block>(
    block: &B,
    first: Vec<DisplaySegment>,
    second: Vec<DisplaySegment>,
)
    requires
        call_ensures(B::view, (block,), first),
        call_ensures(B::view, (block,), second),
    ensures
        first.deep_view() == second.deep_view(),
{
}

} // verus!
