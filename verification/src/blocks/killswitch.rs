//! The kill-switch block: shows whether the firewall drops outgoing traffic
//! by default.

use vstd::prelude::*;
use crossbeam_channel::Sender;
use crate::blocks::{face_of, reading_of, widget_for, Block, ConfigBlock, Reading};
use crate::config::Config;
use crate::errors::{BlockError, ConfigError, ProbeError};
use crate::fragment::{read_interval, read_outcome, ConfigEntry, DEFAULT_INTERVAL_SECS};
use crate::input::I3BarEvent;
use crate::interval::{Interval, NANOS_PER_SEC};
use crate::lines::{any_line_is, has_line};
use crate::scheduler::{Task, Update};
use crate::widget::{DisplaySegment, SegmentView, State, TextWidget};

verus! {

/// The key of the block's icon.
pub const KILLSWITCH_ICON: &'static str = "killswitch";

/// The line of the firewall's defaults that drops outgoing traffic.
pub const DROP_POLICY_LINE: &'static str = "DEFAULT_OUTPUT_POLICY=\"DROP\"";

/// The typed configuration of a kill-switch block.
#[derive(Debug, Clone, Copy, PartialEq, Eq)]
pub struct KillswitchConfig {
    /// The time between two polls.
    pub interval: Interval,
}

impl KillswitchConfig {
    /// The interval of a block that is configured without one: five seconds.
    pub fn default_interval() -> (interval: Interval)
        ensures
            interval@ == DEFAULT_INTERVAL_SECS * NANOS_PER_SEC,
    {
        Interval::from_secs(DEFAULT_INTERVAL_SECS)
    }

    /// The typed configuration that a fragment stands for, or the first
    /// fault of the fragment.
    pub fn from_entries(entries: &Vec<ConfigEntry>) -> (result: Result<KillswitchConfig, ConfigError>)
        ensures
            match read_outcome(entries@) {
                Ok(span) => result matches Ok(block_config) && block_config.interval@ == span,
                Err(fault) => result matches Err(e) && e@ == fault,
            },
    {
        match read_interval(entries) {
            Ok(interval) => Ok(KillswitchConfig { interval }),
            Err(e) => Err(e),
        }
    }
}

impl Default for KillswitchConfig {
    /// The configuration with the default interval.
    fn default() -> (block_config: KillswitchConfig)
        ensures
            block_config.interval@ == DEFAULT_INTERVAL_SECS * NANOS_PER_SEC,
    {
        KillswitchConfig { interval: KillswitchConfig::default_interval() }
    }
}

/// The kill switch is on: the firewall's defaults hold the line that drops
/// outgoing traffic.
pub open spec fn killswitch_is_on(ufw_defaults: Seq<char>) -> bool {
    any_line_is(ufw_defaults, DROP_POLICY_LINE@)
}

/// Whether the kill switch is on, from the text of the firewall's defaults.
pub fn is_killswitch_active(ufw_defaults: &str) -> (active: bool)
    ensures
        active == killswitch_is_on(ufw_defaults@),
{
    has_line(ufw_defaults, DROP_POLICY_LINE)
}

/// A block that shows whether the kill switch is on.
pub struct Killswitch {
    text: TextWidget,
    id: String,
    update_interval: Interval,
    #[allow(dead_code)]
    config: Config,
    #[allow(dead_code)]
    tx_update_request: Sender<Task>,
}

impl Killswitch {
    /// The interval is strictly positive, the icon is the kill switch's, and
    /// the widget shows the block's reading and nothing else.
    #[verifier::type_invariant]
    pub closed spec fn inv(&self) -> bool {
        &&& self.update_interval@ > 0
        &&& self.text@ == face_of(self.reading(), KILLSWITCH_ICON@)
    }

    /// What the block knows of the kill switch.
    pub closed spec fn reading(&self) -> Reading {
        match self.text@.state {
            State::Idle => Reading::Unknown,
            State::Good => Reading::Good,
            _ => Reading::Critical,
        }
    }

    /// What the invariant says in terms that a caller can use: a block waits
    /// a strictly positive time between polls and shows one segment, the
    /// face of its reading.
    pub proof fn lemma_inv(&self)
        requires
            self.inv(),
        ensures
            self.interval()@ > 0,
            self.shown() == seq![face_of(self.reading(), KILLSWITCH_ICON@)],
    {
    }

    /// Builds the block from a fragment. It is built exactly where the
    /// fragment has no fault, with the interval that the fragment gives or
    /// the default; where it has one, the first fault comes back.
    pub fn from_entries(
        entries: &Vec<ConfigEntry>,
        config: Config,
        tx_update_request: Sender<Task>,
        id: String,
    ) -> (made: Result<Killswitch, ConfigError>)
        ensures
            match read_outcome(entries@) {
                Ok(span) => made matches Ok(block) && block.interval()@ == span && block.identity()
                    == id@ && block.reading() == Reading::Unknown && block.shown() == seq![
                    face_of(Reading::Unknown, KILLSWITCH_ICON@),
                ],
                Err(fault) => made matches Err(e) && e@ == fault,
            },
    {
        match KillswitchConfig::from_entries(entries) {
            Ok(block_config) => Killswitch::new(block_config, config, tx_update_request, id),
            Err(e) => Err(e),
        }
    }
}

impl ConfigBlock for Killswitch {
    type Config = KillswitchConfig;

    open spec fn wanted_interval(block_config: &KillswitchConfig) -> Interval {
        block_config.interval
    }

    /// The new block knows nothing of the kill switch yet and shows an empty,
    /// neutral segment.
    fn new(
        block_config: KillswitchConfig,
        config: Config,
        tx_update_request: Sender<Task>,
        id: String,
    ) -> (made: Result<Killswitch, ConfigError>)
        ensures
            made matches Ok(block) ==> block.reading() == Reading::Unknown && block.shown() == seq![
                face_of(Reading::Unknown, KILLSWITCH_ICON@),
            ],
    {
        if block_config.interval.is_zero() {
            return Err(ConfigError::InvalidInterval);
        }
        proof {
            reveal_strlit("");
            assert(""@ =~= Seq::<char>::empty());
        }
        Ok(
            Killswitch {
                id,
                update_interval: block_config.interval,
                text: TextWidget::new().with_text("").with_icon(KILLSWITCH_ICON),
                tx_update_request,
                config,
            },
        )
    }
}

impl Block for Killswitch {
    closed spec fn identity(&self) -> Seq<char> {
        self.id@
    }

    closed spec fn interval(&self) -> Interval {
        self.update_interval
    }

    closed spec fn shown(&self) -> Seq<SegmentView> {
        seq![self.text@]
    }

    /// The block takes the reading that the probe gives, and always asks
    /// to be polled again after its interval.
    fn update(&mut self, probe: Result<bool, ProbeError>) -> (next: Result<
        Option<Update>,
        BlockError,
    >)
        ensures
            next == Ok::<Option<Update>, BlockError>(
                Some(Update::RescheduleAfter(old(self).interval())),
            ),
            final(self).reading() == reading_of(probe),
            final(self).shown() == seq![face_of(reading_of(probe), KILLSWITCH_ICON@)],
    {
        proof {
            use_type_invariant(&*self);
        }
        self.text = widget_for(probe, KILLSWITCH_ICON);
        Ok(Some(Update::from(self.update_interval)))
    }

    /// One segment: the face of the block's reading, with the kill
    /// switch's icon.
    fn view(&self) -> (segments: Vec<DisplaySegment>)
        ensures
            segments.len() == 1,
            segments[0]@ == face_of(self.reading(), KILLSWITCH_ICON@),
    {
        proof {
            use_type_invariant(self);
        }
        vec![self.text.segment()]
    }

    /// A click does nothing to the block, whatever it holds.
    fn click(&mut self, event: &I3BarEvent) -> (done: Result<(), BlockError>)
        ensures
            done == Ok::<(), BlockError>(()),
            *final(self) == *old(self),
    {
        Ok(())
    }

    fn id(&self) -> (id: &str) {
        self.id.as_str()
    }
}

} // verus!
