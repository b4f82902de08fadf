//! The firewall block: shows whether the firewall is switched on and its
//! service is running.

use vstd::prelude::*;
use crossbeam_channel::Sender;
use crate::blocks::{face_of, reading_of, widget_for, Block, ConfigBlock, Reading};
use crate::config::Config;
use crate::errors::{BlockError, ConfigError, ProbeError};
use crate::fragment::{read_interval, read_outcome, ConfigEntry, DEFAULT_INTERVAL_SECS};
use crate::input::I3BarEvent;
use crate::interval::{Interval, NANOS_PER_SEC};
use crate::lines::{any_line_contains, any_line_is, has_line, has_line_containing, read_text, text_of};
use crate::scheduler::{Task, Update};
use crate::widget::{DisplaySegment, SegmentView, State, TextWidget};

verus! {

/// The key of the block's icon.
pub const FIREWALL_ICON: &'static str = "firewall";

/// The line of the firewall's configuration that switches it on.
pub const ENABLED_LINE: &'static str = "ENABLED=yes";

/// What a line of the service manager's report holds while the service runs.
pub const ACTIVE_MARK: &'static str = "Active: active ";

/// The typed configuration of a firewall block.
#[derive(Debug, Clone, Copy, PartialEq, Eq)]
pub struct FirewallConfig {
    /// The time between two polls.
    pub interval: Interval,
}

impl FirewallConfig {
    /// The interval of a block that is configured without one: five seconds.
    pub fn default_interval() -> (interval: Interval)
        ensures
            interval@ == DEFAULT_INTERVAL_SECS * NANOS_PER_SEC,
    {
        Interval::from_secs(DEFAULT_INTERVAL_SECS)
    }

    /// The typed configuration that a fragment stands for, or the first
    /// fault of the fragment.
    pub fn from_entries(entries: &Vec<ConfigEntry>) -> (result: Result<FirewallConfig, ConfigError>)
        ensures
            match read_outcome(entries@) {
                Ok(span) => result matches Ok(block_config) && block_config.interval@ == span,
                Err(fault) => result matches Err(e) && e@ == fault,
            },
    {
        match read_interval(entries) {
            Ok(interval) => Ok(FirewallConfig { interval }),
            Err(e) => Err(e),
        }
    }
}

impl Default for FirewallConfig {
    /// The configuration with the default interval.
    fn default() -> (block_config: FirewallConfig)
        ensures
            block_config.interval@ == DEFAULT_INTERVAL_SECS * NANOS_PER_SEC,
    {
        FirewallConfig { interval: FirewallConfig::default_interval() }
    }
}

/// The firewall is up: its configuration holds the line that switches it
/// on, and the service manager reports its service as running.
pub open spec fn ufw_is_up(ufw_conf: Seq<char>, service_status: Seq<char>) -> bool {
    any_line_is(ufw_conf, ENABLED_LINE@) && any_line_contains(service_status, ACTIVE_MARK@)
}

/// Whether the firewall is up, from the text of its configuration file and
/// the bytes that the service manager printed about its service. Bytes that
/// are no text are a failure of the probe, whatever the configuration says.
pub fn is_ufw_active(ufw_conf: &str, status_output: Vec<u8>) -> (result: Result<bool, ProbeError>)
    ensures
        match text_of(status_output@) {
            Some(service_status) => result == Ok::<bool, ProbeError>(
                ufw_is_up(ufw_conf@, service_status),
            ),
            None => result == Err::<bool, ProbeError>(ProbeError::UnexpectedFormat),
        },
{
    let enabled = has_line(ufw_conf, ENABLED_LINE);
    match read_text(status_output) {
        Ok(service_status) => {
            let active = has_line_containing(service_status.as_str(), ACTIVE_MARK);
            Ok(enabled && active)
        },
        Err(e) => Err(e),
    }
}

/// A block that shows whether the firewall is up.
pub struct Firewall {
    text: TextWidget,
    id: String,
    update_interval: Interval,
    #[allow(dead_code)]
    config: Config,
    #[allow(dead_code)]
    tx_update_request: Sender<Task>,
}

impl Firewall {
    /// The interval is strictly positive, the icon is the firewall's, and
    /// the widget shows the block's reading and nothing else.
    #[verifier::type_invariant]
    pub closed spec fn inv(&self) -> bool {
        &&& self.update_interval@ > 0
        &&& self.text@ == face_of(self.reading(), FIREWALL_ICON@)
    }

    /// What the block knows of the firewall.
    pub closed spec fn reading(&self) -> Reading {
        match self.text@.state {
            State::Idle => Reading::Unknown,
            State::Good => Reading::Good,
            _ => Reading::Critical,
        }
    }

    /// What the invariant says in terms that a caller can use: a block waits
    /// a strictly positive time between polls and shows one segment, the
    /// face of its reading.
    pub proof fn lemma_inv(&self)
        requires
            self.inv(),
        ensures
            self.interval()@ > 0,
            self.shown() == seq![face_of(self.reading(), FIREWALL_ICON@)],
    {
    }

    /// Builds the block from a fragment. It is built exactly where the
    /// fragment has no fault, with the interval that the fragment gives or
    /// the default; where it has one, the first fault comes back.
    pub fn from_entries(
        entries: &Vec<ConfigEntry>,
        config: Config,
        tx_update_request: Sender<Task>,
        id: String,
    ) -> (made: Result<Firewall, ConfigError>)
        ensures
            match read_outcome(entries@) {
                Ok(span) => made matches Ok(block) && block.interval()@ == span && block.identity()
                    == id@ && block.reading() == Reading::Unknown && block.shown() == seq![
                    face_of(Reading::Unknown, FIREWALL_ICON@),
                ],
                Err(fault) => made matches Err(e) && e@ == fault,
            },
    {
        match FirewallConfig::from_entries(entries) {
            Ok(block_config) => Firewall::new(block_config, config, tx_update_request, id),
            Err(e) => Err(e),
        }
    }
}

impl ConfigBlock for Firewall {
    type Config = FirewallConfig;

    open spec fn wanted_interval(block_config: &FirewallConfig) -> Interval {
        block_config.interval
    }

    /// The new block knows nothing of the firewall yet and shows an empty,
    /// neutral segment.
    fn new(
        block_config: FirewallConfig,
        config: Config,
        tx_update_request: Sender<Task>,
        id: String,
    ) -> (made: Result<Firewall, ConfigError>)
        ensures
            made matches Ok(block) ==> block.reading() == Reading::Unknown && block.shown() == seq![
                face_of(Reading::Unknown, FIREWALL_ICON@),
            ],
    {
        if block_config.interval.is_zero() {
            return Err(ConfigError::InvalidInterval);
        }
        proof {
            reveal_strlit("");
            assert(""@ =~= Seq::<char>::empty());
        }
        Ok(
            Firewall {
                id,
                update_interval: block_config.interval,
                text: TextWidget::new().with_text("").with_icon(FIREWALL_ICON),
                tx_update_request,
                config,
            },
        )
    }
}

impl Block for Firewall {
    closed spec fn identity(&self) -> Seq<char> {
        self.id@
    }

    closed spec fn interval(&self) -> Interval {
        self.update_interval
    }

    closed spec fn shown(&self) -> Seq<SegmentView> {
        seq![self.text@]
    }

    /// The block takes the reading that the probe gives, and always asks
    /// to be polled again after its interval.
    fn update(&mut self, probe: Result<bool, ProbeError>) -> (next: Result<
        Option<Update>,
        BlockError,
    >)
        ensures
            next == Ok::<Option<Update>, BlockError>(
                Some(Update::RescheduleAfter(old(self).interval())),
            ),
            final(self).reading() == reading_of(probe),
            final(self).shown() == seq![face_of(reading_of(probe), FIREWALL_ICON@)],
    {
        proof {
            use_type_invariant(&*self);
        }
        self.text = widget_for(probe, FIREWALL_ICON);
        Ok(Some(Update::from(self.update_interval)))
    }

    /// One segment: the face of the block's reading, with the firewall's
    /// icon.
    fn view(&self) -> (segments: Vec<DisplaySegment>)
        ensures
            segments.len() == 1,
            segments[0]@ == face_of(self.reading(), FIREWALL_ICON@),
    {
        proof {
            use_type_invariant(self);
        }
        vec![self.text.segment()]
    }

    /// A click does nothing to the block, whatever it holds.
    fn click(&mut self, event: &I3BarEvent) -> (done: Result<(), BlockError>)
        ensures
            done == Ok::<(), BlockError>(()),
            *final(self) == *old(self),
    {
        Ok(())
    }

    fn id(&self) -> (id: &str) {
        self.id.as_str()
    }
}

} // verus!
