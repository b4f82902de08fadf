//! Status-bar blocks: small units that are polled on a timer, keep a
//! renderable reading of some outside condition, and tell the scheduler when
//! to poll them again.
//!
//! A block never touches the outside world itself. Whoever polls it reads
//! the files and runs the commands, hands the text to the block's probe
//! function, and hands what the probe found to `update`. Everything that is
//! decided on the way (what a fragment of configuration means, which lines
//! of a file count, what a reading looks like in the bar) is decided here.
//!
//! - [`interval`]: the time between two polls.
//! - [`fragment`]: configuration as keys and values, and its strict reading.
//! - [`lines`]: text as lines, and the searches that the probes need.
//! - [`widget`]: severities, the text widget and display segments.
//! - [`scheduler`], [`input`], [`config`]: what the scheduler, the bar and
//!   the configuration hand to a block.
//! - [`blocks`]: what every block is, and the firewall and kill-switch
//!   blocks.
//! - [`errors`]: what can go wrong.

pub mod blocks;
pub mod config;
pub mod errors;
pub mod fragment;
pub mod input;
pub mod interval;
pub mod lines;
pub mod scheduler;
pub mod widget;
