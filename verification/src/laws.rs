//! Properties of the channel model that relate several operations.

use vstd::prelude::*;
use crate::channel::{command_for_count, ChannelConfig};
use crate::driver::Command;
use crate::limits::{ChannelCountLimits, PCA_PWM_RESOLUTION};

verus! {

/// Without custom limits a channel accepts exactly the off-counts from 0 up
/// to the full resolution, both included.
pub proof fn law_default_limits_span_the_period(cfg: ChannelConfig, count: u16)
    requires
        cfg.custom_limits is None,
    ensures
        cfg.effective_limits().admits(count) <==> count <= PCA_PWM_RESOLUTION,
{
}

/// After `configure_limits(l)`, the counts a channel accepts are those
/// within `l`, or those of the whole period when `l` is `None`.
pub proof fn law_configured_limits_govern(
    cfg: ChannelConfig,
    limits: Option<ChannelCountLimits>,
    count: u16,
)
    ensures
        cfg.with_limits(limits).effective_limits().admits(count) <==> match limits {
            Some(l) => l.min_on_count <= count <= l.max_on_count,
            None => count <= PCA_PWM_RESOLUTION,
        },
{
}

/// Configuring the same limits twice is the same as configuring them once.
pub proof fn law_configure_limits_idempotent(
    cfg: ChannelConfig,
    limits: Option<ChannelCountLimits>,
)
    ensures
        cfg.with_limits(limits).with_limits(limits) == cfg.with_limits(limits),
{
}

/// Changing a channel's limits and changing its output are independent: in
/// either order they give the same configuration, and neither one changes
/// which channel it is.
pub proof fn law_limits_and_output_commute(
    cfg: ChannelConfig,
    limits: Option<ChannelCountLimits>,
    count: Option<u16>,
)
    ensures
        cfg.with_limits(limits).with_count(count) == cfg.with_count(count).with_limits(limits),
        cfg.with_limits(limits).channel == cfg.channel,
        cfg.with_count(count).channel == cfg.channel,
        cfg.with_count(count).effective_limits() == cfg.effective_limits(),
{
}

/// Switching a channel fully off or fully on changes only its recorded
/// output: the channel and its custom limits stay, and so does the set of
/// off-counts it admits.
pub proof fn law_full_switches_change_only_the_output(cfg: ChannelConfig, count: u16)
    ensures
        cfg.full_off_state().current_count is None,
        cfg.full_off_state().channel == cfg.channel,
        cfg.full_off_state().custom_limits == cfg.custom_limits,
        cfg.full_off_state().effective_limits().admits(count) == cfg.effective_limits().admits(
            count,
        ),
        cfg.full_on_state().current_count == Some(PCA_PWM_RESOLUTION),
        cfg.full_on_state().channel == cfg.channel,
        cfg.full_on_state().custom_limits == cfg.custom_limits,
        cfg.full_on_state().effective_limits().admits(count) == cfg.effective_limits().admits(
            count,
        ),
{
}

/// An admitted off-count request changes only the recorded output: it
/// becomes the count where the device accepted it or where it switched the
/// channel fully on, and stays as it was otherwise; the channel and its
/// custom limits stay, and so does the set of off-counts it admits.
pub proof fn law_count_requests_change_only_the_output(
    cfg: ChannelConfig,
    count: u16,
    driver_ok: bool,
    other: u16,
)
    ensures
        cfg.count_state(count, driver_ok).current_count == (if count == PCA_PWM_RESOLUTION
            || driver_ok {
            Some(count)
        } else {
            cfg.current_count
        }),
        cfg.count_state(count, driver_ok).channel == cfg.channel,
        cfg.count_state(count, driver_ok).custom_limits == cfg.custom_limits,
        cfg.count_state(count, driver_ok).effective_limits().admits(other)
            == cfg.effective_limits().admits(other),
{
}

/// Changing the limits changes nothing but the limits, and replacing the
/// output changes nothing but the output.
pub proof fn law_updates_touch_one_field(
    cfg: ChannelConfig,
    limits: Option<ChannelCountLimits>,
    count: Option<u16>,
)
    ensures
        cfg.with_limits(limits).custom_limits == limits,
        cfg.with_limits(limits).current_count == cfg.current_count,
        cfg.with_limits(limits).channel == cfg.channel,
        cfg.with_count(count).current_count == count,
        cfg.with_count(count).custom_limits == cfg.custom_limits,
        cfg.with_count(count).channel == cfg.channel,
{
}

/// Requesting the full resolution as an off-count leaves a channel in the
/// same state as switching it fully on, whatever the driver answers.
pub proof fn law_full_resolution_count_is_full_on(cfg: ChannelConfig, driver_ok: bool)
    ensures
        cfg.count_state(PCA_PWM_RESOLUTION, driver_ok) == cfg.full_on_state(),
{
}

/// An admitted request for the full resolution sends a full-on command for
/// the channel, and any other admitted count is sent as that off-count.
pub proof fn law_command_for_count(channel: pwm_pca9685::Channel, count: u16)
    ensures
        count == PCA_PWM_RESOLUTION ==> command_for_count(channel, count) == Command::FullOn(
            channel,
        ),
        count != PCA_PWM_RESOLUTION ==> command_for_count(channel, count) == Command::OffCount(
            channel,
            count,
        ),
{
}

/// Every offset from 0 up to the width of well-ordered limits, added to the
/// lower limit, gives a count that fits in a `u16` and that the limits
/// admit: a percentage of the range never leaves the limits.
pub proof fn law_offsets_within_width_are_admitted(cfg: ChannelConfig, offset: u16)
    requires
        cfg.effective_limits().min_on_count <= cfg.effective_limits().max_on_count,
        offset <= cfg.effective_limits().max_on_count - cfg.effective_limits().min_on_count,
    ensures
        cfg.effective_limits().min_on_count + offset <= u16::MAX,
        cfg.effective_limits().admits((cfg.effective_limits().min_on_count + offset) as u16),
{
}

/// An off-count that the driver accepted is what the channel then reports
/// as its output.
pub proof fn law_accepted_count_is_read_back(cfg: ChannelConfig, count: u16)
    ensures
        cfg.count_state(count, true).current_count == Some(count),
{
}

/// Switching a channel fully off, then fully on (or the reverse), leaves it
/// as switching it fully on (fully off) alone does: only the last command
/// counts.
pub proof fn law_last_switch_wins(cfg: ChannelConfig)
    ensures
        cfg.full_off_state().full_on_state() == cfg.full_on_state(),
        cfg.full_on_state().full_off_state() == cfg.full_off_state(),
{
}

} // verus!
