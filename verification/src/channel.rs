use vstd::prelude::*;
use crate::driver::{Command, DriverError, Pca9685Proxy};
use crate::error::{Pca9685Error, Pca9685Result};
use crate::limits::{ChannelCountLimits, PCA_PWM_RESOLUTION};

verus! {

/// The state of one output channel: which channel it is, the off-count it
/// was last set to (`None` when it was switched fully off, or never set),
/// and the custom limits on its off-count, if any.
#[derive(Clone, Copy, Debug)]
pub struct ChannelConfig {
    pub channel: pwm_pca9685::Channel,
    pub current_count: Option<u16>,
    pub custom_limits: Option<ChannelCountLimits>,
}

impl ChannelConfig {
    /// The limits that govern this channel: its custom limits, or the
    /// default ones (the whole period) when it has none.
    pub open spec fn effective_limits(self) -> ChannelCountLimits {
        match self.custom_limits {
            Some(limits) => limits,
            None => ChannelCountLimits::default_spec(),
        }
    }

    /// This configuration with the output count replaced.
    pub open spec fn with_count(self, count: Option<u16>) -> ChannelConfig {
        ChannelConfig { current_count: count, ..self }
    }

    /// This configuration with the custom limits replaced.
    pub open spec fn with_limits(self, limits: Option<ChannelCountLimits>) -> ChannelConfig {
        ChannelConfig { custom_limits: limits, ..self }
    }

    /// The state after the channel was switched fully on.
    pub open spec fn full_on_state(self) -> ChannelConfig {
        self.with_count(Some(PCA_PWM_RESOLUTION))
    }

    /// The state after the channel was switched fully off.
    pub open spec fn full_off_state(self) -> ChannelConfig {
        self.with_count(None)
    }

    /// The state after an off-count request that the limits admitted, given
    /// whether the driver accepted the command. A request for the full
    /// resolution switches the channel fully on, which is recorded whatever
    /// the driver answers; any other count is recorded only once the driver
    /// accepted it.
    pub open spec fn count_state(self, count: u16, driver_ok: bool) -> ChannelConfig {
        if count == PCA_PWM_RESOLUTION {
            self.full_on_state()
        } else if driver_ok {
            self.with_count(Some(count))
        } else {
            self
        }
    }
}

/// The command that an admitted off-count request sends for `channel`: the
/// full resolution switches the channel fully on, any other count is sent as
/// an off-count.
pub open spec fn command_for_count(channel: pwm_pca9685::Channel, count: u16) -> Command {
    if count == PCA_PWM_RESOLUTION {
        Command::FullOn(channel)
    } else {
        Command::OffCount(channel, count)
    }
}

/// What a channel operation hands back once the driver has answered with
/// `outcome`: the channel's configuration `cfg` on success, the driver's
/// error otherwise.
pub open spec fn report_of(cfg: ChannelConfig, outcome: Result<(), DriverError>) -> Pca9685Result<
    ChannelConfig,
> {
    match outcome {
        Ok(_) => Ok(cfg),
        Err(e) => Err(Pca9685Error::Pca9685DriverError(e)),
    }
}

/// The device `new` answered exactly one more command than `old`, and its
/// earlier answers are kept.
pub open spec fn answered_once(
    old: Seq<Result<(), DriverError>>,
    new: Seq<Result<(), DriverError>>,
) -> bool {
    &&& new.len() == old.len() + 1
    &&& new == old.push(new.last())
}

/// One output channel of a PCA9685, with the limits on its off-count and a
/// record of what it was last told to output.
pub struct ChannelProxy {
    config: ChannelConfig,
}

impl View for ChannelProxy {
    type V = ChannelConfig;

    closed spec fn view(&self) -> ChannelConfig {
        self.config
    }
}

impl ChannelProxy {
    /// A proxy for `channel`, with no output recorded and no custom limits.
    pub fn new(channel: pwm_pca9685::Channel) -> (r: ChannelProxy)
        ensures
            r@ == (ChannelConfig { channel, current_count: None, custom_limits: None }),
    {
        ChannelProxy { config: ChannelConfig { channel, current_count: None, custom_limits: None } }
    }

    /// Applies the custom limits of `config`; its other fields are ignored.
    /// Returns the resulting configuration.
    pub fn configure(&mut self, config: &ChannelConfig) -> (r: ChannelConfig)
        ensures
            final(self)@ == old(self)@.with_limits(config.custom_limits),
            final(self)@.channel == old(self)@.channel,
            final(self)@.current_count == old(self)@.current_count,
            final(self)@.custom_limits == config.custom_limits,
            r == final(self)@,
    {
        self.configure_limits(&config.custom_limits)
    }

    /// A copy of the channel's current configuration.
    pub fn config(&self) -> (r: ChannelConfig)
        ensures
            r == self@,
    {
        ChannelConfig {
            channel: self.config.channel,
            current_count: match self.config.current_count {
                Some(pwm_count) => Some(pwm_count),
                None => None,
            },
            custom_limits: match &self.config.custom_limits {
                Some(limits) => Some(
                    ChannelCountLimits {
                        min_on_count: limits.min_on_count,
                        max_on_count: limits.max_on_count,
                    },
                ),
                None => None,
            },
        }
    }

    /// Replaces the channel's custom limits (`None` restores the default
    /// limits) and returns the resulting configuration. The recorded output
    /// is left as it is, even where it falls outside the new limits.
    pub fn configure_limits(&mut self, custom_limits: &Option<ChannelCountLimits>) -> (r:
        ChannelConfig)
        ensures
            final(self)@ == old(self)@.with_limits(*custom_limits),
            final(self)@.channel == old(self)@.channel,
            final(self)@.current_count == old(self)@.current_count,
            final(self)@.custom_limits == *custom_limits,
            r == final(self)@,
    {
        match custom_limits {
            Some(limits) => {
                self.config.custom_limits = Some(
                    ChannelCountLimits {
                        max_on_count: limits.max_on_count,
                        min_on_count: limits.min_on_count,
                    },
                );
            },
            None => {
                self.config.custom_limits = None;
            },
        }
        self.config()
    }

    /// The limits that govern this channel's off-count: its custom limits,
    /// or the whole period when it has none.
    pub fn effective_limits(&self) -> (r: ChannelCountLimits)
        ensures
            r == self@.effective_limits(),
    {
        match &self.config.custom_limits {
            Some(limits) => *limits,
            None => ChannelCountLimits::channel_default(),
        }
    }

    /// The width of the channel's limits, `max_on_count - min_on_count`, over
    /// which a percentage of the range is taken; `None` where the limits
    /// are inverted (the lower one above the upper one).
    pub fn pwm_range_width(&self) -> (r: Option<u16>)
        ensures
            r == (if self@.effective_limits().min_on_count <= self@.effective_limits().max_on_count {
                Some(
                    (self@.effective_limits().max_on_count
                        - self@.effective_limits().min_on_count) as u16,
                )
            } else {
                None
            }),
    {
        let limits = self.effective_limits();
        if limits.min_on_count <= limits.max_on_count {
            Some(limits.max_on_count - limits.min_on_count)
        } else {
            None
        }
    }

    /// The count `offset` counts above the channel's lower limit; `None`
    /// where that does not fit in a `u16`.
    pub fn count_above_min(&self, offset: u16) -> (r: Option<u16>)
        ensures
            r == (if self@.effective_limits().min_on_count + offset <= u16::MAX {
                Some((self@.effective_limits().min_on_count + offset) as u16)
            } else {
                None
            }),
    {
        let limits = self.effective_limits();
        if offset <= u16::MAX - limits.min_on_count {
            Some(limits.min_on_count + offset)
        } else {
            None
        }
    }

    /// What a channel operation hands back once the driver answered with
    /// `outcome`: the current configuration on success, the driver's error
    /// otherwise.
    pub fn report(&self, outcome: Result<(), DriverError>) -> (r: Pca9685Result<ChannelConfig>)
        ensures
            r == report_of(self@, outcome),
    {
        match outcome {
            Ok(()) => Ok(self.config()),
            Err(error) => Err(Pca9685Error::Pca9685DriverError(error)),
        }
    }

    /// Records an off-count that the driver was asked to apply, given the
    /// driver's answer `outcome`: the count is recorded only where the
    /// driver accepted it. Returns what the channel operation hands back.
    pub fn record_off_count(&mut self, pwm_off_count: u16, outcome: Result<(), DriverError>) -> (r:
        Pca9685Result<ChannelConfig>)
        ensures
            final(self)@ == (if outcome is Ok {
                old(self)@.with_count(Some(pwm_off_count))
            } else {
                old(self)@
            }),
            final(self)@.channel == old(self)@.channel,
            final(self)@.custom_limits == old(self)@.custom_limits,
            final(self)@.current_count == (if outcome is Ok {
                Some(pwm_off_count)
            } else {
                old(self)@.current_count
            }),
            r == report_of(final(self)@, outcome),
    {
        match outcome {
            Ok(()) => {
                self.config.current_count = Some(pwm_off_count);
                Ok(self.config())
            },
            Err(error) => Err(Pca9685Error::Pca9685DriverError(error)),
        }
    }

    /// Switches the channel fully on: sends one full-on command for this
    /// channel. The output is recorded as the full resolution before the
    /// driver is called, whatever it answers.
    pub fn full_on(&mut self, pca: &mut Box<dyn Pca9685Proxy>) -> (r: Pca9685Result<ChannelConfig>)
        ensures
            final(pca).sent() == old(pca).sent().push(Command::FullOn(old(self)@.channel)),
            answered_once(old(pca).answers(), final(pca).answers()),
            final(self)@ == old(self)@.full_on_state(),
            final(self)@.channel == old(self)@.channel,
            final(self)@.custom_limits == old(self)@.custom_limits,
            final(self)@.current_count == Some(PCA_PWM_RESOLUTION),
            r == report_of(final(self)@, final(pca).answers().last()),
    {
        self.config.current_count = Some(PCA_PWM_RESOLUTION);
        let outcome = pca.set_channel_full_on(self.config.channel);
        self.report(outcome)
    }

    /// Switches the channel fully off: sends one full-off command for this
    /// channel. The output is recorded as none before the driver is called,
    /// whatever it answers.
    pub fn full_off(&mut self, pca: &mut Box<dyn Pca9685Proxy>) -> (r: Pca9685Result<ChannelConfig>)
        ensures
            final(pca).sent() == old(pca).sent().push(Command::FullOff(old(self)@.channel)),
            answered_once(old(pca).answers(), final(pca).answers()),
            final(self)@ == old(self)@.full_off_state(),
            final(self)@.channel == old(self)@.channel,
            final(self)@.custom_limits == old(self)@.custom_limits,
            final(self)@.current_count is None,
            r == report_of(final(self)@, final(pca).answers().last()),
    {
        self.config.current_count = None;
        let outcome = pca.set_channel_full_off(self.config.channel);
        self.report(outcome)
    }

    /// Sets the channel to switch off after `pwm_off_count` counts of each
    /// period. A count outside the channel's limits is refused with
    /// `CustomLimitsError` and changes nothing, on the channel or the device.
    /// An admitted count sends exactly one command to the device. The full
    /// resolution switches the channel fully on (see `full_on`); any other
    /// count is sent to the driver as an off-count and recorded once the
    /// driver accepted it.
    pub fn set_pwm_count(&mut self, pwm_off_count: u16, pca: &mut Box<dyn Pca9685Proxy>) -> (r:
        Pca9685Result<ChannelConfig>)
        ensures
            !old(self)@.effective_limits().admits(pwm_off_count) ==> {
                &&& r == Err::<ChannelConfig, Pca9685Error>(
                    Pca9685Error::CustomLimitsError(pwm_off_count, old(self)@.effective_limits()),
                )
                &&& final(self)@ == old(self)@
                &&& *final(pca) == *old(pca)
            },
            old(self)@.effective_limits().admits(pwm_off_count) ==> {
                &&& final(pca).sent() == old(pca).sent().push(
                    command_for_count(old(self)@.channel, pwm_off_count),
                )
                &&& answered_once(old(pca).answers(), final(pca).answers())
                &&& final(self)@ == old(self)@.count_state(
                    pwm_off_count,
                    final(pca).answers().last() is Ok,
                )
                &&& final(self)@.channel == old(self)@.channel
                &&& final(self)@.custom_limits == old(self)@.custom_limits
                &&& final(self)@.current_count == (if pwm_off_count == PCA_PWM_RESOLUTION
                    || final(pca).answers().last() is Ok {
                    Some(pwm_off_count)
                } else {
                    old(self)@.current_count
                })
                &&& r == report_of(final(self)@, final(pca).answers().last())
            },
    {
        let limits = self.effective_limits();
        if !limits.is_valid(pwm_off_count) {
            return Err(Pca9685Error::CustomLimitsError(pwm_off_count, limits));
        }
        if pwm_off_count == PCA_PWM_RESOLUTION {
            self.full_on(pca)
        } else {
            let outcome = pca.set_channel_off_count(self.config.channel, pwm_off_count);
            self.record_off_count(pwm_off_count, outcome)
        }
    }
}

} // verus!
