use vstd::prelude::*;

verus! {

/// The PCA9685 driver's channel selector, carried through unchanged.
#[verifier::external_type_specification]
#[verifier::external_body]
pub struct ExChannel(pwm_pca9685::Channel);

/// The PCA9685 driver's error, carried through unchanged.
#[verifier::external_type_specification]
#[verifier::external_body]
#[verifier::reject_recursive_types(E)]
pub struct ExPwmError<E>(pwm_pca9685::Error<E>);

/// The Linux I2C bus error, carried inside the driver's error.
#[verifier::external_type_specification]
#[verifier::external_body]
pub struct ExLinuxI2CError(linux_embedded_hal::i2cdev::linux::LinuxI2CError);

/// The PCA9685 driver's output driver configuration, carried through
/// unchanged.
#[verifier::external_type_specification]
#[verifier::external_body]
pub struct ExOutputDriver(pwm_pca9685::OutputDriver);

/// What a PCA9685 driver call on a Linux I2C bus fails with.
pub type DriverError = pwm_pca9685::Error<linux_embedded_hal::i2cdev::linux::LinuxI2CError>;

/// An output command sent to a PCA9685 device.
#[derive(Clone, Copy, Debug, PartialEq)]
pub enum Command {
    /// Switch `channel` off after the given number of counts of each period.
    OffCount(pwm_pca9685::Channel, u16),
    /// Keep `channel` on for the whole period.
    FullOn(pwm_pca9685::Channel),
    /// Keep `channel` off for the whole period.
    FullOff(pwm_pca9685::Channel),
}

/// A PCA9685 device that channels send their output commands to.
/// Implemented by users of the library (a real device on an I2C bus, or a
/// stand-in for tests).
///
/// `sent` is the sequence of output commands the device has been given so
/// far, and `answers` the sequence of answers it gave to them. Each output
/// method appends its own command to `sent` and the answer it returns to
/// `answers`, once each; which answer it gives is the device's own business
/// and is not stated. An implementation is held to this by its author, not
/// by Verus.
pub trait Pca9685Proxy {
    /// The output commands this device has been given, oldest first.
    spec fn sent(&self) -> Seq<Command>;

    /// The answers this device gave to its output commands, oldest first.
    spec fn answers(&self) -> Seq<Result<(), DriverError>>;

    /// The PWM output frequency of the device, in Hz.
    fn output_frequency_hz(&self) -> u16;

    /// The path of the I2C bus device that the PCA9685 is on.
    fn device(&self) -> String;

    /// The I2C address of the PCA9685.
    fn address(&self) -> u8;

    /// The prescale value the PCA9685 was configured with.
    fn prescale(&self) -> u8;

    /// The output driver configuration of the PCA9685.
    fn output_type(&self) -> pwm_pca9685::OutputDriver;

    /// Sets `channel` to switch off after `off` counts of each period.
    fn set_channel_off_count(&mut self, channel: pwm_pca9685::Channel, off: u16) -> (r: Result<
        (),
        DriverError,
    >)
        ensures
            final(self).sent() == old(self).sent().push(Command::OffCount(channel, off)),
            final(self).answers() == old(self).answers().push(r),
    ;

    /// Sets `channel` to be on for the whole period.
    fn set_channel_full_on(&mut self, channel: pwm_pca9685::Channel) -> (r: Result<(), DriverError>)
        ensures
            final(self).sent() == old(self).sent().push(Command::FullOn(channel)),
            final(self).answers() == old(self).answers().push(r),
    ;

    /// Sets `channel` to be off for the whole period.
    fn set_channel_full_off(&mut self, channel: pwm_pca9685::Channel) -> (r: Result<(), DriverError>)
        ensures
            final(self).sent() == old(self).sent().push(Command::FullOff(channel)),
            final(self).answers() == old(self).answers().push(r),
    ;
}

} // verus!
