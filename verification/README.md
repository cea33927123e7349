# pca9685_proxy

Per-channel control of a PCA9685 PWM controller, verified with Verus.

- `src/limits.rs`: the 12-bit period (`PCA_PWM_RESOLUTION`) and the limits
  on a channel's off-count.
- `src/driver.rs`: the device trait `Pca9685Proxy` that users implement, with
  the logs of output commands (`sent`) and of the device's answers
  (`answers`) that its output methods append to, and
  declarations of the driver types of `pwm-pca9685`.
- `src/error.rs`: the errors of a channel operation and their messages.
- `src/channel.rs`: `ChannelProxy`, which checks requested off-counts against
  the channel's limits, sends the matching command to the device and records
  the channel's output.
- `src/laws.rs`: properties that relate several operations.
- `app/lib.rs`: the floating-point side (pulse widths in milliseconds,
  percentages of the limits) and logging, not verified.
- `tests/`: tests with a stand-in device.
