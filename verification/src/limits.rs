use vstd::prelude::*;

verus! {

/// Number of counts in one PWM period of the PCA9685 (12-bit counter).
pub const PCA_PWM_RESOLUTION: u16 = 4096;

/// Bounds, both inclusive, on the off-count that a channel may be given.
#[derive(Clone, Copy, Debug, PartialEq, Eq, Structural)]
pub struct ChannelCountLimits {
    pub min_on_count: u16,
    pub max_on_count: u16,
}

impl ChannelCountLimits {
    /// The limits that apply to a channel with no custom limits: the whole
    /// period, from always off (0) to always on (`PCA_PWM_RESOLUTION`).
    pub open spec fn default_spec() -> ChannelCountLimits {
        ChannelCountLimits { min_on_count: 0, max_on_count: PCA_PWM_RESOLUTION }
    }

    /// The limits that apply to a channel with no custom limits.
    pub fn channel_default() -> (r: ChannelCountLimits)
        ensures
            r == Self::default_spec(),
    {
        ChannelCountLimits { min_on_count: 0, max_on_count: PCA_PWM_RESOLUTION }
    }

    /// `count` lies within these limits.
    pub open spec fn admits(self, count: u16) -> bool {
        self.min_on_count <= count <= self.max_on_count
    }

    /// Whether `count` lies within these limits, both ends included.
    pub fn is_valid(&self, count: u16) -> (r: bool)
        ensures
            r == self.admits(count),
    {
        self.min_on_count <= count && count <= self.max_on_count
    }
}

} // verus!
