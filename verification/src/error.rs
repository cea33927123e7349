use vstd::prelude::*;
use crate::driver::DriverError;
use crate::limits::ChannelCountLimits;

verus! {

/// Why a channel operation failed.
#[derive(Debug)]
pub enum Pca9685Error {
    /// The PCA9685 driver reported an error.
    Pca9685DriverError(DriverError),
    /// The requested off-count lies outside the channel's limits; holds the
    /// count and the limits that refused it.
    CustomLimitsError(u16, ChannelCountLimits),
}

/// The result of a channel operation.
pub type Pca9685Result<T> = Result<T, Pca9685Error>;

} // verus!

verus! {

/// The decimal digit character of `d`, for `d` from 0 to 9.
pub open spec fn digit_char(d: nat) -> char {
    if d == 0 {
        '0'
    } else if d == 1 {
        '1'
    } else if d == 2 {
        '2'
    } else if d == 3 {
        '3'
    } else if d == 4 {
        '4'
    } else if d == 5 {
        '5'
    } else if d == 6 {
        '6'
    } else if d == 7 {
        '7'
    } else if d == 8 {
        '8'
    } else {
        '9'
    }
}

/// The decimal notation of `n`, without leading zeros.
pub open spec fn decimal(n: nat) -> Seq<char>
    decreases n,
{
    if n < 10 {
        seq![digit_char(n)]
    } else {
        decimal((n / 10) as nat) + seq![digit_char(n % 10)]
    }
}

/// The text that explains why `count` was refused by `limits`.
pub open spec fn limits_message(count: u16, limits: ChannelCountLimits) -> Seq<char> {
    "PWM count "@ + decimal(count as nat) + " must be within the limits ["@ + decimal(
        limits.min_on_count as nat,
    ) + ", "@ + decimal(limits.max_on_count as nat) + "]"@
}

impl Pca9685Error {
    /// The text that explains the error.
    pub open spec fn message_spec(&self) -> Seq<char> {
        match self {
            Pca9685Error::CustomLimitsError(count, limits) => limits_message(*count, *limits),
            Pca9685Error::Pca9685DriverError(_) => "the PCA9685 driver reported an error"@,
        }
    }

    /// A text that explains the error: for a refused count, the count and
    /// the limits it must be within.
    pub fn message(&self) -> (r: String)
        ensures
            r@ == self.message_spec(),
    {
        match self {
            Pca9685Error::CustomLimitsError(count, limits) => {
                let mut text = String::new();
                text.append("PWM count ");
                push_decimal(&mut text, *count);
                text.append(" must be within the limits [");
                push_decimal(&mut text, limits.min_on_count);
                text.append(", ");
                push_decimal(&mut text, limits.max_on_count);
                text.append("]");
                proof {
                    assert(text@ =~= limits_message(*count, *limits));
                }
                text
            },
            Pca9685Error::Pca9685DriverError(_) => {
                let mut text = String::new();
                text.append("the PCA9685 driver reported an error");
                proof {
                    assert(text@ =~= "the PCA9685 driver reported an error"@);
                }
                text
            },
        }
    }
}

/// The one-character text of the digit `d`.
fn digit_str(d: u16) -> (s: &'static str)
    requires
        d < 10,
    ensures
        s@ == seq![digit_char(d as nat)],
{
    match d {
        0 => {
            proof {
                reveal_strlit("0");
            }
            "0"
        },
        1 => {
            proof {
                reveal_strlit("1");
            }
            "1"
        },
        2 => {
            proof {
                reveal_strlit("2");
            }
            "2"
        },
        3 => {
            proof {
                reveal_strlit("3");
            }
            "3"
        },
        4 => {
            proof {
                reveal_strlit("4");
            }
            "4"
        },
        5 => {
            proof {
                reveal_strlit("5");
            }
            "5"
        },
        6 => {
            proof {
                reveal_strlit("6");
            }
            "6"
        },
        7 => {
            proof {
                reveal_strlit("7");
            }
            "7"
        },
        8 => {
            proof {
                reveal_strlit("8");
            }
            "8"
        },
        _ => {
            proof {
                reveal_strlit("9");
            }
            "9"
        },
    }
}

/// Appends the decimal notation of `n` to `out`.
fn push_decimal(out: &mut String, n: u16)
    ensures
        final(out)@ == old(out)@ + decimal(n as nat),
    decreases n,
{
    if n >= 10 {
        push_decimal(out, n / 10);
    }
    out.append(digit_str(n % 10));
    proof {
        if n >= 10 {
            assert(old(out)@ + decimal((n / 10) as nat) + seq![digit_char((n % 10) as nat)] =~= old(out)@
                + decimal(n as nat));
        } else {
            assert(old(out)@ + seq![digit_char((n % 10) as nat)] =~= old(out)@ + decimal(n as nat));
        }
    }
}

} // verus!
