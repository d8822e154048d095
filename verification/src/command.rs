//! The typed command model and its deterministic encoding to the wire
//! format.
//!
//! Every command renders as a fixed ASCII prefix token, the constant
//! channel selector `0`, and the command's fields in a fixed order,
//! separated by commas. Numeric fields are fixed-point values counted in
//! hundredths and always render with exactly two digits after the decimal
//! point. The frame terminator is appended by the exchange engine, not
//! here.

use vstd::prelude::*;
use vstd::string::StringExecFns;

use crate::numfmt::{fixed2_chars, format_fixed2};

verus! {

/// One instrument operation. Numeric parameters are fixed-point values
/// counted in hundredths of the unit shown on the wire: `SetFrequency(5000)`
/// commands 50.00.
#[derive(Clone, Copy, Debug, PartialEq, Eq, Structural)]
pub enum Command {
    GetIdentity,
    GetVersion,
    GetStatus { verbose: bool },
    ClearErrors,
    GetFrequency,
    SetFrequency(i64),
    GetPaPower,
    GetPowerSetpoint,
    SetPower(i64),
    ConfigureDll {
        param1: i64,
        param2: i64,
        param3: i64,
        param4: i64,
        param5: i64,
        param6: i64,
    },
    DllEnable,
    DllDisable,
    RfEnable,
    RfDisable,
    SweepDbm { start: i64, stop: i64, step: i64, dwell: i64 },
}

/// The wire text of a command: its prefix token, the channel selector `0`,
/// and its fields in order, comma-separated, without the frame terminator.
pub open spec fn wire_chars(c: Command) -> Seq<char> {
    match c {
        Command::GetIdentity => "$IDN,0"@,
        Command::GetVersion => "$VER,0"@,
        Command::GetStatus { verbose } => if verbose {
            "$ST,0,1"@
        } else {
            "$ST,0"@
        },
        Command::ClearErrors => "$ERRC,0"@,
        Command::GetFrequency => "$FCG,0"@,
        Command::SetFrequency(v) => "$FCS,0,"@ + fixed2_chars(v as int),
        Command::GetPaPower => "$PPG,0"@,
        Command::GetPowerSetpoint => "$PWRG,0"@,
        Command::SetPower(v) => "$PWRS,0,"@ + fixed2_chars(v as int),
        Command::ConfigureDll { param1, param2, param3, param4, param5, param6 } => "$DLES,0,"@
            + fixed2_chars(param1 as int) + ","@ + fixed2_chars(param2 as int) + ","@
            + fixed2_chars(param3 as int) + ","@ + fixed2_chars(param4 as int) + ","@
            + fixed2_chars(param5 as int) + ","@ + fixed2_chars(param6 as int),
        Command::DllEnable => "$DLES,0,1"@,
        Command::DllDisable => "$DLES,0,0"@,
        Command::RfEnable => "$ECS,0,1"@,
        Command::RfDisable => "$ECS,0,0"@,
        Command::SweepDbm { start, stop, step, dwell } => "$SWPD,0,"@ + fixed2_chars(start as int)
            + ","@ + fixed2_chars(stop as int) + ","@ + fixed2_chars(step as int) + ","@
            + fixed2_chars(dwell as int) + ",0"@,
    }
}

impl Command {
    /// Encodes the command to its wire text. Total and deterministic:
    /// the result is exactly `wire_chars(*self)`.
    pub fn to_string(&self) -> (s: String)
        ensures
            s@ == wire_chars(*self),
    {
        match self {
            Command::GetIdentity => String::from_str("$IDN,0"),
            Command::GetVersion => String::from_str("$VER,0"),
            Command::GetStatus { verbose } => if *verbose {
                String::from_str("$ST,0,1")
            } else {
                String::from_str("$ST,0")
            },
            Command::ClearErrors => String::from_str("$ERRC,0"),
            Command::GetFrequency => String::from_str("$FCG,0"),
            Command::SetFrequency(v) => String::from_str("$FCS,0,").concat(
                format_fixed2(*v).as_str(),
            ),
            Command::GetPaPower => String::from_str("$PPG,0"),
            Command::GetPowerSetpoint => String::from_str("$PWRG,0"),
            Command::SetPower(v) => String::from_str("$PWRS,0,").concat(
                format_fixed2(*v).as_str(),
            ),
            Command::ConfigureDll { param1, param2, param3, param4, param5, param6 } => {
                String::from_str("$DLES,0,").concat(format_fixed2(*param1).as_str()).concat(
                    ",",
                ).concat(format_fixed2(*param2).as_str()).concat(",").concat(
                    format_fixed2(*param3).as_str(),
                ).concat(",").concat(format_fixed2(*param4).as_str()).concat(",").concat(
                    format_fixed2(*param5).as_str(),
                ).concat(",").concat(format_fixed2(*param6).as_str())
            },
            Command::DllEnable => String::from_str("$DLES,0,1"),
            Command::DllDisable => String::from_str("$DLES,0,0"),
            Command::RfEnable => String::from_str("$ECS,0,1"),
            Command::RfDisable => String::from_str("$ECS,0,0"),
            Command::SweepDbm { start, stop, step, dwell } => {
                String::from_str("$SWPD,0,").concat(format_fixed2(*start).as_str()).concat(
                    ",",
                ).concat(format_fixed2(*stop).as_str()).concat(",").concat(
                    format_fixed2(*step).as_str(),
                ).concat(",").concat(format_fixed2(*dwell).as_str()).concat(",0")
            },
        }
    }
}

/// Encoding is deterministic: equal commands have equal wire text.
pub proof fn lemma_encode_deterministic(a: Command, b: Command)
    requires
        a == b,
    ensures
        wire_chars(a) == wire_chars(b),
{
}

} // verus!
