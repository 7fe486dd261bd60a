//! The text shown to the operator for each error.

use vstd::prelude::*;
use crate::error::{ConfigFault, ErrorView, NodeError};

verus! {

/// The numeral of a single decimal digit.
pub open spec fn digit_text(d: nat) -> Seq<char> {
    if d == 0 {
        "0"@
    } else if d == 1 {
        "1"@
    } else if d == 2 {
        "2"@
    } else if d == 3 {
        "3"@
    } else if d == 4 {
        "4"@
    } else if d == 5 {
        "5"@
    } else if d == 6 {
        "6"@
    } else if d == 7 {
        "7"@
    } else if d == 8 {
        "8"@
    } else {
        "9"@
    }
}

/// A natural number in decimal, without leading zeros.
pub open spec fn decimal(n: nat) -> Seq<char>
    decreases n,
{
    if n < 10 {
        digit_text(n)
    } else {
        decimal(n / 10) + digit_text(n % 10)
    }
}

/// An integer in decimal, with a minus sign when negative.
pub open spec fn signed_decimal(v: int) -> Seq<char> {
    if v < 0 {
        "-"@ + decimal((-v) as nat)
    } else {
        decimal(v as nat)
    }
}

/// An optional exit code: `Some(` the code `)`, or `None`.
pub open spec fn status_text(code: Option<i32>) -> Seq<char> {
    match code {
        Some(value) => "Some("@ + signed_decimal(value as int) + ")"@,
        None => "None"@,
    }
}

/// The text of a configuration fault.
pub open spec fn fault_text(fault: ConfigFault) -> Seq<char> {
    match fault {
        ConfigFault::PartialParameters =>
            "configuration error: standalone parameters are only partially specified"@,
        ConfigFault::MissingArguments { required, supplied } =>
            "configuration error: task carries "@ + decimal(supplied as nat) + " of "@ + decimal(
                required as nat,
            ) + " arguments"@,
    }
}

/// The text of an error: the fault for a configuration error, the reason
/// for a spawn error, and `error, status: ` followed by the exit code for an
/// execution failure.
pub open spec fn error_text(error: ErrorView) -> Seq<char> {
    match error {
        ErrorView::ConfigurationError(fault) => fault_text(fault),
        ErrorView::SpawnError(reason) => reason,
        ErrorView::ExecutionFailure { code, .. } => "error, status: "@ + status_text(code),
    }
}

/// The numeral of the digit `d`.
fn digit_str(d: u64) -> (numeral: &'static str)
    requires
        d < 10,
    ensures
        numeral@ == digit_text(d as nat),
{
    if d == 0 {
        "0"
    } else if d == 1 {
        "1"
    } else if d == 2 {
        "2"
    } else if d == 3 {
        "3"
    } else if d == 4 {
        "4"
    } else if d == 5 {
        "5"
    } else if d == 6 {
        "6"
    } else if d == 7 {
        "7"
    } else if d == 8 {
        "8"
    } else {
        "9"
    }
}

/// Writes `n` in decimal.
pub fn decimal_string(n: u64) -> (text: String)
    ensures
        text@ == decimal(n as nat),
    decreases n,
{
    if n < 10 {
        String::from_str(digit_str(n))
    } else {
        let mut text = decimal_string(n / 10);
        text.append(digit_str(n % 10));
        text
    }
}

/// Writes an optional exit code the way it is shown in an error.
pub fn status_string(code: Option<i32>) -> (text: String)
    ensures
        text@ == status_text(code),
{
    match code {
        Some(value) => {
            let mut text = String::from_str("Some(");
            if value < 0 {
                let magnitude: i64 = -(value as i64);
                text.append("-");
                text.append(decimal_string(magnitude as u64).as_str());
            } else {
                text.append(decimal_string(value as u64).as_str());
            }
            text.append(")");
            proof {
                assert(text@ =~= status_text(code));
            }
            text
        },
        None => String::from_str("None"),
    }
}

/// Writes a configuration fault.
fn fault_string(fault: ConfigFault) -> (text: String)
    ensures
        text@ == fault_text(fault),
{
    match fault {
        ConfigFault::PartialParameters => String::from_str(
            "configuration error: standalone parameters are only partially specified",
        ),
        ConfigFault::MissingArguments { required, supplied } => {
            let mut text = String::from_str("configuration error: task carries ");
            text.append(decimal_string(supplied as u64).as_str());
            text.append(" of ");
            text.append(decimal_string(required as u64).as_str());
            text.append(" arguments");
            text
        },
    }
}

impl NodeError {
    /// The text of this error for the operator.
    pub fn message(&self) -> (text: String)
        ensures
            text@ == error_text(self@),
    {
        match self {
            NodeError::ConfigurationError(fault) => fault_string(*fault),
            NodeError::SpawnError(reason) => reason.clone(),
            NodeError::ExecutionFailure { code, .. } => {
                let mut text = String::from_str("error, status: ");
                text.append(status_string(*code).as_str());
                text
            },
        }
    }
}

} // verus!
