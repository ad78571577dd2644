//! The switch dispatcher: from the last published previous window to the
//! command that focuses it.

use vstd::prelude::*;

verus! {

/// Why a switch request issues no command.
#[derive(Clone, Copy, PartialEq, Eq, Structural, Debug)]
pub enum SwitchError {
    /// No previous window has been published yet.
    NoHistory,
}

/// A request to the window manager to focus the container with id `con_id`.
#[derive(Clone, Copy, PartialEq, Eq, Structural, Debug)]
pub struct FocusCommand {
    pub con_id: i64,
}

/// The decimal digit for `d`, below ten.
pub open spec fn digit_char(d: nat) -> char {
    if d == 0 { '0' }
    else if d == 1 { '1' }
    else if d == 2 { '2' }
    else if d == 3 { '3' }
    else if d == 4 { '4' }
    else if d == 5 { '5' }
    else if d == 6 { '6' }
    else if d == 7 { '7' }
    else if d == 8 { '8' }
    else { '9' }
}

/// The decimal digits of `n`, without leading zeros.
pub open spec fn digits(n: nat) -> Seq<char>
    decreases n,
{
    if n < 10 {
        seq![digit_char(n)]
    } else {
        digits(n / 10) + seq![digit_char(n % 10)]
    }
}

/// `n` written in decimal, with a leading `-` when it is negative.
pub open spec fn decimal(n: int) -> Seq<char> {
    if n < 0 {
        seq!['-'] + digits((-n) as nat)
    } else {
        digits(n as nat)
    }
}

/// The window manager's command text that focuses container `con_id`.
pub open spec fn focus_command_text(con_id: i64) -> Seq<char> {
    "[con_id="@ + decimal(con_id as int) + "] focus"@
}

/// Relies on `ToString` through std's `Display` for `i64`, which writes the
/// number in decimal with a leading `-` for a negative one.
#[verifier::external_body]
fn decimal_text(n: i64) -> (r: String)
    ensures
        r@ == decimal(n as int),
{
    n.to_string()
}

impl FocusCommand {
    /// The command as text for the window manager's command channel.
    pub fn text(&self) -> (r: String)
        ensures
            r@ == focus_command_text(self.con_id),
    {
        let mut text = String::from_str("[con_id=");
        let digits = decimal_text(self.con_id);
        text.append(digits.as_str());
        text.append("] focus");
        text
    }
}

/// The outcome of a switch request, given the last published previous window.
pub open spec fn switch_outcome(last: Option<i64>) -> Result<FocusCommand, SwitchError> {
    match last {
        None => Err(SwitchError::NoHistory),
        Some(id) => Ok(FocusCommand { con_id: id }),
    }
}

/// Decides a switch request: one command that focuses the last published
/// previous window, or `NoHistory` where none was published.
pub fn switch_to_previous(last: Option<i64>) -> (r: Result<FocusCommand, SwitchError>)
    ensures
        r == switch_outcome(last),
{
    match last {
        None => Err(SwitchError::NoHistory),
        Some(id) => Ok(FocusCommand { con_id: id }),
    }
}

} // verus!
