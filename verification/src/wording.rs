//! The text of the two lines that announce a transition: how a waiting time,
//! a vehicle light and a pedestrian light are written out.

use vstd::prelude::*;
use crate::signals::PedestrianLightPossibleStates;
use crate::signals::TrafficLightPossibleStates;

verus! {

/// The numeral for a single decimal digit.
pub open spec fn digit_text(digit: nat) -> Seq<char>
    recommends
        digit < 10,
{
    if digit == 0 {
        "0"@
    } else if digit == 1 {
        "1"@
    } else if digit == 2 {
        "2"@
    } else if digit == 3 {
        "3"@
    } else if digit == 4 {
        "4"@
    } else if digit == 5 {
        "5"@
    } else if digit == 6 {
        "6"@
    } else if digit == 7 {
        "7"@
    } else if digit == 8 {
        "8"@
    } else {
        "9"@
    }
}

/// A natural number in decimal, most significant digit first, without
/// leading zeros.
pub open spec fn decimal_text(n: nat) -> Seq<char>
    decreases n,
{
    if n < 10 {
        digit_text(n)
    } else {
        decimal_text(n / 10) + digit_text(n % 10)
    }
}

/// A waiting time of whole seconds as `std::time::Duration` writes it for
/// debugging: the count followed by `s`, except that no time at all is `0ns`.
pub open spec fn waiting_time_text(waiting_time: u64) -> Seq<char> {
    if waiting_time == 0 {
        "0ns"@
    } else {
        decimal_text(waiting_time as nat) + "s"@
    }
}

/// The first line of an announcement.
pub open spec fn waiting_line_text(waiting_time: u64) -> Seq<char> {
    "Transitioning to new state after waiting for "@ + waiting_time_text(waiting_time)
}

/// The second line of an announcement.
pub open spec fn state_line_text(
    state: (TrafficLightPossibleStates, PedestrianLightPossibleStates),
) -> Seq<char> {
    "Light state: "@ + state.0.text() + ", Pedestrian state: "@ + state.1.text()
}

impl PedestrianLightPossibleStates {
    /// The name of the signal.
    pub open spec fn text(self) -> Seq<char> {
        match self {
            PedestrianLightPossibleStates::Walk => "Walk"@,
            PedestrianLightPossibleStates::DontWalk => "DontWalk"@,
        }
    }

    /// Writes the signal out by name.
    pub fn describe(&self) -> (written: String)
        ensures
            written@ == self.text(),
    {
        match self {
            PedestrianLightPossibleStates::Walk => String::from_str("Walk"),
            PedestrianLightPossibleStates::DontWalk => String::from_str("DontWalk"),
        }
    }
}

impl TrafficLightPossibleStates {
    /// The name of the colour; a yellow light is followed by its target in
    /// braces, written the same way.
    pub open spec fn text(self) -> Seq<char>
        decreases self,
    {
        match self {
            TrafficLightPossibleStates::Red => "Red"@,
            TrafficLightPossibleStates::Yellow { going_to } => "Yellow { going_to: "@
                + going_to.text() + " }"@,
            TrafficLightPossibleStates::Green => "Green"@,
        }
    }

    /// Writes the light out: its colour and, for a yellow, where it is heading.
    pub fn describe(&self) -> (written: String)
        ensures
            written@ == self.text(),
        decreases *self,
    {
        match self {
            TrafficLightPossibleStates::Red => String::from_str("Red"),
            TrafficLightPossibleStates::Yellow { going_to } => {
                let target = going_to.describe();
                String::from_str("Yellow { going_to: ").concat(target.as_str()).concat(" }")
            },
            TrafficLightPossibleStates::Green => String::from_str("Green"),
        }
    }
}

fn digit_str(digit: u64) -> (numeral: &'static str)
    requires
        digit < 10,
    ensures
        numeral@ == digit_text(digit as nat),
{
    if digit == 0 {
        "0"
    } else if digit == 1 {
        "1"
    } else if digit == 2 {
        "2"
    } else if digit == 3 {
        "3"
    } else if digit == 4 {
        "4"
    } else if digit == 5 {
        "5"
    } else if digit == 6 {
        "6"
    } else if digit == 7 {
        "7"
    } else if digit == 8 {
        "8"
    } else {
        "9"
    }
}

/// Writes a number out in decimal.
pub fn decimal_string(n: u64) -> (written: String)
    ensures
        written@ == decimal_text(n as nat),
    decreases n,
{
    if n < 10 {
        String::from_str(digit_str(n))
    } else {
        decimal_string(n / 10).concat(digit_str(n % 10))
    }
}

/// Writes a waiting time of whole seconds out.
pub fn waiting_time_string(waiting_time: u64) -> (written: String)
    ensures
        written@ == waiting_time_text(waiting_time),
{
    if waiting_time == 0 {
        String::from_str("0ns")
    } else {
        decimal_string(waiting_time).concat("s")
    }
}

/// Writes the first line of an announcement.
pub fn waiting_line(waiting_time: u64) -> (line: String)
    ensures
        line@ == waiting_line_text(waiting_time),
{
    let time = waiting_time_string(waiting_time);
    String::from_str("Transitioning to new state after waiting for ").concat(time.as_str())
}

/// Writes the second line of an announcement.
pub fn state_line(
    light: &TrafficLightPossibleStates,
    pedestrian: &PedestrianLightPossibleStates,
) -> (line: String)
    ensures
        line@ == state_line_text((*light, *pedestrian)),
{
    let light_name = light.describe();
    let pedestrian_name = pedestrian.describe();
    String::from_str("Light state: ").concat(light_name.as_str()).concat(
        ", Pedestrian state: ",
    ).concat(pedestrian_name.as_str())
}

} // verus!
