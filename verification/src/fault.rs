//! The states in which a drone cannot go on, and what it says of them.

use vstd::prelude::*;
use vstd::string::*;

verus! {

/// Why a drone gives up.
#[derive(Clone, Copy, Debug, PartialEq, Eq)]
pub enum Fault {
    /// A flood request came in that names no node on its way.
    EmptyPathTrace,
    /// A packet is to be answered with a Nack, and no hop precedes the drone on its route.
    NoPreviousHop,
    /// A packet is to be answered with a Nack, and its route is empty.
    NoPacketSender,
    /// An Ack came in with an empty route.
    AckWithoutRoute,
    /// A Nack came in with an empty route.
    NackWithoutRoute,
    /// A neighbor takes no more packets.
    NeighborDisconnected,
    /// The controller takes no more events.
    ControllerDisconnected,
}

/// The decimal digit of a number below ten.
pub open spec fn digit(n: nat) -> char {
    ('0' as int + n) as char
}

/// A number in decimal notation.
pub open spec fn decimal(n: nat) -> Seq<char>
    decreases n,
{
    if n < 10 {
        seq![digit(n)]
    } else {
        decimal(n / 10).push(digit(n % 10))
    }
}

/// How a drone starts what it says.
pub open spec fn prefix(id: u8) -> Seq<char> {
    "[DRONE "@ + decimal(id as nat) + "]"@
}

impl Fault {
    /// What is wrong, in words.
    pub open spec fn words(self) -> Seq<char> {
        match self {
            Fault::EmptyPathTrace => "The flood request path trace is empty"@,
            Fault::NoPreviousHop => "Could not build Nack (could not get previous hop)"@,
            Fault::NoPacketSender => "Could not build Nack (could not get packet sender)"@,
            Fault::AckWithoutRoute => "Could not build Ack"@,
            Fault::NackWithoutRoute => "Could not build Nack (Nack header is empty)"@,
            Fault::NeighborDisconnected => "The drone is disconnected"@,
            Fault::ControllerDisconnected => "The controller is disconnected"@,
        }
    }

    /// What the drone `id` says as it gives up.
    pub open spec fn spec_message(self, id: u8) -> Seq<char> {
        prefix(id) + " "@ + self.words()
    }

    /// What is wrong, in words.
    pub fn text(&self) -> (r: &'static str)
        ensures
            r@ == self.words(),
    {
        match self {
            Fault::EmptyPathTrace => "The flood request path trace is empty",
            Fault::NoPreviousHop => "Could not build Nack (could not get previous hop)",
            Fault::NoPacketSender => "Could not build Nack (could not get packet sender)",
            Fault::AckWithoutRoute => "Could not build Ack",
            Fault::NackWithoutRoute => "Could not build Nack (Nack header is empty)",
            Fault::NeighborDisconnected => "The drone is disconnected",
            Fault::ControllerDisconnected => "The controller is disconnected",
        }
    }

    /// What the drone `id` says as it gives up.
    pub fn message(&self, id: u8) -> (r: String)
        ensures
            r@ == self.spec_message(id),
    {
        let mut message = prefix_text(id);
        message.append(" ");
        message.append(self.text());
        message
    }
}

/// The decimal digit of a number below ten.
fn digit_text(n: u8) -> (r: &'static str)
    requires
        n < 10,
    ensures
        r@ == seq![digit(n as nat)],
{
    proof {
        reveal_strlit("0");
        reveal_strlit("1");
        reveal_strlit("2");
        reveal_strlit("3");
        reveal_strlit("4");
        reveal_strlit("5");
        reveal_strlit("6");
        reveal_strlit("7");
        reveal_strlit("8");
        reveal_strlit("9");
    }
    let r = match n {
        0 => "0",
        1 => "1",
        2 => "2",
        3 => "3",
        4 => "4",
        5 => "5",
        6 => "6",
        7 => "7",
        8 => "8",
        _ => "9",
    };
    assert(r@ =~= seq![digit(n as nat)]);
    r
}

/// Writes a number in decimal notation behind `text`.
fn append_decimal(text: &mut String, n: u8)
    ensures
        final(text)@ == old(text)@ + decimal(n as nat),
    decreases n,
{
    if n < 10 {
        text.append(digit_text(n));
    } else {
        append_decimal(text, n / 10);
        text.append(digit_text(n % 10));
        assert(text@ =~= old(text)@ + decimal(n as nat));
    }
}

/// How the drone `id` starts what it says.
pub fn prefix_text(id: u8) -> (r: String)
    ensures
        r@ == prefix(id),
{
    let mut text = String::new();
    text.append("[DRONE ");
    append_decimal(&mut text, id);
    text.append("]");
    assert(text@ =~= prefix(id));
    text
}

/// The number that a row of decimal digits stands for.
pub open spec fn reading(digits: Seq<char>) -> int
    decreases digits.len(),
{
    if digits.len() == 0 {
        0
    } else {
        10 * reading(digits.drop_last()) + (digits.last() as int - '0' as int)
    }
}

/// A number in decimal notation reads back as that number. It is made of digits alone, and starts
/// with a zero only where it is zero.
pub proof fn law_decimal_reads_back(n: nat)
    ensures
        reading(decimal(n)) == n,
        decimal(n).len() > 0,
        forall|i: int|
            0 <= i < decimal(n).len() ==> '0' as int <= #[trigger] decimal(n)[i] as int
                && decimal(n)[i] as int <= '9' as int,
        decimal(n)[0] == '0' <==> n == 0,
    decreases n,
{
    reveal_with_fuel(reading, 2);
    if n < 10 {
        assert(decimal(n).drop_last() =~= seq![]);
    } else {
        law_decimal_reads_back(n / 10);
        assert(decimal(n).drop_last() =~= decimal(n / 10));
        assert(decimal(n)[0] == decimal(n / 10)[0]);
        assert forall|i: int| 0 <= i < decimal(n).len() implies '0' as int <= (
        #[trigger] decimal(n)[i]) as int && decimal(n)[i] as int <= '9' as int by {
            if i < decimal(n / 10).len() {
                assert(decimal(n)[i] == decimal(n / 10)[i]);
            }
        }
    }
}

/// Whatever a drone says as it gives up starts with `[DRONE `, its name and `] `, and ends with
/// what is wrong.
pub proof fn law_message_names_drone_and_fault(fault: Fault, id: u8)
    ensures
        fault.spec_message(id) == "[DRONE "@ + decimal(id as nat) + "] "@ + fault.words(),
        prefix(id) == "[DRONE "@ + decimal(id as nat) + "]"@,
{
    reveal_strlit("]");
    reveal_strlit(" ");
    reveal_strlit("] ");
    assert(fault.spec_message(id) =~= "[DRONE "@ + decimal(id as nat) + "] "@ + fault.words());
}

/// What is wrong can be told from the words: a flood request without a path trace, the two ways in
/// which a Nack cannot be built, an Ack and a Nack without a route, and who is disconnected. No two
/// faults are put in the same words.
pub proof fn law_words_tell_faults_apart(a: Fault, b: Fault)
    ensures
        a.words() == b.words() <==> a == b,
        a == Fault::EmptyPathTrace ==> a.words() == "The flood request path trace is empty"@,
        a == Fault::NoPreviousHop ==> a.words()
            == "Could not build Nack (could not get previous hop)"@,
        a == Fault::NoPacketSender ==> a.words()
            == "Could not build Nack (could not get packet sender)"@,
        a == Fault::AckWithoutRoute ==> a.words() == "Could not build Ack"@,
        a == Fault::NackWithoutRoute ==> a.words() == "Could not build Nack (Nack header is empty)"@,
        a == Fault::NeighborDisconnected ==> a.words() == "The drone is disconnected"@,
        a == Fault::ControllerDisconnected ==> a.words() == "The controller is disconnected"@,
{
    reveal_strlit("The flood request path trace is empty");
    reveal_strlit("Could not build Nack (could not get previous hop)");
    reveal_strlit("Could not build Nack (could not get packet sender)");
    reveal_strlit("Could not build Ack");
    reveal_strlit("Could not build Nack (Nack header is empty)");
    reveal_strlit("The drone is disconnected");
    reveal_strlit("The controller is disconnected");
    assert(a.words().len() == b.words().len() ==> a == b);
}

} // verus!
