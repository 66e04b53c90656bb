//! Port discovery: which input ports get a listener, and which output port
//! the router plays to.

use vstd::prelude::*;
use vstd::string::StringExecFns;

verus! {

/// The name under which this program registers its own connections. A port
/// whose advertised name contains it was created by this program.
pub const PORT_MARKER: &'static str = "midir-forward";

/// The name of the client that lists the input ports.
pub const INPUT_CLIENT_NAME: &'static str = "MIDI client input";

/// The name of the client that opens the output port.
pub const OUTPUT_CLIENT_NAME: &'static str = "MIDI client output";

/// What the name of a listener's client begins with; the port's name follows.
pub const LISTENER_CLIENT_PREFIX: &'static str = "MIDI input for reading ";

/// `needle` stands in `text` at position `at`.
pub open spec fn occurs_at(needle: Seq<char>, text: Seq<char>, at: int) -> bool {
    &&& 0 <= at
    &&& at + needle.len() <= text.len()
    &&& text.subrange(at, at + needle.len()) == needle
}

/// `needle` stands somewhere in `text`, as an unbroken run of characters.
pub open spec fn occurs_in(needle: Seq<char>, text: Seq<char>) -> bool {
    exists|at: int| occurs_at(needle, text, at)
}

/// A port name that gives the port away as one of this program's own.
pub open spec fn carries_marker(name: Seq<char>) -> bool {
    occurs_in(PORT_MARKER@, name)
}

/// The characters of a string, one by one.
fn chars_of(text: &str) -> (chars: Vec<char>)
    ensures
        chars@ == text@,
{
    let mut chars: Vec<char> = Vec::new();
    for c in it: text.chars()
        invariant
            it.seq() == text@,
            chars@ == it.seq().take(it.index() as int),
    {
        chars.push(c);
    }
    chars
}

/// Compares `needle` with the stretch of `text` that starts at `at`.
fn matches_at(text: &Vec<char>, needle: &Vec<char>, at: usize) -> (same: bool)
    requires
        at + needle.len() <= text.len(),
    ensures
        same == occurs_at(needle@, text@, at as int),
{
    let mut k: usize = 0;
    while k < needle.len()
        invariant
            k <= needle.len(),
            at + needle.len() <= text.len(),
            forall|j: int| 0 <= j < k ==> text@[at + j] == needle@[j],
        decreases needle.len() - k,
    {
        if text[at + k] != needle[k] {
            return false;
        }
        k = k + 1;
    }
    assert(text@.subrange(at as int, at + needle.len()) =~= needle@);
    true
}

/// Whether `needle` occurs in `text`.
pub fn contains(text: &str, needle: &str) -> (found: bool)
    ensures
        found == occurs_in(needle@, text@),
{
    let hay = chars_of(text);
    let run = chars_of(needle);
    if run.len() > hay.len() {
        return false;
    }
    let last: usize = hay.len() - run.len();
    let mut at: usize = 0;
    loop
        invariant
            hay@ == text@,
            run@ == needle@,
            last == hay.len() - run.len(),
            at <= last,
            forall|i: int| 0 <= i < at ==> !occurs_at(run@, hay@, i),
        decreases last - at,
    {
        if matches_at(&hay, &run, at) {
            return true;
        }
        if at == last {
            return false;
        }
        at = at + 1;
    }
}

/// Whether a port with this name gets a listener: every port does, but for
/// those that carry the marker.
pub fn admits(name: &str) -> (admitted: bool)
    ensures
        admitted == !carries_marker(name@),
{
    !contains(name, PORT_MARKER)
}

/// The input ports that get a listener, by their position in the list of
/// port names, in ascending order.
pub fn admitted_ports(names: &Vec<String>) -> (admitted: Vec<usize>)
    ensures
        forall|k: int| 0 <= k < admitted.len() ==> admitted[k] < names.len(),
        forall|k: int| 0 <= k < admitted.len() ==> !carries_marker(names[admitted[k] as int]@),
        forall|i: int|
            0 <= i < names.len() && !carries_marker(names[i]@) ==> admitted@.contains(
                i as usize,
            ),
        forall|j: int, k: int| 0 <= j < k < admitted.len() ==> admitted[j] < admitted[k],
{
    let mut admitted: Vec<usize> = Vec::new();
    let mut i: usize = 0;
    while i < names.len()
        invariant
            i <= names.len(),
            forall|k: int| 0 <= k < admitted.len() ==> admitted[k] < i,
            forall|k: int| 0 <= k < admitted.len() ==> !carries_marker(names[admitted[k] as int]@),
            forall|p: int|
                0 <= p < i && !carries_marker(names[p]@) ==> admitted@.contains(p as usize),
            forall|j: int, k: int| 0 <= j < k < admitted.len() ==> admitted[j] < admitted[k],
        decreases names.len() - i,
    {
        if admits(names[i].as_str()) {
            let ghost before = admitted@;
            admitted.push(i);
            assert forall|p: int|
                0 <= p < i + 1 && !carries_marker(names[p]@) implies admitted@.contains(
                p as usize,
            ) by {
                if p < i {
                    let k = choose|k: int| 0 <= k < before.len() && before[k] == p as usize;
                    assert(admitted@[k] == p as usize);
                } else {
                    assert(admitted@[admitted.len() - 1] == p as usize);
                }
            }
        }
        i = i + 1;
    }
    admitted
}

/// The name of the client that listens to the port called `port_name`.
pub fn listener_client_name(port_name: &str) -> (name: String)
    ensures
        name@ == LISTENER_CLIENT_PREFIX@ + port_name@,
{
    let mut name = String::from_str(LISTENER_CLIENT_PREFIX);
    name.append(port_name);
    name
}

/// The output port that the router plays to: the last of the `count` ports
/// that were found, if any was.
pub fn select_output(count: usize) -> (chosen: Option<usize>)
    ensures
        count == 0 ==> chosen is None,
        count > 0 ==> chosen == Some((count - 1) as usize),
{
    if count == 0 {
        None
    } else {
        Some(count - 1)
    }
}

} // verus!
