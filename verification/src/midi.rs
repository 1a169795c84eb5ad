//! MIDI input ports: the ports that can be read, the search for a port by
//! its name, and the listing shown to the user.

use vstd::prelude::*;
use vstd::string::StringExecFns;

verus! {

/// An input port, known by its name.
#[derive(Clone, Debug)]
pub struct MidiInputPort(String);

impl View for MidiInputPort {
    type V = Seq<char>;

    closed spec fn view(&self) -> Seq<char> {
        self.0@
    }
}

impl MidiInputPort {
    /// The port with this name.
    pub fn new(name: String) -> (port: Self)
        ensures
            port@ == name@,
    {
        MidiInputPort(name)
    }

    /// The name of the port.
    pub fn name(&self) -> (name: &str)
        ensures
            name@ == self@,
    {
        self.0.as_str()
    }
}

/// The names that could be read, in their order.
pub open spec fn readable(names: Seq<Option<String>>) -> Seq<Seq<char>>
    decreases names.len(),
{
    if names.len() == 0 {
        Seq::empty()
    } else {
        match names.last() {
            Some(name) => readable(names.drop_last()).push(name@),
            None => readable(names.drop_last()),
        }
    }
}

/// The names of a sequence of ports.
pub open spec fn port_names(ports: Seq<MidiInputPort>) -> Seq<Seq<char>> {
    Seq::new(ports.len(), |i: int| ports[i]@)
}

/// The ports that are there to be used: one for each name that could be
/// read, in the order in which the system lists them. A port that went away
/// before its name was read is left out.
pub fn available_ports(names: &[Option<String>]) -> (ports: Vec<MidiInputPort>)
    ensures
        port_names(ports@) == readable(names@),
{
    let mut ports: Vec<MidiInputPort> = Vec::new();
    let mut at: usize = 0;
    while at < names.len()
        invariant
            at <= names.len(),
            port_names(ports@) == readable(names@.take(at as int)),
        decreases names.len() - at,
    {
        let ghost before = port_names(ports@);
        assert(names@.take(at as int + 1).drop_last() =~= names@.take(at as int));
        match &names[at] {
            Some(name) => {
                ports.push(MidiInputPort::new(name.clone()));
                assert(port_names(ports@) =~= before.push(name@));
            },
            None => {},
        }
        at += 1;
    }
    assert(names@.take(at as int) =~= names@);
    ports
}

/// The port at `at` has this name, and no port before it has.
pub open spec fn first_named(ports: Seq<MidiInputPort>, name: Seq<char>, at: int) -> bool {
    &&& 0 <= at < ports.len()
    &&& ports[at]@ == name
    &&& forall|before: int| 0 <= before < at ==> (#[trigger] ports[before])@ != name
}

/// Finds the first port with this name.
pub fn find_port(ports: &[MidiInputPort], name: &str) -> (found: Option<usize>)
    ensures
        match found {
            Some(at) => first_named(ports@, name@, at as int),
            None => forall|at: int| 0 <= at < ports@.len() ==> (#[trigger] ports@[at])@ != name@,
        },
{
    let wanted = name.to_owned();
    let mut at: usize = 0;
    while at < ports.len()
        invariant
            at <= ports.len(),
            wanted@ == name@,
            forall|before: int| 0 <= before < at ==> (#[trigger] ports@[before])@ != name@,
        decreases ports.len() - at,
    {
        if ports[at].0 == wanted {
            return Some(at);
        }
        at += 1;
    }
    None
}

/// The name at `at` was read and is this name, and no name before it is.
pub open spec fn first_read_as(names: Seq<Option<String>>, name: Seq<char>, at: int) -> bool {
    &&& 0 <= at < names.len()
    &&& name_is(names[at], name)
    &&& forall|before: int| 0 <= before < at ==> !name_is(#[trigger] names[before], name)
}

/// The name was read and is this name.
pub open spec fn name_is(read: Option<String>, name: Seq<char>) -> bool {
    read matches Some(text) && text@ == name
}

/// Finds a port again among the names that the system lists now, read or
/// not: the first that was read and is the port's name.
pub fn locate_port(names: &[Option<String>], port: &MidiInputPort) -> (found: Option<usize>)
    ensures
        match found {
            Some(at) => first_read_as(names@, port@, at as int),
            None => forall|at: int| 0 <= at < names@.len() ==> !name_is(#[trigger] names@[at], port@),
        },
{
    let mut at: usize = 0;
    while at < names.len()
        invariant
            at <= names.len(),
            forall|before: int| 0 <= before < at ==> !name_is(#[trigger] names@[before], port@),
        decreases names.len() - at,
    {
        match &names[at] {
            Some(name) => {
                if *name == port.0 {
                    return Some(at);
                }
            },
            None => {},
        }
        at += 1;
    }
    None
}

/// The lines that list these names: a heading, then each name behind two
/// spaces; or one line that says that there is no port.
pub open spec fn listing(names: Seq<Seq<char>>) -> Seq<Seq<char>> {
    if names.len() == 0 {
        seq!["No input ports"@]
    } else {
        seq!["Input ports"@] + Seq::new(names.len(), |i: int| "  "@ + names[i])
    }
}

/// The views of a sequence of lines.
pub open spec fn lines_view(lines: Seq<String>) -> Seq<Seq<char>> {
    Seq::new(lines.len(), |i: int| lines[i]@)
}

/// The lines that list the input ports, ready to be printed.
pub fn port_listing(ports: &[MidiInputPort]) -> (lines: Vec<String>)
    ensures
        lines_view(lines@) == listing(port_names(ports@)),
{
    let mut lines: Vec<String> = Vec::new();
    if ports.len() == 0 {
        lines.push(String::from_str("No input ports"));
        assert(lines_view(lines@) =~= listing(port_names(ports@)));
        return lines;
    }
    lines.push(String::from_str("Input ports"));
    let mut at: usize = 0;
    while at < ports.len()
        invariant
            at <= ports.len(),
            lines.len() == at + 1,
            lines@[0]@ == "Input ports"@,
            forall|i: int| 0 <= i < at ==> (#[trigger] lines@[i + 1])@ == "  "@ + ports@[i]@,
        decreases ports.len() - at,
    {
        lines.push(String::from_str("  ").concat(ports[at].name()));
        at += 1;
    }
    proof {
        let names = port_names(ports@);
        let expected = listing(names);
        let got = lines_view(lines@);
        assert(expected.len() == got.len());
        assert forall|i: int| 0 <= i < got.len() implies got[i] == expected[i] by {
            if i > 0 {
                assert(lines@[(i - 1) + 1]@ == "  "@ + ports@[i - 1]@);
                assert(expected[i] == "  "@ + names[i - 1]);
            }
        }
        assert(got =~= expected);
    }
    lines
}

} // verus!
