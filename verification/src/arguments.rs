//! The command line.

use vstd::prelude::*;

verus! {

/// Why the usage is shown.
#[derive(Debug)]
pub enum UsageReason {
    /// It was asked for.
    Asked,
    SocketNeedsValue,
    NameNeedsValue,
    Unknown(String),
}

/// What the command line asks for.
#[derive(Debug)]
pub enum Invocation {
    Run { socket: Option<String>, name_prefix: String },
    Version,
    Usage(UsageReason),
}

/// What the command line asks for, over texts.
pub enum Asked {
    Run { socket: Option<Seq<char>>, name_prefix: Seq<char> },
    Version,
    Help,
    SocketNeedsValue,
    NameNeedsValue,
    Unknown(Seq<char>),
}

impl Invocation {
    /// What the command line asks for, over texts.
    pub open spec fn asked(self) -> Asked {
        match self {
            Invocation::Run { socket, name_prefix } => Asked::Run {
                socket: match socket {
                    Some(path) => Some(path@),
                    None => None,
                },
                name_prefix: name_prefix@,
            },
            Invocation::Version => Asked::Version,
            Invocation::Usage(UsageReason::Asked) => Asked::Help,
            Invocation::Usage(UsageReason::SocketNeedsValue) => Asked::SocketNeedsValue,
            Invocation::Usage(UsageReason::NameNeedsValue) => Asked::NameNeedsValue,
            Invocation::Usage(UsageReason::Unknown(argument)) => Asked::Unknown(argument@),
        }
    }
}

/// What the arguments from `at` on ask for, with what those before them set. The
/// first one that ends the start settles it; of values given twice, the last one
/// counts.
pub open spec fn meaning(
    arguments: Seq<String>,
    at: int,
    socket: Option<Seq<char>>,
    name_prefix: Seq<char>,
) -> Asked
    decreases arguments.len() - at,
{
    if at < 0 || at >= arguments.len() {
        Asked::Run { socket, name_prefix }
    } else if arguments[at]@ == "--socket"@ {
        if at + 1 < arguments.len() {
            meaning(arguments, at + 2, Some(arguments[at + 1]@), name_prefix)
        } else {
            Asked::SocketNeedsValue
        }
    } else if arguments[at]@ == "--name"@ {
        if at + 1 < arguments.len() {
            meaning(arguments, at + 2, socket, arguments[at + 1]@)
        } else {
            Asked::NameNeedsValue
        }
    } else if arguments[at]@ == "--version"@ {
        Asked::Version
    } else if arguments[at]@ == "-h"@ || arguments[at]@ == "--help"@ {
        Asked::Help
    } else {
        Asked::Unknown(arguments[at]@)
    }
}

/// What the command line asks for. `arguments` leaves out the program's own name.
pub fn parse_arguments(arguments: &Vec<String>) -> (invocation: Invocation)
    ensures
        invocation.asked() == meaning(arguments@, 0, None, "output"@),
{
    let mut socket: Option<String> = None;
    let mut name_prefix: String = String::from_str("output");
    let mut at: usize = 0;
    while at < arguments.len()
        invariant
            at <= arguments@.len(),
            meaning(arguments@, 0, None, "output"@) == meaning(
                arguments@,
                at as int,
                match socket {
                    Some(path) => Some(path@),
                    None => None,
                },
                name_prefix@,
            ),
        decreases arguments@.len() - at,
    {
        let argument = &arguments[at];
        if *argument == String::from_str("--socket") {
            if at + 1 >= arguments.len() {
                return Invocation::Usage(UsageReason::SocketNeedsValue);
            }
            socket = Some(arguments[at + 1].clone());
            at += 2;
        } else if *argument == String::from_str("--name") {
            if at + 1 >= arguments.len() {
                return Invocation::Usage(UsageReason::NameNeedsValue);
            }
            name_prefix = arguments[at + 1].clone();
            at += 2;
        } else if *argument == String::from_str("--version") {
            return Invocation::Version;
        } else if *argument == String::from_str("-h") || *argument == String::from_str("--help") {
            return Invocation::Usage(UsageReason::Asked);
        } else {
            return Invocation::Usage(UsageReason::Unknown(argument.clone()));
        }
    }
    Invocation::Run { socket, name_prefix }
}

proof fn options_are_told_apart()
    ensures
        "--socket"@ != "--name"@,
        "--socket"@ != "--version"@,
        "--socket"@ != "-h"@,
        "--socket"@ != "--help"@,
        "--name"@ != "--version"@,
        "--name"@ != "-h"@,
        "--name"@ != "--help"@,
        "--version"@ != "-h"@,
        "--version"@ != "--help"@,
{
    reveal_strlit("--socket");
    reveal_strlit("--name");
    reveal_strlit("--version");
    reveal_strlit("-h");
    reveal_strlit("--help");
    assert("--socket"@.len() == 8);
    assert("--name"@.len() == 6);
    assert("--version"@.len() == 9);
    assert("-h"@.len() == 2);
    assert("--help"@.len() == 6);
    assert("--name"@[2] != "--help"@[2]);
}

proof fn meaning_goes_on(
    arguments: Seq<String>,
    more: Seq<String>,
    at: int,
    socket: Option<Seq<char>>,
    name_prefix: Seq<char>,
)
    requires
        0 <= at <= arguments.len(),
    ensures
        match meaning(arguments, at, socket, name_prefix) {
            Asked::Run { socket: set, name_prefix: called } => meaning(
                arguments + more,
                at,
                socket,
                name_prefix,
            ) == meaning(arguments + more, arguments.len() as int, set, called),
            Asked::SocketNeedsValue => true,
            Asked::NameNeedsValue => true,
            settled => meaning(arguments + more, at, socket, name_prefix) == settled,
        },
    decreases arguments.len() - at,
{
    let longer = arguments + more;
    if at < arguments.len() {
        assert(longer[at] == arguments[at]);
        if at + 1 < arguments.len() {
            assert(longer[at + 1] == arguments[at + 1]);
            if arguments[at]@ == "--socket"@ {
                meaning_goes_on(arguments, more, at + 2, Some(arguments[at + 1]@), name_prefix);
            } else if arguments[at]@ == "--name"@ {
                meaning_goes_on(arguments, more, at + 2, socket, arguments[at + 1]@);
            }
        }
    }
}

/// What is given last counts. Arguments that come to a start still do with a socket or a
/// name behind them, with that one and all else as it was; with anything else behind
/// them they come to what that asks for. What ends the start is settled, whatever
/// follows.
pub proof fn last_argument_counts(
    arguments: Vec<String>,
    invocation: Invocation,
    longer: Vec<String>,
    value: Option<String>,
    option: String,
    extended: Invocation,
)
    requires
        call_ensures(parse_arguments, (&arguments,), invocation),
        call_ensures(parse_arguments, (&longer,), extended),
        longer@ == arguments@.push(option) + (match value {
            Some(text) => seq![text],
            None => seq![],
        }),
    ensures
        arguments@.len() == 0 ==> invocation is Run && invocation->socket is None
            && invocation->name_prefix@ == "output"@,
        invocation is Run ==> {
            &&& option@ == "--socket"@ && value is Some ==> extended is Run && extended->socket
                is Some && extended->socket->0@ == value->0@ && extended->name_prefix@
                == invocation->name_prefix@
            &&& option@ == "--name"@ && value is Some ==> extended is Run && extended->name_prefix@
                == value->0@ && (extended->socket is Some <==> invocation->socket is Some) && (
            invocation->socket is Some ==> extended->socket->0@ == invocation->socket->0@)
            &&& option@ == "--socket"@ && value is None ==> extended is Usage
                && extended->Usage_0 is SocketNeedsValue
            &&& option@ == "--name"@ && value is None ==> extended is Usage && extended->Usage_0
                is NameNeedsValue
            &&& option@ == "--version"@ ==> extended is Version
            &&& option@ == "-h"@ || option@ == "--help"@ ==> extended is Usage && extended->Usage_0
                is Asked
            &&& option@ != "--socket"@ && option@ != "--name"@ && option@ != "--version"@ && option@
                != "-h"@ && option@ != "--help"@ ==> extended is Usage && extended->Usage_0
                is Unknown && extended->Usage_0->Unknown_0@ == option@
        },
        invocation is Version ==> extended is Version,
        invocation is Usage && invocation->Usage_0 is Asked ==> extended is Usage
            && extended->Usage_0 is Asked,
        invocation is Usage && invocation->Usage_0 is Unknown ==> extended is Usage
            && extended->Usage_0 is Unknown && extended->Usage_0->Unknown_0@
            == invocation->Usage_0->Unknown_0@,
{
    options_are_told_apart();
    let more = seq![option] + (match value {
        Some(text) => seq![text],
        None => seq![],
    });
    let count = arguments@.len() as int;
    assert(longer@ =~= arguments@ + more);
    meaning_goes_on(arguments@, more, 0, None, "output"@);
    assert(longer@[count] == option);
    if let Some(text) = value {
        assert(longer@[count + 1] == text);
    }
    reveal_with_fuel(meaning, 3);
}

} // verus!
