//! The command dispatcher: the typed routing layer from named front-end
//! calls to native handler functions. Handlers are registered once during
//! bootstrap and immutable thereafter; the handler set is closed, and the
//! one operation of this shell is `greet`.

use vstd::prelude::*;
use vstd::string::StringExecFns;
use crate::greet::greet;
use crate::greet::greet_message;
use crate::strutil::str_eq;

verus! {

/// Why a front-end call failed to dispatch. Unlike bootstrap errors this is
/// recoverable: it is returned to the caller and the event loop goes on.
#[derive(Clone, Copy, Debug, PartialEq, Eq, Structural)]
pub enum DispatchError {
    UnknownCommand,
}

/// The name under which the greeting handler is registered.
pub open spec fn greet_command_name() -> Seq<char> {
    "greet"@
}

/// The routing table from operation names to handlers. Since the handler
/// set is closed, it is recorded as the sequence of registered names.
pub struct CommandDispatcher {
    pub commands: Vec<String>,
}

impl CommandDispatcher {
    /// The registered operation names, in registration order.
    pub open spec fn names(self) -> Seq<Seq<char>> {
        self.commands.deep_view()
    }

    /// Every registered name belongs to a known handler; with a closed
    /// handler set, only the greeting handler can be registered.
    pub open spec fn well_formed(self) -> bool {
        forall|i: int| 0 <= i < self.names().len() ==> self.names()[i] == greet_command_name()
    }

    /// A fresh dispatcher routes nothing: no handler is reachable.
    pub fn new() -> (r: CommandDispatcher)
        ensures
            r.names() == Seq::<Seq<char>>::empty(),
            r.well_formed(),
    {
        let r = CommandDispatcher { commands: Vec::new() };
        proof {
            assert(r.names() =~= Seq::<Seq<char>>::empty());
        }
        r
    }

    /// Register the greeting handler under its name.
    pub fn register_greet(&mut self)
        ensures
            final(self).names() == old(self).names().push(greet_command_name()),
            old(self).well_formed() ==> final(self).well_formed(),
    {
        let name = String::from_str("greet");
        self.commands.push(name);
        proof {
            assert(final(self).names() =~~= old(self).names().push(greet_command_name()));
        }
    }

    /// Route one inbound call: look the name up among the registered
    /// handlers and run the match synchronously. A name with no registered
    /// handler is answered with `UnknownCommand`; the `greet` handler
    /// succeeds on every text input.
    pub fn dispatch(&self, name: &str, input: &str) -> (r: Result<String, DispatchError>)
        requires
            self.well_formed(),
        ensures
            r is Ok <==> self.names().contains(name@),
            r is Ok ==> name@ == greet_command_name() && r.unwrap()@ == greet_message(input@),
            !self.names().contains(name@) ==> r == Err::<String, DispatchError>(
                DispatchError::UnknownCommand,
            ),
    {
        let n = self.commands.len();
        let mut i: usize = 0;
        while i < n
            invariant
                i <= n,
                n == self.commands.len(),
                self.names().len() == self.commands@.len(),
                self.well_formed(),
                forall|j: int| 0 <= j < i ==> self.names()[j] != name@,
            decreases n - i,
        {
            if str_eq(name, self.commands[i].as_str()) {
                proof {
                    assert(self.names()[i as int] == name@);
                    assert(self.names().contains(name@));
                }
                return Ok(greet(input));
            }
            i += 1;
        }
        proof {
            assert(!self.names().contains(name@));
        }
        Err(DispatchError::UnknownCommand)
    }
}

} // verus!
