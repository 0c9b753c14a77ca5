use vstd::prelude::*;

verus! {

/// A program to run inside the container and the arguments it receives.
pub struct Command {
    pub program: String,
    pub args: Vec<String>,
}

/// Splits a launcher command line (the launcher's own name, the program,
/// then its arguments) into the program and its arguments; `None` when no
/// program is named.
pub fn parse_command(line: Vec<String>) -> (r: Option<Command>)
    ensures
        r is Some <==> line@.len() >= 2,
        r is Some ==> r->0.program == line@[1] && r->0.args@ == line@.subrange(2, line@.len() as int),
{
    if line.len() < 2 {
        return None;
    }
    let mut rest = line;
    let _launcher = rest.remove(0);
    let program = rest.remove(0);
    proof {
        assert(rest@ =~= line@.subrange(2, line@.len() as int));
    }
    Some(Command { program, args: rest })
}

} // verus!
