//! The command line that an action runs.
use vstd::prelude::*;

use crate::config::{texts, Action, ActionView};

verus! {

/// A program and the arguments to start it with.
#[derive(Debug, PartialEq, Eq)]
pub struct CommandLine {
    pub program: String,
    pub arguments: Vec<String>,
}

/// The command line of an action: for `Run`, its program with its arguments,
/// or with none where it lists none.
pub fn command_line(action: &Action) -> (r: CommandLine)
    ensures
        match action@ {
            ActionView::Run(run) => r.program@ == run.program && texts(r.arguments@)
                == match run.arguments {
                Some(a) => a,
                None => Seq::<Seq<char>>::empty(),
            },
        },
{
    match action {
        Action::Run(run) => {
            let copy = run.duplicate();
            let arguments = match copy.arguments {
                Some(a) => a,
                None => {
                    let v: Vec<String> = Vec::new();
                    assert(texts(v@) =~= Seq::<Seq<char>>::empty());
                    v
                },
            };
            CommandLine { program: copy.program, arguments }
        },
    }
}

} // verus!
