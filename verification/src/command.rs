//! A program to run with its arguments, as the library plans it and the
//! caller spawns it, and what a finished run amounts to.

use vstd::prelude::*;
use crate::text::views;

verus! {

/// A command line: the program and its arguments.
pub struct CommandSpec {
    pub program: String,
    pub args: Vec<String>,
}

impl View for CommandSpec {
    type V = (Seq<char>, Seq<Seq<char>>);

    open spec fn view(&self) -> (Seq<char>, Seq<Seq<char>>) {
        (self.program@, views(self.args@))
    }
}

/// How a run of a command ended, as the caller observed it.
pub enum RunOutcome {
    /// The program could not be started; the text of the error.
    SpawnFailed(String),
    /// The program ran to its end; whether it reported success, and what it
    /// wrote to its error stream, decoded as UTF-8 with replacement.
    Exited { success: bool, stderr: String },
}

/// The error text for a run of `program` that ended as `outcome`, or
/// `None` where it succeeded.
pub open spec fn run_error(program: Seq<char>, outcome: RunOutcome) -> Option<Seq<char>> {
    match outcome {
        RunOutcome::SpawnFailed(e) => Some(program + ": "@ + e@),
        RunOutcome::Exited { success, stderr } => if success {
            None
        } else {
            Some(program + " failed: "@ + stderr@)
        },
    }
}

/// What a finished run of `program` amounts to: `Ok` where it started and
/// reported success, else an error naming the program.
pub fn run_result(program: &str, outcome: RunOutcome) -> (r: Result<(), String>)
    ensures
        match run_error(program@, outcome) {
            None => r is Ok,
            Some(msg) => r matches Err(e) && e@ == msg,
        },
{
    match outcome {
        RunOutcome::SpawnFailed(e) => {
            let msg = program.to_string().concat(": ").concat(e.as_str());
            Err(msg)
        },
        RunOutcome::Exited { success, stderr } => {
            if success {
                Ok(())
            } else {
                let msg = program.to_string().concat(" failed: ").concat(stderr.as_str());
                Err(msg)
            }
        },
    }
}

/// A vector of owned strings from string slices.
pub(crate) fn owned(parts: &[&str]) -> (r: Vec<String>)
    ensures
        r@.len() == parts@.len(),
        forall|i: int| 0 <= i < parts@.len() ==> #[trigger] r@[i]@ == parts@[i]@,
{
    let mut r: Vec<String> = Vec::new();
    let mut i: usize = 0;
    while i < parts.len()
        invariant
            i <= parts@.len(),
            r@.len() == i,
            forall|j: int| 0 <= j < i ==> #[trigger] r@[j]@ == parts@[j]@,
        decreases parts@.len() - i,
    {
        r.push(parts[i].to_string());
        i = i + 1;
    }
    r
}

} // verus!
