use vstd::prelude::*;

verus! {

/// What became of an outside command that was asked to run to its end.
pub enum CommandOutcome {
    /// It could not be started or waited for; the text of the error.
    NotRun(String),
    /// It ran and exited; whether with success, and its decoded output.
    Exited { success: bool, stdout: String, stderr: String },
}

pub enum CommandOutcomeView {
    NotRun(Seq<char>),
    Exited { success: bool, stdout: Seq<char>, stderr: Seq<char> },
}

impl View for CommandOutcome {
    type V = CommandOutcomeView;

    open spec fn view(&self) -> CommandOutcomeView {
        match self {
            CommandOutcome::NotRun(e) => CommandOutcomeView::NotRun(e@),
            CommandOutcome::Exited { success, stdout, stderr } => CommandOutcomeView::Exited {
                success: *success,
                stdout: stdout@,
                stderr: stderr@,
            },
        }
    }
}

/// The view of a result whose error is a text.
pub open spec fn result_view(r: Result<(), String>) -> Result<(), Seq<char>> {
    match r {
        Ok(()) => Ok(()),
        Err(e) => Err(e@),
    }
}

} // verus!
