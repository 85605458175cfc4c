//! Saving the settings document, one step at a time.
//!
//! The host does the work of each step and reports how it went; the
//! functions here decide what comes next. A save replaces the stored
//! document as a whole, and the first step that fails ends it.

use vstd::prelude::*;

verus! {

/// A piece of work that the host does on behalf of a save.
#[derive(Clone, Copy, Debug, PartialEq, Eq, Structural)]
pub enum SaveStep {
    /// Create the directory that will hold the file, with its ancestors.
    CreateParent,
    /// Turn the document into text.
    Encode,
    /// Write the text over the file.
    Write,
}

/// Where a save stands after a step.
#[derive(Debug)]
pub enum SaveProgress {
    /// The host goes on with this step.
    Run(SaveStep),
    /// The save is over; on failure the caller gets the message.
    Done(Result<(), String>),
}

/// The step with which a save begins: a path without a parent has no
/// directory to create.
pub open spec fn first_step(has_parent: bool) -> SaveStep {
    if has_parent {
        SaveStep::CreateParent
    } else {
        SaveStep::Encode
    }
}

/// What follows a step that ended with `outcome`: the next step after a
/// success, and the end of the save, with that outcome, after a failure
/// or after the last step.
pub open spec fn progress_after(step: SaveStep, outcome: Result<(), String>) -> SaveProgress {
    match (step, outcome) {
        (SaveStep::CreateParent, Ok(_)) => SaveProgress::Run(SaveStep::Encode),
        (SaveStep::Encode, Ok(_)) => SaveProgress::Run(SaveStep::Write),
        _ => SaveProgress::Done(outcome),
    }
}

/// Begins a save to a path that has a parent directory or has none.
pub fn save_start(has_parent: bool) -> (step: SaveStep)
    ensures
        step == first_step(has_parent),
{
    if has_parent {
        SaveStep::CreateParent
    } else {
        SaveStep::Encode
    }
}

/// Decides what follows `step`, given how the host fared with it.
pub fn save_next(step: SaveStep, outcome: Result<(), String>) -> (progress: SaveProgress)
    ensures
        progress == progress_after(step, outcome),
{
    match (step, &outcome) {
        (SaveStep::CreateParent, Ok(_)) => SaveProgress::Run(SaveStep::Encode),
        (SaveStep::Encode, Ok(_)) => SaveProgress::Run(SaveStep::Write),
        _ => SaveProgress::Done(outcome),
    }
}

/// How the host would fare with each step of one save, were it to take
/// that step.
pub struct StepOutcomes {
    pub create_parent: Result<(), String>,
    pub encode: Result<(), String>,
    pub write: Result<(), String>,
}

impl StepOutcomes {
    /// The outcome of one step.
    pub open spec fn of(self, step: SaveStep) -> Result<(), String> {
        match step {
            SaveStep::CreateParent => self.create_parent,
            SaveStep::Encode => self.encode,
            SaveStep::Write => self.write,
        }
    }
}

/// A save that has run to its end: the steps that were taken, in order,
/// and what the caller is told.
pub struct SaveRun {
    pub steps: Seq<SaveStep>,
    pub result: Result<(), String>,
}

/// The number of steps that a save may still take, `step` included.
pub open spec fn steps_left(step: SaveStep) -> nat {
    match step {
        SaveStep::CreateParent => 3,
        SaveStep::Encode => 2,
        SaveStep::Write => 1,
    }
}

/// The save that starts at `step` and follows [`progress_after`] to its end.
pub open spec fn run_from(step: SaveStep, outcomes: StepOutcomes) -> SaveRun
    decreases steps_left(step),
{
    match progress_after(step, outcomes.of(step)) {
        SaveProgress::Done(result) => SaveRun { steps: seq![step], result },
        SaveProgress::Run(next) => {
            let rest = run_from(next, outcomes);
            SaveRun { steps: seq![step] + rest.steps, result: rest.result }
        },
    }
}

/// The whole save to a path that has a parent directory or has none.
pub open spec fn run(has_parent: bool, outcomes: StepOutcomes) -> SaveRun {
    run_from(first_step(has_parent), outcomes)
}

/// Every step brings a save nearer to its end.
pub proof fn lemma_save_advances(step: SaveStep, outcome: Result<(), String>)
    ensures
        progress_after(step, outcome) matches SaveProgress::Run(next)
            ==> steps_left(next) < steps_left(step),
{
}

/// A step that fails ends the save at once, with its own message.
pub proof fn lemma_failure_ends_save(step: SaveStep, message: String)
    ensures
        progress_after(step, Err(message)) == SaveProgress::Done(Err(message)),
{
}

/// The file is written only once the document was encoded, and a save
/// reports success only once the file was written.
pub proof fn lemma_write_comes_last(step: SaveStep, outcome: Result<(), String>)
    ensures
        progress_after(step, outcome) == SaveProgress::Run(SaveStep::Write)
            <==> step == SaveStep::Encode && outcome is Ok,
        (progress_after(step, outcome) matches SaveProgress::Done(result) && result is Ok)
            <==> step == SaveStep::Write && outcome is Ok,
{
}

/// When the parent directory cannot be created, the save ends with that
/// failure's message after the one step: nothing is encoded and nothing is
/// written, so no file is left behind half done.
pub proof fn lemma_no_write_without_parent(outcomes: StepOutcomes)
    requires
        outcomes.create_parent is Err,
    ensures
        run(true, outcomes).steps == seq![SaveStep::CreateParent],
        run(true, outcomes).result == outcomes.create_parent,
{
    reveal_with_fuel(run_from, 2);
}

/// A save succeeds exactly when each of its steps does: creating the
/// parent only where the path has one. On failure the caller gets the
/// message of the first step that failed, and no later step is taken.
pub proof fn lemma_save_result(has_parent: bool, outcomes: StepOutcomes)
    ensures
        run(has_parent, outcomes).result is Ok
            <==> (has_parent ==> outcomes.create_parent is Ok)
                && outcomes.encode is Ok && outcomes.write is Ok,
        run(has_parent, outcomes).result == (if has_parent && outcomes.create_parent is Err {
            outcomes.create_parent
        } else if outcomes.encode is Err {
            outcomes.encode
        } else {
            outcomes.write
        }),
        run(has_parent, outcomes).steps.contains(SaveStep::Write)
            <==> (has_parent ==> outcomes.create_parent is Ok) && outcomes.encode is Ok,
{
    reveal_with_fuel(run_from, 4);
    if (has_parent ==> outcomes.create_parent is Ok) && outcomes.encode is Ok {
        let steps = run(has_parent, outcomes).steps;
        assert(steps[steps.len() - 1] == SaveStep::Write);
    }
}

} // verus!
