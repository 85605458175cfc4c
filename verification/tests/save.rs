use tray_companion::save::{save_next, save_start, SaveProgress, SaveStep};

/// Plays the host: takes each step that the library asks for, fares with
/// it as told, and records the steps taken.
fn drive(
    has_parent: bool,
    create_parent: Result<(), String>,
    encode: Result<(), String>,
    write: Result<(), String>,
) -> (Vec<SaveStep>, Result<(), String>) {
    let mut taken = Vec::new();
    let mut step = save_start(has_parent);
    loop {
        taken.push(step);
        assert!(taken.len() <= 3, "a save takes at most three steps");
        let outcome = match step {
            SaveStep::CreateParent => create_parent.clone(),
            SaveStep::Encode => encode.clone(),
            SaveStep::Write => write.clone(),
        };
        match save_next(step, outcome) {
            SaveProgress::Run(next) => step = next,
            SaveProgress::Done(result) => return (taken, result),
        }
    }
}

fn failed(message: &str) -> Result<(), String> {
    Err(String::from(message))
}

#[test]
fn save_starts_by_creating_the_parent() {
    assert_eq!(save_start(true), SaveStep::CreateParent);
}

#[test]
fn save_without_parent_starts_by_encoding() {
    assert_eq!(save_start(false), SaveStep::Encode);
}

#[test]
fn each_success_leads_to_the_next_step() {
    assert!(matches!(
        save_next(SaveStep::CreateParent, Ok(())),
        SaveProgress::Run(SaveStep::Encode)
    ));
    assert!(matches!(
        save_next(SaveStep::Encode, Ok(())),
        SaveProgress::Run(SaveStep::Write)
    ));
    assert!(matches!(
        save_next(SaveStep::Write, Ok(())),
        SaveProgress::Done(Ok(()))
    ));
}

#[test]
fn each_failure_ends_the_save_with_its_message() {
    for step in [SaveStep::CreateParent, SaveStep::Encode, SaveStep::Write] {
        match save_next(step, failed("Permission denied (os error 13)")) {
            SaveProgress::Done(Err(message)) => {
                assert_eq!(message, "Permission denied (os error 13)")
            }
            other => panic!("unexpected progress after {:?}: {:?}", step, other),
        }
    }
}

#[test]
fn whole_save_takes_three_steps_in_order() {
    let (taken, result) = drive(true, Ok(()), Ok(()), Ok(()));
    assert_eq!(
        taken,
        vec![SaveStep::CreateParent, SaveStep::Encode, SaveStep::Write]
    );
    assert_eq!(result, Ok(()));
}

#[test]
fn whole_save_without_parent_takes_two_steps() {
    let (taken, result) = drive(false, failed("never asked"), Ok(()), Ok(()));
    assert_eq!(taken, vec![SaveStep::Encode, SaveStep::Write]);
    assert_eq!(result, Ok(()));
}

#[test]
fn failed_parent_creation_stops_before_any_write() {
    let (taken, result) = drive(true, failed("Read-only file system (os error 30)"), Ok(()), Ok(()));
    assert_eq!(taken, vec![SaveStep::CreateParent]);
    assert_eq!(result, failed("Read-only file system (os error 30)"));
}

#[test]
fn failed_encoding_stops_before_the_write() {
    let (taken, result) = drive(true, Ok(()), failed("key must be a string"), Ok(()));
    assert_eq!(taken, vec![SaveStep::CreateParent, SaveStep::Encode]);
    assert_eq!(result, failed("key must be a string"));
}

#[test]
fn failed_write_is_reported() {
    let (taken, result) = drive(true, Ok(()), Ok(()), failed("No space left on device (os error 28)"));
    assert_eq!(
        taken,
        vec![SaveStep::CreateParent, SaveStep::Encode, SaveStep::Write]
    );
    assert_eq!(result, failed("No space left on device (os error 28)"));
}

#[test]
fn first_failure_wins() {
    let (taken, result) = drive(true, failed("first"), failed("second"), failed("third"));
    assert_eq!(taken, vec![SaveStep::CreateParent]);
    assert_eq!(result, failed("first"));
    let (taken, result) = drive(false, failed("first"), failed("second"), failed("third"));
    assert_eq!(taken, vec![SaveStep::Encode]);
    assert_eq!(result, failed("second"));
}
