use libraw_rs::{Action, Error, OutputParams, Pipeline, Step};

/// Runs a plan, answering the calls with `outcomes` in order; returns the
/// calls made and the result.
fn run(mut p: Pipeline, outcomes: Vec<Result<(), Error>>) -> (Vec<Step>, Result<(), Error>) {
    let mut made = Vec::new();
    let mut outcomes = outcomes.into_iter();
    let mut last = Ok(());
    loop {
        match p.next(last) {
            Action::Perform(step) => {
                made.push(step);
                last = outcomes.next().expect("an outcome for every call");
            }
            Action::Finish(r) => {
                assert!(p.is_finished());
                return (made, r);
            }
        }
    }
}

fn names(steps: &[Step]) -> Vec<&'static str> {
    steps
        .iter()
        .map(|s| match s {
            Step::Init(_) => "init",
            Step::OpenFile => "open_file",
            Step::OpenBuffer => "open_buffer",
            Step::SetParams(_) => "set_params",
            Step::Unpack => "unpack",
            Step::DcrawProcess => "dcraw_process",
            Step::SaveTiff => "save_tiff",
        })
        .collect()
}

#[test]
fn open_creates_then_opens() {
    let (made, r) = run(Pipeline::open(), vec![Ok(()), Ok(())]);
    assert_eq!(names(&made), ["init", "open_file"]);
    assert!(matches!(made[0], Step::Init(0)));
    assert!(r.is_ok());
}

#[test]
fn failed_creation_stops_open() {
    let (made, r) = run(Pipeline::open_from_buffer(), vec![Err(Error::OutOfMemory)]);
    assert_eq!(names(&made), ["init"]);
    assert!(matches!(r, Err(Error::OutOfMemory)));
}

#[test]
fn open_buffer_reports_the_open_error() {
    let (made, r) = run(
        Pipeline::open_from_buffer(),
        vec![Ok(()), Err(Error::from_raw(-2, String::new()))],
    );
    assert_eq!(names(&made), ["init", "open_buffer"]);
    assert!(matches!(r, Err(Error::UnsupportedFormat)));
}

#[test]
fn process_stops_at_the_failed_unpack() {
    let (made, r) = run(Pipeline::process_default(), vec![Ok(()), Err(Error::DataError)]);
    assert_eq!(names(&made), ["set_params", "unpack"]);
    assert!(matches!(r, Err(Error::DataError)));
}

#[test]
fn process_with_uses_the_given_params() {
    let params = OutputParams::default().output_bps(16);
    let (made, r) = run(Pipeline::process_with(&params), vec![Ok(()), Ok(()), Ok(())]);
    assert_eq!(names(&made), ["set_params", "unpack", "dcraw_process"]);
    match made[0] {
        Step::SetParams(p) => assert_eq!(p.inner.output_bps, 16),
        _ => panic!("first call must store the parameters"),
    }
    assert!(r.is_ok());
}

#[test]
fn process_default_uses_default_params() {
    let (made, _) = run(Pipeline::process_default(), vec![Ok(()), Ok(()), Ok(())]);
    match made[0] {
        Step::SetParams(p) => {
            assert_eq!(p.inner.output_bps, 8);
            assert_eq!(p.inner.output_color, 1);
        }
        _ => panic!("first call must store the parameters"),
    }
}

#[test]
fn convert_to_tiff_is_open_process_save() {
    let (made, r) = run(Pipeline::convert_to_tiff(), (0..6).map(|_| Ok(())).collect());
    assert_eq!(
        names(&made),
        ["init", "open_file", "set_params", "unpack", "dcraw_process", "save_tiff"]
    );
    assert!(r.is_ok());
    let (made, r) = run(
        Pipeline::convert_to_tiff(),
        vec![Ok(()), Ok(()), Ok(()), Ok(()), Err(Error::Cancelled)],
    );
    assert_eq!(made.len(), 5);
    assert!(matches!(r, Err(Error::Cancelled)));
}
