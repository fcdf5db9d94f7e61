use vexmason::pipeline::{exit_code, next_step, Fatal, Progress, Step};
use vexmason::save_readable::{save_readable, Capture};
use vexmason::tee::tee;

fn arguments(list: &[&str]) -> Vec<String> {
    list.iter().map(|s| s.to_string()).collect()
}

#[test]
fn invocation_outside_a_project_is_passed_through() {
    assert_eq!(next_step(Progress::Started, &arguments(&[])), Step::RunPlain);
    assert_eq!(next_step(Progress::Started, &arguments(&["--slot", "1"])), Step::RunPlain);
    assert_eq!(next_step(Progress::Started, &arguments(&["--slot", "1", "--write"])), Step::RunPlain);
}

#[test]
fn invocation_with_an_entry_point_seeks_its_project() {
    assert_eq!(next_step(Progress::Started, &arguments(&["--write", "src/main.py"])), Step::SeekRoot);
}

#[test]
fn managed_invocation_runs_in_order() {
    let list = arguments(&["--slot", "1", "--write", "src/main.py"]);
    assert_eq!(next_step(Progress::RootSought { found: true }, &list), Step::Resolve);
    assert_eq!(next_step(Progress::ConfigResolved { resolved: true }, &list), Step::Transform);
    assert_eq!(next_step(Progress::Transformed { compiled: true }, &list), Step::RunRewritten);
    assert_eq!(next_step(Progress::Exited { success: true, code: Some(0) }, &list), Step::Succeed);
}

#[test]
fn transform_is_skipped_without_write() {
    let list = arguments(&["--name", "x"]);
    assert_eq!(next_step(Progress::ConfigResolved { resolved: true }, &list), Step::RunRewritten);
    let list = arguments(&["--name", "x", "--write"]);
    assert_eq!(next_step(Progress::ConfigResolved { resolved: true }, &list), Step::Transform);
}

#[test]
fn failures_give_the_invocation_up() {
    let list = arguments(&["--write", "src/main.py"]);
    assert_eq!(
        next_step(Progress::RootSought { found: false }, &list),
        Step::Abort(Fatal::ProjectNotFound)
    );
    assert_eq!(
        next_step(Progress::ConfigResolved { resolved: false }, &list),
        Step::Abort(Fatal::ConfigUnresolved)
    );
    assert_eq!(
        next_step(Progress::Transformed { compiled: false }, &list),
        Step::Abort(Fatal::TransformFailed)
    );
}

#[test]
fn failed_run_ends_with_its_exit_code() {
    let list = arguments(&[]);
    assert_eq!(next_step(Progress::Exited { success: false, code: Some(3) }, &list), Step::ExitWith(3));
    assert_eq!(next_step(Progress::Exited { success: false, code: None }, &list), Step::ExitWith(1));
    assert_eq!(next_step(Progress::Exited { success: true, code: None }, &list), Step::Succeed);
}

#[test]
fn exit_codes_are_brought_into_range() {
    assert_eq!(exit_code(None), 1);
    assert_eq!(exit_code(Some(0)), 0);
    assert_eq!(exit_code(Some(1)), 1);
    assert_eq!(exit_code(Some(255)), 255);
    assert_eq!(exit_code(Some(256)), 255);
    assert_eq!(exit_code(Some(i32::MAX)), 255);
    assert_eq!(exit_code(Some(-1)), 0);
    assert_eq!(exit_code(Some(i32::MIN)), 0);
}

#[test]
fn capture_keeps_every_piece_in_order() {
    let mut capture = Capture::new();
    assert!(capture.take(b"warning: "));
    assert!(capture.take(b"x"));
    assert!(capture.take(&[0u8, 255, 10]));
    assert!(!capture.take(b""));
    assert_eq!(capture.into_bytes(), b"warning: x\x00\xff\n".to_vec());
    assert_eq!(Capture::new().into_bytes(), Vec::<u8>::new());
}

#[test]
fn stream_is_kept_up_to_its_end() {
    let mut terminal = b"> ".to_vec();
    assert_eq!(save_readable(&vec![], &mut terminal), Vec::<u8>::new());
    assert_eq!(terminal, b"> ".to_vec());
    assert_eq!(save_readable(&vec![b"ab".to_vec(), b"c".to_vec()], &mut terminal), b"abc".to_vec());
    assert_eq!(terminal, b"> abc".to_vec());
    let mut terminal = Vec::new();
    assert_eq!(
        save_readable(&vec![b"ab".to_vec(), vec![], b"c".to_vec()], &mut terminal),
        b"ab".to_vec()
    );
    assert_eq!(terminal, b"ab".to_vec());
    let big: Vec<u8> = (0..5000u32).map(|i| (i % 251) as u8).collect();
    let pieces: Vec<Vec<u8>> = big.chunks(1024).map(|c| c.to_vec()).collect();
    let mut terminal = Vec::new();
    assert_eq!(save_readable(&pieces, &mut terminal), big);
    assert_eq!(terminal, big);
}

#[test]
fn both_outputs_receive_the_same_bytes() {
    let big: Vec<u8> = (0..3000u32).map(|i| (i % 256) as u8).collect();
    let pieces: Vec<Vec<u8>> = big.chunks(7).map(|c| c.to_vec()).collect();
    let mut terminal = Vec::new();
    let mut log = b"log: ".to_vec();
    tee(&pieces, &mut terminal, &mut log);
    assert_eq!(terminal, big);
    assert_eq!(&log[..5], b"log: ");
    assert_eq!(&log[5..], &big[..]);
    let mut one = Vec::new();
    let mut two = Vec::new();
    tee(&vec![b"x".to_vec(), vec![], b"y".to_vec()], &mut one, &mut two);
    assert_eq!(one, b"x".to_vec());
    assert_eq!(two, b"x".to_vec());
}
