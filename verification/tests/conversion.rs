use xiso_converter::convert::Action;
use xiso_converter::convert::Converter;
use xiso_converter::convert::Event;

fn machine(input: &str, output: &str) -> Converter {
    Converter::new(String::from(input), String::from(output))
}

fn step(m: &mut Converter, e: Event) {
    assert!(m.fits(&e));
    m.step(e);
}

#[test]
fn missing_input_fails_with_status_one() {
    let mut m = machine("missing.iso", "out/dir/image.xiso");
    assert!(matches!(m.action(), Action::StatInput));
    step(&mut m, Event::Stat { found: false, is_file: false });
    assert!(matches!(m.action(), Action::Finish(1)));
    assert_eq!(m.failure_message(), "Failed to read input metadata: missing.iso");
}

#[test]
fn input_that_is_no_file_fails() {
    let mut m = machine("somedir", "image.xiso");
    step(&mut m, Event::Stat { found: true, is_file: false });
    assert!(matches!(m.action(), Action::Finish(1)));
    assert_eq!(m.failure_message(), "Input path is not a file: somedir");
}

#[test]
fn same_canonical_paths_fail() {
    let mut m = machine("/a/file.iso", "/a/file.iso");
    step(&mut m, Event::Stat { found: true, is_file: true });
    assert!(matches!(m.action(), Action::CheckOutputExists));
    step(&mut m, Event::OutputExists(true));
    assert!(matches!(m.action(), Action::CanonicalizeInput));
    step(&mut m, Event::Canonical(Some(String::from("/a/file.iso"))));
    assert!(matches!(m.action(), Action::CanonicalizeOutput));
    step(&mut m, Event::Canonical(Some(String::from("/a/file.iso"))));
    assert!(matches!(m.action(), Action::Finish(1)));
    assert_eq!(m.failure_message(), "Input and output paths are the same file");
}

#[test]
fn same_paths_through_cwd_join_fail() {
    let mut m = machine("file.iso", "file.iso");
    step(&mut m, Event::Stat { found: true, is_file: true });
    step(&mut m, Event::OutputExists(true));
    // Canonicalization unavailable for both; both are relative.
    step(&mut m, Event::Canonical(None));
    assert!(matches!(m.action(), Action::CurrentDir));
    step(&mut m, Event::Cwd(Some(String::from("/work"))));
    assert!(matches!(m.action(), Action::CanonicalizeOutput));
    step(&mut m, Event::Canonical(None));
    assert!(matches!(m.action(), Action::CurrentDir));
    step(&mut m, Event::Cwd(Some(String::from("/work"))));
    assert!(matches!(m.action(), Action::Finish(1)));
    assert_eq!(m.failure_message(), "Input and output paths are the same file");
}

#[test]
fn absolute_fallback_resolution_detects_collision() {
    let mut m = machine("/data/game.iso", "/data/game.iso");
    step(&mut m, Event::Stat { found: true, is_file: true });
    step(&mut m, Event::OutputExists(true));
    step(&mut m, Event::Canonical(Some(String::from("/data/game.iso"))));
    // Output canonicalization fails; the absolute path stands in.
    step(&mut m, Event::Canonical(None));
    assert!(matches!(m.action(), Action::Finish(1)));
    assert_eq!(m.failure_message(), "Input and output paths are the same file");
}

#[test]
fn unresolvable_input_path_fails() {
    let mut m = machine("rel.iso", "rel.iso");
    step(&mut m, Event::Stat { found: true, is_file: true });
    step(&mut m, Event::OutputExists(true));
    step(&mut m, Event::Canonical(None));
    step(&mut m, Event::Cwd(None));
    assert!(matches!(m.action(), Action::Finish(1)));
    assert_eq!(m.failure_message(), "Failed to resolve input path: rel.iso");
}

#[test]
fn unresolvable_output_path_fails() {
    let mut m = machine("/abs/in.iso", "rel.xiso");
    step(&mut m, Event::Stat { found: true, is_file: true });
    step(&mut m, Event::OutputExists(true));
    step(&mut m, Event::Canonical(Some(String::from("/abs/in.iso"))));
    step(&mut m, Event::Canonical(None));
    step(&mut m, Event::Cwd(None));
    assert!(matches!(m.action(), Action::Finish(1)));
    assert_eq!(m.failure_message(), "Failed to resolve output path: rel.xiso");
}

#[test]
fn distinct_paths_pass_the_guard() {
    let mut m = machine("/a/in.iso", "/b/out.xiso");
    step(&mut m, Event::Stat { found: true, is_file: true });
    step(&mut m, Event::OutputExists(true));
    step(&mut m, Event::Canonical(Some(String::from("/a/in.iso"))));
    step(&mut m, Event::Canonical(Some(String::from("/b/out.xiso"))));
    match m.action() {
        Action::CreateDirAll(dir) => assert_eq!(dir, "/b"),
        other => panic!("expected directory preparation, got {}", action_name(&other)),
    }
}

#[test]
fn successful_run_requests_every_step_in_order() {
    let mut m = machine("game.iso", "out/dir/game.xiso");
    step(&mut m, Event::Stat { found: true, is_file: true });
    assert!(matches!(m.action(), Action::CheckOutputExists));
    step(&mut m, Event::OutputExists(false));
    match m.action() {
        Action::CreateDirAll(dir) => assert_eq!(dir, "out/dir"),
        other => panic!("expected directory preparation, got {}", action_name(&other)),
    }
    step(&mut m, Event::Outcome(true));
    assert!(matches!(m.action(), Action::OpenInput));
    step(&mut m, Event::Outcome(true));
    assert!(matches!(m.action(), Action::ValidateSource));
    step(&mut m, Event::Outcome(true));
    assert!(matches!(m.action(), Action::Mount));
    step(&mut m, Event::Outcome(true));
    assert!(matches!(m.action(), Action::OpenOutput));
    step(&mut m, Event::Outcome(true));
    assert!(matches!(m.action(), Action::Build));
    step(&mut m, Event::Outcome(true));
    assert!(matches!(m.action(), Action::Flush));
    step(&mut m, Event::Outcome(true));
    assert!(matches!(m.action(), Action::Finish(0)));
}

#[test]
fn existing_distinct_output_is_reopened_with_truncation() {
    // Converting onto an existing, non-identical output passes the guard and
    // still opens the output fresh (create + truncate) before building.
    let mut m = machine("/a/in.iso", "/b/out.xiso");
    step(&mut m, Event::Stat { found: true, is_file: true });
    step(&mut m, Event::OutputExists(true));
    step(&mut m, Event::Canonical(Some(String::from("/a/in.iso"))));
    step(&mut m, Event::Canonical(Some(String::from("/b/out.xiso"))));
    step(&mut m, Event::Outcome(true)); // parent directory created
    step(&mut m, Event::Outcome(true)); // input opened
    step(&mut m, Event::Outcome(true)); // source validated
    step(&mut m, Event::Outcome(true)); // mounted
    assert!(matches!(m.action(), Action::OpenOutput));
    step(&mut m, Event::Outcome(true));
    assert!(matches!(m.action(), Action::Build));
    step(&mut m, Event::Outcome(true));
    step(&mut m, Event::Outcome(true));
    assert!(matches!(m.action(), Action::Finish(0)));
}

#[test]
fn output_without_parent_skips_directory_creation() {
    let mut m = machine("game.iso", "game.xiso");
    step(&mut m, Event::Stat { found: true, is_file: true });
    step(&mut m, Event::OutputExists(false));
    assert!(matches!(m.action(), Action::OpenInput));
}

#[test]
fn directory_creation_failure_names_the_parent() {
    let mut m = machine("game.iso", "out/dir/game.xiso");
    step(&mut m, Event::Stat { found: true, is_file: true });
    step(&mut m, Event::OutputExists(false));
    step(&mut m, Event::Outcome(false));
    assert!(matches!(m.action(), Action::Finish(1)));
    assert_eq!(m.failure_message(), "Failed to create output parent directory: out/dir");
}

#[test]
fn open_input_failure_names_the_input() {
    let mut m = machine("game.iso", "game.xiso");
    step(&mut m, Event::Stat { found: true, is_file: true });
    step(&mut m, Event::OutputExists(false));
    step(&mut m, Event::Outcome(false));
    assert_eq!(m.failure_message(), "Failed to open input file: game.iso");
}

#[test]
fn invalid_image_failure_names_the_input() {
    let mut m = machine("notanimage.bin", "out.xiso");
    step(&mut m, Event::Stat { found: true, is_file: true });
    step(&mut m, Event::OutputExists(false));
    step(&mut m, Event::Outcome(true));
    step(&mut m, Event::Outcome(false));
    assert_eq!(
        m.failure_message(),
        "Input is not a valid Xbox ISO/XISO image: notanimage.bin"
    );
}

#[test]
fn mount_failure_reports_fixed_message() {
    let mut m = machine("game.iso", "out.xiso");
    step(&mut m, Event::Stat { found: true, is_file: true });
    step(&mut m, Event::OutputExists(false));
    step(&mut m, Event::Outcome(true));
    step(&mut m, Event::Outcome(true));
    step(&mut m, Event::Outcome(false));
    assert_eq!(m.failure_message(), "Failed to mount XDVDFS source image");
}

#[test]
fn open_output_failure_names_the_output() {
    let mut m = machine("game.iso", "out.xiso");
    step(&mut m, Event::Stat { found: true, is_file: true });
    step(&mut m, Event::OutputExists(false));
    step(&mut m, Event::Outcome(true));
    step(&mut m, Event::Outcome(true));
    step(&mut m, Event::Outcome(true));
    step(&mut m, Event::Outcome(false));
    assert_eq!(m.failure_message(), "Failed to open output file: out.xiso");
}

#[test]
fn build_failure_reports_fixed_message() {
    let mut m = machine("game.iso", "out.xiso");
    step(&mut m, Event::Stat { found: true, is_file: true });
    step(&mut m, Event::OutputExists(false));
    step(&mut m, Event::Outcome(true));
    step(&mut m, Event::Outcome(true));
    step(&mut m, Event::Outcome(true));
    step(&mut m, Event::Outcome(true));
    step(&mut m, Event::Outcome(false));
    assert_eq!(m.failure_message(), "Failed while creating XISO image");
}

#[test]
fn flush_failure_reports_fixed_message() {
    let mut m = machine("game.iso", "out.xiso");
    step(&mut m, Event::Stat { found: true, is_file: true });
    step(&mut m, Event::OutputExists(false));
    step(&mut m, Event::Outcome(true));
    step(&mut m, Event::Outcome(true));
    step(&mut m, Event::Outcome(true));
    step(&mut m, Event::Outcome(true));
    step(&mut m, Event::Outcome(true));
    step(&mut m, Event::Outcome(false));
    assert!(matches!(m.action(), Action::Finish(1)));
    assert_eq!(m.failure_message(), "Failed to flush output image writer");
}

#[test]
fn mismatched_event_does_not_fit() {
    let m = machine("game.iso", "out.xiso");
    assert!(!m.fits(&Event::Outcome(true)));
    assert!(m.fits(&Event::Stat { found: true, is_file: true }));
}

fn action_name(a: &Action) -> &'static str {
    match a {
        Action::StatInput => "StatInput",
        Action::CheckOutputExists => "CheckOutputExists",
        Action::CanonicalizeInput => "CanonicalizeInput",
        Action::CanonicalizeOutput => "CanonicalizeOutput",
        Action::CurrentDir => "CurrentDir",
        Action::CreateDirAll(_) => "CreateDirAll",
        Action::OpenInput => "OpenInput",
        Action::ValidateSource => "ValidateSource",
        Action::Mount => "Mount",
        Action::OpenOutput => "OpenOutput",
        Action::Build => "Build",
        Action::Flush => "Flush",
        Action::Finish(_) => "Finish",
    }
}
