use xiso_converter::paths::is_absolute;
use xiso_converter::paths::join;
use xiso_converter::paths::parent_dir;
use xiso_converter::report::decode_path_arg;
use xiso_converter::report::render_err_buf;
use xiso_converter::report::report;
use xiso_converter::report::CallOutcome;

#[test]
fn absolute_paths_start_with_separator() {
    assert!(is_absolute("/a/b"));
    assert!(is_absolute("/"));
    assert!(!is_absolute("a/b"));
    assert!(!is_absolute(""));
}

#[test]
fn parent_dir_strips_the_last_component() {
    assert_eq!(parent_dir("a/b/c"), "a/b");
    assert_eq!(parent_dir("out/dir/image.xiso"), "out/dir");
    assert_eq!(parent_dir("image.xiso"), "");
    assert_eq!(parent_dir("/image.xiso"), "");
    assert_eq!(parent_dir("dir/"), "dir");
}

#[test]
fn join_inserts_a_separator_only_when_needed() {
    assert_eq!(join("/work", "rel.iso"), "/work/rel.iso");
    assert_eq!(join("/work/", "rel.iso"), "/work/rel.iso");
    assert_eq!(join("", "rel.iso"), "/rel.iso");
}

#[test]
fn null_path_argument_is_rejected() {
    let r = decode_path_arg(None, "input_path");
    assert_eq!(r, Err(String::from("input_path was null")));
    let r = decode_path_arg(None, "output_path");
    assert_eq!(r, Err(String::from("output_path was null")));
}

#[test]
fn invalid_text_argument_is_rejected() {
    let r = decode_path_arg(Some(vec![0x66, 0xff, 0x01]), "input_path");
    assert_eq!(r, Err(String::from("input_path was not valid UTF-8")));
}

#[test]
fn valid_text_argument_decodes() {
    let r = decode_path_arg(Some(b"/a/game.iso".to_vec()), "input_path");
    assert_eq!(r, Ok(String::from("/a/game.iso")));
}

#[test]
fn success_reports_zero_and_a_cleared_buffer() {
    let (status, buf) = report(&CallOutcome::Completed, 8);
    assert_eq!(status, 0);
    assert_eq!(buf, vec![0u8; 8]);
}

#[test]
fn failure_reports_one_and_the_message() {
    let (status, buf) = report(&CallOutcome::Failed(String::from("boom")), 16);
    assert_eq!(status, 1);
    let mut expected = b"boom".to_vec();
    expected.resize(16, 0);
    assert_eq!(buf, expected);
}

#[test]
fn fault_reports_two_and_a_generic_notice() {
    let (status, buf) = report(&CallOutcome::Fault, 64);
    assert_eq!(status, 2);
    let mut expected = b"ISO conversion panicked".to_vec();
    expected.resize(64, 0);
    assert_eq!(buf, expected);
}

#[test]
fn message_is_truncated_to_leave_a_terminator() {
    let msg = "a long failure description";
    let buf = render_err_buf(msg, 5);
    assert_eq!(buf, vec![b'a', b' ', b'l', b'o', 0]);
}

#[test]
fn every_small_capacity_stays_terminated() {
    for len in [0usize, 1, 2, 8, 1024] {
        let buf = render_err_buf("failure text", len);
        assert_eq!(buf.len(), len);
        if len > 0 {
            assert_eq!(buf[len - 1], 0);
        }
    }
}

#[test]
fn exact_fit_still_truncates_by_one() {
    // Capacity equal to the message length leaves room for all but one byte.
    let buf = render_err_buf("abcd", 4);
    assert_eq!(buf, vec![b'a', b'b', b'c', 0]);
    let buf = render_err_buf("abcd", 6);
    assert_eq!(buf, vec![b'a', b'b', b'c', b'd', 0, 0]);
}
