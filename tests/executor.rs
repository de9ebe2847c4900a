use memo::executor::{build_command_string, exit_code_from_status, TeeWriter};
use std::io;

#[test]
fn test_build_command_string() {
    let cmd =
        build_command_string(&["echo".to_string(), "hello".to_string(), "world".to_string()]);
    assert_eq!(cmd, "echo hello world");
}

#[test]
fn test_build_command_string_single_arg() {
    let cmd = build_command_string(&["ls".to_string()]);
    assert_eq!(cmd, "ls");
}

#[test]
fn test_build_command_string_empty() {
    let cmd = build_command_string(&[]);
    assert_eq!(cmd, "");
}

#[test]
fn test_build_command_string_with_spaces() {
    let cmd = build_command_string(&["echo".to_string(), "hello world".to_string()]);
    assert_eq!(cmd, "echo hello world");
}

#[test]
fn test_build_command_string_special_chars() {
    let cmd = build_command_string(&[
        "echo".to_string(),
        "\"quoted\"".to_string(),
        "$VAR".to_string(),
    ]);
    assert_eq!(cmd, "echo \"quoted\" $VAR");
}

#[test]
fn exit_code_is_kept_or_minus_one_without_one() {
    assert_eq!(exit_code_from_status(Some(42)), 42);
    assert_eq!(exit_code_from_status(Some(0)), 0);
    assert_eq!(exit_code_from_status(Some(-3)), -3);
    assert_eq!(exit_code_from_status(None), -1);
}

#[test]
fn tee_file_failure_is_recorded_but_not_fatal() {
    let mut tee = TeeWriter::new("/cache/x.tmp.1.2/stdout".to_string());
    assert!(!tee.has_error());
    assert_eq!(tee.take_error_path(), None);

    let r = tee.record_write(5, Ok(()), Ok(()));
    assert_eq!(r.unwrap(), 5);
    assert!(!tee.has_error());

    let r = tee.record_write(7, Err(io::Error::other("disk full")), Ok(()));
    assert_eq!(r.unwrap(), 7);
    assert!(tee.has_error());
    assert_eq!(tee.take_error_path(), Some("/cache/x.tmp.1.2/stdout".to_string()));

    let r = tee.record_write(3, Ok(()), Ok(()));
    assert_eq!(r.unwrap(), 3);
    assert!(tee.has_error());
}

#[test]
fn tee_console_failure_fails_the_write() {
    let mut tee = TeeWriter::new("out".to_string());
    let r = tee.record_write(4, Ok(()), Err(io::Error::new(io::ErrorKind::BrokenPipe, "closed")));
    assert_eq!(r.unwrap_err().kind(), io::ErrorKind::BrokenPipe);
    assert!(!tee.has_error());
}

#[test]
fn tee_keeps_the_first_file_failure() {
    let mut tee = TeeWriter::new("err".to_string());
    let _ = tee.record_write(1, Err(io::Error::new(io::ErrorKind::PermissionDenied, "ro")), Ok(()));
    let _ = tee.record_write(1, Err(io::Error::new(io::ErrorKind::Other, "full")), Ok(()));
    assert!(tee.has_error());
    assert_eq!(tee.take_error_path(), Some("err".to_string()));
}
