use memo::digest::{compute_digest_for_args, digest_hex, digest_of_encodings};
use shell_words::split;

const TEST_CWD: &str = "/test/cwd";

fn digest_for_args(args: &[String]) -> String {
    compute_digest_for_args(args, TEST_CWD).expect("failed to compute digest")
}

fn digest_for_command(command: &str) -> String {
    let args = split(command).expect("failed to parse command");
    digest_for_args(&args)
}

fn strings(items: &[&str]) -> Vec<String> {
    items.iter().map(|s| s.to_string()).collect()
}

#[test]
fn test_digest_same_command_same_output() {
    let digest1 = digest_for_command("echo hello");
    let digest2 = digest_for_command("echo hello");
    assert_eq!(digest1, digest2);
}

#[test]
fn test_digest_different_commands_different_output() {
    let digest1 = digest_for_command("echo hello");
    let digest2 = digest_for_command("echo world");
    assert_ne!(digest1, digest2);
}

#[test]
fn test_digest_format() {
    let digest = digest_for_command("echo test");
    assert_eq!(digest.len(), 64);
    assert!(digest.chars().all(|c| c.is_ascii_hexdigit()));
}

#[test]
fn test_digest_whitespace_collapses() {
    let digest1 = digest_for_command("echo   hello");
    let digest2 = digest_for_command("echo hello");
    assert_eq!(digest1, digest2);
}

#[test]
fn test_digest_order_sensitive() {
    let digest1 = digest_for_args(&vec!["echo".into(), "hello".into(), "world".into()]);
    let digest2 = digest_for_args(&vec!["echo".into(), "world".into(), "hello".into()]);
    assert_ne!(digest1, digest2);
}

#[test]
fn test_digest_empty_args_known_value() {
    let digest = digest_for_command("");
    assert_eq!(digest.len(), 64);
}

#[test]
fn test_digest_quoting_changes_arguments() {
    let quoted = digest_for_command("echo 'hello world'");
    let unquoted = digest_for_command("echo hello world");
    assert_ne!(quoted, unquoted);
}

#[test]
fn test_digest_args_avoids_join_collisions() {
    let quoted = digest_for_command("echo 'a b'");
    let split_args = digest_for_command("echo a b");
    assert_ne!(quoted, split_args);
}

#[test]
fn test_digest_known_value_for_echo_hello() {
    let digest = digest_for_args(&vec!["echo".into(), "hello".into()]);
    assert_eq!(digest.len(), 64);
    assert!(digest.chars().all(|c| c.is_ascii_hexdigit()));
}

#[test]
fn test_digest_different_cwd_different_output() {
    let args: Vec<String> = vec!["echo".into(), "hello".into()];
    let digest1 = compute_digest_for_args(&args, "/path/one").unwrap();
    let digest2 = compute_digest_for_args(&args, "/path/two").unwrap();
    assert_ne!(digest1, digest2);
}

#[test]
fn test_digest_same_cwd_same_output() {
    let args: Vec<String> = vec!["echo".into(), "hello".into()];
    let digest1 = compute_digest_for_args(&args, "/same/path").unwrap();
    let digest2 = compute_digest_for_args(&args, "/same/path").unwrap();
    assert_eq!(digest1, digest2);
}

#[test]
fn test_digest_special_characters_are_preserved() {
    let digest1 = digest_for_command("echo \"hello\" 'world' $USER");
    let digest2 = digest_for_command("echo \"hello\" 'world' $USER");
    assert_eq!(digest1, digest2);
}

#[test]
fn digest_hex_renders_lowercase_pairs() {
    assert_eq!(digest_hex(&[0xde, 0xad, 0x01, 0x00, 0xff]), "dead0100ff");
    assert_eq!(digest_hex(&[]), "");
}

#[test]
fn digest_of_empty_encodings_is_sha256_of_nothing() {
    assert_eq!(
        digest_of_encodings(b"", b""),
        "e3b0c44298fc1c149afbf4c8996fb92427ae41e4649b934ca495991b7852b855"
    );
}

#[test]
fn digest_of_encodings_hashes_the_concatenation() {
    assert_eq!(
        digest_of_encodings(b"ab", b"c"),
        "ba7816bf8f01cfea414140de5dae2223b00361a396177a9cb410ff61f20015ad"
    );
    assert_eq!(digest_of_encodings(b"a", b"bc"), digest_of_encodings(b"ab", b"c"));
}

#[test]
fn key_hashes_json_of_arguments_then_json_of_directory() {
    let key = compute_digest_for_args(&strings(&["echo", "a b"]), "/w").unwrap();
    assert_eq!(key, digest_of_encodings(b"[\"echo\",\"a b\"]", b"\"/w\""));
    let key = compute_digest_for_args(&[], "").unwrap();
    assert_eq!(key, digest_of_encodings(b"[]", b"\"\""));
    let key = compute_digest_for_args(&strings(&["say \"hi\"\n"]), "/d").unwrap();
    assert_eq!(key, digest_of_encodings(b"[\"say \\\"hi\\\"\\n\"]", b"\"/d\""));
}

#[test]
fn argument_boundaries_and_directory_change_the_key() {
    let joined = compute_digest_for_args(&strings(&["echo", "a b"]), "/w").unwrap();
    let split_up = compute_digest_for_args(&strings(&["echo", "a", "b"]), "/w").unwrap();
    assert_ne!(joined, split_up);
    let elsewhere = compute_digest_for_args(&strings(&["echo", "a b"]), "/v").unwrap();
    assert_ne!(joined, elsewhere);
    let again = compute_digest_for_args(&strings(&["echo", "a b"]), "/w").unwrap();
    assert_eq!(joined, again);
}
