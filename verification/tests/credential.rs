use phoenixd_supervisor::credential::read_credential;
use phoenixd_supervisor::process_manager::ProcessManager;

#[test]
fn password_is_found_among_other_lines() {
    let content = "chain=mainnet\nhttp-password=abc123\nhttp-password-limited-access=zzz\n";
    assert_eq!(read_credential(Some(content)), "abc123");
}

#[test]
fn file_without_password_line_gives_nothing() {
    let content = "chain=mainnet\nauto-liquidity=2m\n";
    assert_eq!(read_credential(Some(content)), "");
}

#[test]
fn missing_file_gives_nothing() {
    assert_eq!(read_credential(None), "");
}

#[test]
fn empty_file_gives_nothing() {
    assert_eq!(read_credential(Some("")), "");
}

#[test]
fn first_password_line_wins() {
    let content = "http-password=first\nhttp-password=second\n";
    assert_eq!(read_credential(Some(content)), "first");
}

#[test]
fn value_is_trimmed() {
    assert_eq!(read_credential(Some("http-password=  abc123 \t\n")), "abc123");
    assert_eq!(read_credential(Some("http-password=abc123\r\nnext=1\r\n")), "abc123");
    assert_eq!(read_credential(Some("http-password=abc123\r")), "abc123");
}

#[test]
fn inner_whitespace_is_kept() {
    assert_eq!(read_credential(Some("http-password= a b \n")), "a b");
}

#[test]
fn key_must_begin_the_line() {
    assert_eq!(read_credential(Some(" http-password=abc\n")), "");
    assert_eq!(read_credential(Some("# http-password=abc\n")), "");
    assert_eq!(read_credential(Some("xhttp-password=abc\nhttp-password=real")), "real");
}

#[test]
fn key_is_case_sensitive_and_exact() {
    assert_eq!(read_credential(Some("HTTP-PASSWORD=abc\n")), "");
    assert_eq!(read_credential(Some("http-password abc\n")), "");
    assert_eq!(read_credential(Some("http-password-limited-access=abc\n")), "");
}

#[test]
fn only_the_leading_key_is_stripped() {
    assert_eq!(
        read_credential(Some("http-password=abchttp-password=def\n")),
        "abchttp-password=def"
    );
    assert_eq!(read_credential(Some("http-password==x=\n")), "=x=");
}

#[test]
fn empty_value_is_empty() {
    assert_eq!(read_credential(Some("http-password=\nhttp-password=later\n")), "");
    assert_eq!(read_credential(Some("http-password=   \n")), "");
}

#[test]
fn password_may_hold_any_characters() {
    assert_eq!(
        read_credential(Some("http-password=p\u{e4}ss w\u{f6}rd\u{1f980}\n")),
        "p\u{e4}ss w\u{f6}rd\u{1f980}"
    );
}

#[test]
fn supervisor_reads_the_same_credential() {
    let content = "http-password=abc123\n";
    assert_eq!(ProcessManager::read_phoenixd_password(Some(content)), "abc123");
    assert_eq!(ProcessManager::read_phoenixd_password(Some("nothing here")), "");
    assert_eq!(ProcessManager::read_phoenixd_password(None), "");
}
