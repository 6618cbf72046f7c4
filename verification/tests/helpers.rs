use relib::host_helpers::{cstr_bytes, unrecoverable, unrecoverable_with_prefix};

#[test]
fn cstr_bytes_appends_nul() {
    assert_eq!(cstr_bytes("abc"), vec![b'a', b'b', b'c', 0]);
}

#[test]
fn unrecoverable_message() {
    assert_eq!(unrecoverable("boom"), "something unrecoverable happened: boom");
    assert_eq!(
        unrecoverable_with_prefix("boom", "host"),
        "[host] something unrecoverable happened: boom"
    );
}
