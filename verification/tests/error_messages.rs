use std::io::ErrorKind;
use whim::error::{path_prefix_io, str_prefix_io, IoFailure};

fn failure(kind: ErrorKind, message: &str) -> IoFailure {
    IoFailure { kind, message: message.to_string() }
}

#[test]
fn str_prefix_keeps_kind_and_prefixes_text() {
    let res = str_prefix_io("key.pem", failure(ErrorKind::NotFound, "No such file or directory (os error 2)"));
    assert_eq!(res.kind, ErrorKind::NotFound);
    assert_eq!(res.message, "key.pem: No such file or directory (os error 2)");
}

#[test]
fn str_prefix_with_empty_parts() {
    let res = str_prefix_io("", failure(ErrorKind::Other, ""));
    assert_eq!(res.kind, ErrorKind::Other);
    assert_eq!(res.message, ": ");
}

#[test]
fn path_prefix_names_the_path() {
    let path = String::from("/home/u/.whim/key.pem");
    let res = path_prefix_io(&path, failure(ErrorKind::PermissionDenied, "Permission denied (os error 13)"));
    assert_eq!(res.kind, ErrorKind::PermissionDenied);
    assert_eq!(res.message, "/home/u/.whim/key.pem: Permission denied (os error 13)");
}

#[test]
fn prefixes_nest() {
    let once = str_prefix_io("b", failure(ErrorKind::InvalidData, "bad"));
    let twice = str_prefix_io("a", once);
    assert_eq!(twice.kind, ErrorKind::InvalidData);
    assert_eq!(twice.message, "a: b: bad");
}
