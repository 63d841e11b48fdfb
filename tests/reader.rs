use rive_viewer::error::ViewerError;
use rive_viewer::reader::{check_read_path, encode_base64, read_result};

#[test]
fn empty_and_blank_paths_are_invalid() {
    assert_eq!(check_read_path(""), Err(ViewerError::InvalidArgument));
    assert_eq!(check_read_path("   "), Err(ViewerError::InvalidArgument));
    assert_eq!(check_read_path("\u{a0}\t\u{3000}"), Err(ViewerError::InvalidArgument));
    assert_eq!(check_read_path(" a.riv "), Ok(()));
}

#[test]
fn failed_read_is_an_io_error() {
    let path = "/nonexistent/dir/missing.riv";
    let not_found = std::io::Error::from(std::io::ErrorKind::NotFound);
    let read: Result<Vec<u8>, String> = Err(not_found.to_string());
    assert_eq!(check_read_path(path), Ok(()));
    match read_result(path, read) {
        Err(ViewerError::Io { path: p, message }) => {
            assert_eq!(p, path);
            assert!(!message.is_empty());
        }
        other => panic!("unexpected {:?}", other),
    }
}

#[test]
fn successful_read_passes_bytes_through() {
    assert_eq!(read_result("a.riv", Ok(vec![1, 2, 3])), Ok(vec![1, 2, 3]));
}

#[test]
fn io_error_message_names_the_path() {
    let e = read_result("x.riv", Err("not found".to_string())).unwrap_err();
    assert_eq!(e.message(), "x.riv: not found");
    assert_eq!(ViewerError::InvalidArgument.message(), "path is empty");
}

#[test]
fn base64_of_known_values() {
    assert_eq!(encode_base64(b""), "");
    assert_eq!(encode_base64(b"f"), "Zg==");
    assert_eq!(encode_base64(b"fo"), "Zm8=");
    assert_eq!(encode_base64(b"foo"), "Zm9v");
    assert_eq!(encode_base64(b"foobar"), "Zm9vYmFy");
    assert_eq!(encode_base64(&[0xff, 0xfe, 0x3e]), "//4+");
}
