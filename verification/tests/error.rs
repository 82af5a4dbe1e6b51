use fadvise::error::AdviseError;
use nix::errno::Errno;

#[test]
fn messages_name_the_file_where_it_is_at_fault() {
    assert_eq!(AdviseError::DoesNotExist.message("/no/such/path"), "'/no/such/path' does not exist");
    assert_eq!(AdviseError::NotAFile.message("/tmp"), "'/tmp' is not a file");
    assert_eq!(AdviseError::DoesNotExist.message(""), "'' does not exist");
}

#[test]
fn messages_name_the_step_that_failed() {
    assert_eq!(
        AdviseError::ExistenceUnknown.message("f"),
        "Failed to check existence of the file"
    );
    assert_eq!(
        AdviseError::MetadataUnavailable.message("f"),
        "Failed to retrieve metadata of the file"
    );
    assert_eq!(AdviseError::OpenFailed.message("f"), "Failed to open the file");
}

#[test]
fn messages_name_the_number_that_was_refused() {
    assert_eq!(AdviseError::NegativeOffset.message("f"), "offset must not be negative");
    assert_eq!(AdviseError::NegativeLength.message("f"), "length must not be negative");
}

#[test]
fn kernel_errors_are_shown_as_nix_shows_them() {
    assert_eq!(AdviseError::Os(Errno::EBADF).message("f"), "EBADF: Bad file number");
    assert_eq!(AdviseError::Os(Errno::EINVAL).message("f"), "EINVAL: Invalid argument");
    assert_eq!(AdviseError::Os(Errno::ESPIPE).message("f"), Errno::ESPIPE.to_string());
}
