use blog::error::ContentError;

#[test]
fn every_failure_has_its_message() {
    assert_eq!(ContentError::DirectoryUnreadable.describe(), "posts directory could not be listed");
    assert_eq!(ContentError::MalformedMetadata.describe(), "post metadata is malformed");
    assert_eq!(ContentError::PostNotFound.describe(), "post not found");
    assert_eq!(ContentError::IoFailure.describe(), "post could not be read");
    assert_eq!(ContentError::InvalidIdentifier.describe(), "invalid post identifier");
}
