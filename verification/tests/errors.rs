use skb_cli::errors::AlreadySavedError;
use skb_cli::errors::FileNotFoundError;
use skb_cli::errors::LocalVersionIsNewerError;
use skb_cli::errors::NotSavedOnServerError;
use skb_cli::errors::ServerNotFoundError;
use skb_cli::errors::ServerVersionIsNewerError;
use skb_cli::errors::SignError;

#[test]
fn error_messages_are_fixed() {
    assert_eq!(AlreadySavedError.message(), "File is already saved on server");
    assert_eq!(FileNotFoundError.message(), "File was not found or is a directory");
    assert_eq!(NotSavedOnServerError.message(), "File is not saved on server");
    assert_eq!(ServerVersionIsNewerError.message(), "File version on server is newer");
    assert_eq!(LocalVersionIsNewerError.message(), "Local file version is newer");
    assert_eq!(ServerNotFoundError.message(), "Server was not found");
    assert_eq!(SignError.message(), "Could not sign the request body");
}
