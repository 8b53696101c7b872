use surreal_bot::error::{push_decimal, CmdError};
use surreal_bot::registry::RegistryError;

#[test]
fn decimal_digits() {
    let mut s = String::from("n=");
    push_decimal(&mut s, 0);
    assert_eq!(s, "n=0");
    let mut s = String::new();
    push_decimal(&mut s, 1234567890);
    assert_eq!(s, "1234567890");
    let mut s = String::new();
    push_decimal(&mut s, usize::MAX);
    assert_eq!(s, usize::MAX.to_string());
}

#[test]
fn too_many_arguments_text() {
    let (title, description) = CmdError::TooManyArguments(1, 3).message();
    assert_eq!(title, "Too many arguments");
    assert_eq!(description, "Expected 1 arguments, got 3.");
}

#[test]
fn invalid_argument_text() {
    assert_eq!(
        CmdError::InvalidArgument("ttl".to_string(), None).description(),
        "There was an issue parsing `ttl`."
    );
    assert_eq!(
        CmdError::InvalidArgument("ttl".to_string(), Some("not a number".to_string())).description(),
        "There was an issue parsing `ttl`. It returned the following error:\n```rust\nnot a number\n```"
    );
}

#[test]
fn session_error_texts() {
    assert_eq!(CmdError::NoSession.title(), "Session expired or terminated");
    assert!(CmdError::NoSession.description().contains("/connect"));
    assert_eq!(CmdError::ExpectedNoSession.title(), "Session already exists");
    assert_eq!(CmdError::from_registry(RegistryError::AlreadyExists), CmdError::ExpectedNoSession);
    assert_eq!(CmdError::from_registry(RegistryError::NoSession), CmdError::NoSession);
}

#[test]
fn engine_error_texts() {
    assert_eq!(
        CmdError::BadQuery("Parse error".to_string()).description(),
        "There was an error while parsing the query:\n```rust\nParse error\n```"
    );
    assert_eq!(
        CmdError::GetConfig("down".to_string()).description(),
        "Database error:\n```rust\ndown\n```"
    );
    assert_eq!(CmdError::ExportTooLarge.title(), "Export too large");
    assert_eq!(CmdError::ExportTooLarge.description(), "The export is too large to send, sorry.");
    assert_eq!(
        CmdError::UnknownDataset("x".to_string()).description(),
        "The dataset `x` does not exist."
    );
    assert_eq!(
        CmdError::InvalidSubCommand("foo".to_string()).description(),
        "Please specify a valid subcommand.\n`foo` is not a valid subcommand."
    );
    assert_eq!(
        CmdError::ExpectedArgument("a file".to_string()).description(),
        "Expected an argument, please supply a file."
    );
    assert_eq!(
        CmdError::UnexpectedArgumentType("Integer".to_string()).description(),
        "Got Integer, this option is not supported for this argument."
    );
    assert_eq!(CmdError::NoConfig.title(), "Server config not found");
    assert_eq!(CmdError::NoGuild.description(), "Direct messages are not currently supported");
}
