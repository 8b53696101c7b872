use vstd::prelude::*;
use vstd::string::StringExecFns;

use crate::registry::RegistryError;

verus! {

/// A command that could not be carried out, as reported to its user.
#[derive(Debug, PartialEq, Eq)]
pub enum CmdError {
    NoSubCommand,
    InvalidSubCommand(String),
    /// The argument that failed to parse, and the parser's message if any.
    InvalidArgument(String, Option<String>),
    ExpectedArgument(String),
    /// The name of the option type that was given.
    UnexpectedArgumentType(String),
    /// The number of arguments expected, and the number given.
    TooManyArguments(usize, usize),
    NoSession,
    ExpectedNoSession,
    NoGuild,
    NoConfig,
    GetConfig(String),
    UpdateConfig(String),
    BuildConfig,
    UnknownDataset(String),
    ExportFailed(String),
    ExportTooLarge,
    BadQuery(String),
    AttachmentDownload(String),
}

/// The decimal digit `d`.
pub open spec fn digit_of(d: nat) -> Seq<char> {
    if d == 0 { "0"@ }
    else if d == 1 { "1"@ }
    else if d == 2 { "2"@ }
    else if d == 3 { "3"@ }
    else if d == 4 { "4"@ }
    else if d == 5 { "5"@ }
    else if d == 6 { "6"@ }
    else if d == 7 { "7"@ }
    else if d == 8 { "8"@ }
    else { "9"@ }
}

/// `n` written in decimal, without leading zeros.
pub open spec fn decimal_of(n: nat) -> Seq<char>
    decreases n,
{
    if n < 10 {
        digit_of(n)
    } else {
        decimal_of(n / 10) + digit_of(n % 10)
    }
}

fn digit(d: usize) -> (r: &'static str)
    requires
        d < 10,
    ensures
        r@ == digit_of(d as nat),
{
    if d == 0 { "0" }
    else if d == 1 { "1" }
    else if d == 2 { "2" }
    else if d == 3 { "3" }
    else if d == 4 { "4" }
    else if d == 5 { "5" }
    else if d == 6 { "6" }
    else if d == 7 { "7" }
    else if d == 8 { "8" }
    else { "9" }
}

/// Appends `n` in decimal to `s`.
pub fn push_decimal(s: &mut String, n: usize)
    ensures
        final(s)@ == old(s)@ + decimal_of(n as nat),
    decreases n,
{
    if n >= 10 {
        push_decimal(s, n / 10);
    }
    s.append(digit(n % 10));
    proof {
        if n < 10 {
            assert(n % 10 == n);
        }
    }
}

/// A block of Rust-highlighted text holding `e`.
pub open spec fn rust_block_of(e: Seq<char>) -> Seq<char> {
    "\n```rust\n"@ + e + "\n```"@
}

/// The short title of an error.
pub open spec fn error_title_of(e: CmdError) -> Seq<char> {
    match e {
        CmdError::NoSubCommand | CmdError::InvalidSubCommand(_) => "Invalid command"@,
        CmdError::TooManyArguments(_, _) => "Too many arguments"@,
        CmdError::InvalidArgument(_, _) => "Invalid argument"@,
        CmdError::ExpectedArgument(_) => "Expected an argument"@,
        CmdError::UnexpectedArgumentType(_) => "Unexpected argument type"@,
        CmdError::NoSession => "Session expired or terminated"@,
        CmdError::ExpectedNoSession => "Session already exists"@,
        CmdError::NoGuild => "Not in a server"@,
        CmdError::NoConfig => "Server config not found"@,
        CmdError::GetConfig(_) => "Error while querying for server config"@,
        CmdError::UpdateConfig(_) => "Error while updating server config"@,
        CmdError::BuildConfig => "Error while building server config"@,
        CmdError::UnknownDataset(_) => "Unknown dataset"@,
        CmdError::ExportTooLarge => "Export too large"@,
        CmdError::ExportFailed(_) => "Export failed"@,
        CmdError::BadQuery(_) => "Query parse failed"@,
        CmdError::AttachmentDownload(_) => "Attachment download failed"@,
    }
}

/// The longer description of an error.
pub open spec fn error_description_of(e: CmdError) -> Seq<char> {
    match e {
        CmdError::NoSubCommand => "Please specify a subcommand"@,
        CmdError::InvalidSubCommand(s) => "Please specify a valid subcommand.\n`"@ + s@
            + "` is not a valid subcommand."@,
        CmdError::TooManyArguments(expected, got) => "Expected "@ + decimal_of(expected as nat)
            + " arguments, got "@ + decimal_of(got as nat) + "."@,
        CmdError::InvalidArgument(a, cause) => "There was an issue parsing `"@ + a@ + "`."@
            + match cause {
            Some(c) => " It returned the following error:"@ + rust_block_of(c@),
            None => Seq::<char>::empty(),
        },
        CmdError::ExpectedArgument(note) => "Expected an argument, please supply "@ + note@ + "."@,
        CmdError::UnexpectedArgumentType(opt) => "Got "@ + opt@
            + ", this option is not supported for this argument."@,
        CmdError::NoSession => "There is no database instance currently associated with this channel!\nPlease use `/connect` to connect to a new SurrealDB instance."@,
        CmdError::ExpectedNoSession => "There is already a database instance associated with this channel!\nPlease use `Stop session` above to stop current SurrealDB instance or use `/config_update` to update current session configuration."@,
        CmdError::NoGuild => "Direct messages are not currently supported"@,
        CmdError::NoConfig => "No config found for this server, please ask an administrator to configure the bot!"@,
        CmdError::GetConfig(e) => "Database error:"@ + rust_block_of(e@),
        CmdError::UpdateConfig(e) => "Database error:"@ + rust_block_of(e@),
        CmdError::BuildConfig => "Please check your config and try again."@,
        CmdError::UnknownDataset(d) => "The dataset `"@ + d@ + "` does not exist."@,
        CmdError::ExportTooLarge => "The export is too large to send, sorry."@,
        CmdError::ExportFailed(e) => "There was an error while exporting the database:"@
            + rust_block_of(e@),
        CmdError::BadQuery(e) => "There was an error while parsing the query:"@ + rust_block_of(e@),
        CmdError::AttachmentDownload(e) => "There was an error while loading the attachment:"@
            + rust_block_of(e@),
    }
}

/// `a`, then `b`, then `c`.
fn joined3(a: &str, b: &str, c: &str) -> (r: String)
    ensures
        r@ == a@ + b@ + c@,
{
    let mut s = String::from_str(a);
    s.append(b);
    s.append(c);
    s
}

/// `head` followed by `e` in a block of Rust-highlighted text.
fn with_rust_block(head: &str, e: &str) -> (r: String)
    ensures
        r@ == head@ + rust_block_of(e@),
{
    let r = joined3(head, "\n```rust\n", e);
    let r = r.concat("\n```");
    proof {
        assert(r@ == head@ + rust_block_of(e@));
    }
    r
}

impl CmdError {
    /// The error for a refused registry operation.
    pub fn from_registry(e: RegistryError) -> (r: CmdError)
        ensures
            r == match e {
                RegistryError::AlreadyExists => CmdError::ExpectedNoSession,
                RegistryError::NoSession => CmdError::NoSession,
            },
    {
        match e {
            RegistryError::AlreadyExists => CmdError::ExpectedNoSession,
            RegistryError::NoSession => CmdError::NoSession,
        }
    }

    /// The short title shown to the user.
    pub fn title(&self) -> (r: &'static str)
        ensures
            r@ == error_title_of(*self),
    {
        match self {
            CmdError::NoSubCommand | CmdError::InvalidSubCommand(_) => "Invalid command",
            CmdError::TooManyArguments(_, _) => "Too many arguments",
            CmdError::InvalidArgument(_, _) => "Invalid argument",
            CmdError::ExpectedArgument(_) => "Expected an argument",
            CmdError::UnexpectedArgumentType(_) => "Unexpected argument type",
            CmdError::NoSession => "Session expired or terminated",
            CmdError::ExpectedNoSession => "Session already exists",
            CmdError::NoGuild => "Not in a server",
            CmdError::NoConfig => "Server config not found",
            CmdError::GetConfig(_) => "Error while querying for server config",
            CmdError::UpdateConfig(_) => "Error while updating server config",
            CmdError::BuildConfig => "Error while building server config",
            CmdError::UnknownDataset(_) => "Unknown dataset",
            CmdError::ExportTooLarge => "Export too large",
            CmdError::ExportFailed(_) => "Export failed",
            CmdError::BadQuery(_) => "Query parse failed",
            CmdError::AttachmentDownload(_) => "Attachment download failed",
        }
    }

    /// The longer description shown to the user.
    pub fn description(&self) -> (r: String)
        ensures
            r@ == error_description_of(*self),
    {
        match self {
            CmdError::NoSubCommand => String::from_str("Please specify a subcommand"),
            CmdError::InvalidSubCommand(s) => joined3(
                "Please specify a valid subcommand.\n`",
                s.as_str(),
                "` is not a valid subcommand.",
            ),
            CmdError::TooManyArguments(expected, got) => {
                let mut s = String::from_str("Expected ");
                push_decimal(&mut s, *expected);
                s.append(" arguments, got ");
                push_decimal(&mut s, *got);
                s.append(".");
                s
            },
            CmdError::InvalidArgument(a, cause) => {
                let s = joined3("There was an issue parsing `", a.as_str(), "`.");
                match cause {
                    Some(c) => {
                        let tail = with_rust_block(" It returned the following error:", c.as_str());
                        let r = s.concat(tail.as_str());
                        proof {
                            assert(r@ == error_description_of(*self));
                        }
                        r
                    },
                    None => {
                        proof {
                            assert(s@ == s@ + Seq::<char>::empty());
                        }
                        s
                    },
                }
            },
            CmdError::ExpectedArgument(note) => joined3(
                "Expected an argument, please supply ",
                note.as_str(),
                ".",
            ),
            CmdError::UnexpectedArgumentType(opt) => joined3(
                "Got ",
                opt.as_str(),
                ", this option is not supported for this argument.",
            ),
            CmdError::NoSession => String::from_str(
                "There is no database instance currently associated with this channel!\nPlease use `/connect` to connect to a new SurrealDB instance.",
            ),
            CmdError::ExpectedNoSession => String::from_str(
                "There is already a database instance associated with this channel!\nPlease use `Stop session` above to stop current SurrealDB instance or use `/config_update` to update current session configuration.",
            ),
            CmdError::NoGuild => String::from_str("Direct messages are not currently supported"),
            CmdError::NoConfig => String::from_str(
                "No config found for this server, please ask an administrator to configure the bot!",
            ),
            CmdError::GetConfig(e) => with_rust_block("Database error:", e.as_str()),
            CmdError::UpdateConfig(e) => with_rust_block("Database error:", e.as_str()),
            CmdError::BuildConfig => String::from_str("Please check your config and try again."),
            CmdError::UnknownDataset(d) => joined3("The dataset `", d.as_str(), "` does not exist."),
            CmdError::ExportTooLarge => String::from_str("The export is too large to send, sorry."),
            CmdError::ExportFailed(e) => with_rust_block(
                "There was an error while exporting the database:",
                e.as_str(),
            ),
            CmdError::BadQuery(e) => with_rust_block(
                "There was an error while parsing the query:",
                e.as_str(),
            ),
            CmdError::AttachmentDownload(e) => with_rust_block(
                "There was an error while loading the attachment:",
                e.as_str(),
            ),
        }
    }

    /// The title and the description shown to the user.
    pub fn message(&self) -> (r: (String, String))
        ensures
            r.0@ == error_title_of(*self),
            r.1@ == error_description_of(*self),
    {
        (String::from_str(self.title()), self.description())
    }
}

} // verus!
