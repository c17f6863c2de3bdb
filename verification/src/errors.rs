//! The typed failures of the library, each with an exact message.

use vstd::prelude::*;
use vstd::string::*;

verus! {

/// Everything that can go wrong while creating, listing or deleting a fork.
#[derive(Debug)]
pub enum ForkError {
    /// No configuration file was found up to the filesystem root.
    ConfigNotFound,
    /// The configuration file at this path could not be read.
    ConfigRead { path: String },
    /// The configuration file at this path did not parse into the expected
    /// shape.
    ConfigParse { path: String },
    /// Neither recognized token environment variable is set.
    AuthMissing,
    /// The database provider answered with a non-success HTTP status.
    Api { status: u16, body: String },
    /// An object listing against the store failed; the context names the
    /// operation.
    StorageList { context: String },
    /// A server-side copy of this object key failed.
    StorageCopy { key: String },
    /// A deletion of this object key failed.
    StorageDelete { key: String },
}

/// The message that each failure carries, character for character.
pub open spec fn message_of(e: ForkError) -> Seq<char> {
    match e {
        ForkError::ConfigNotFound => "No .forkstack.toml found. Create one with:\n\n[database]\nprovider = \"turso\"\norganization = \"your-org\"\nproduction = \"your-db-name\"\n"@,
        ForkError::ConfigRead { path } => "Failed to read config file: "@ + path@,
        ForkError::ConfigParse { path } => "Failed to parse config file: "@ + path@,
        ForkError::AuthMissing => "TURSO_API_TOKEN or TURSO_AUTH_TOKEN environment variable not set"@,
        ForkError::Api { status, body } => "Turso API error ("@ + crate::text::dec_str(
            status as nat,
        ) + "): "@ + body@,
        ForkError::StorageList { context } => context@,
        ForkError::StorageCopy { key } => "Failed to copy object: "@ + key@,
        ForkError::StorageDelete { key } => "Failed to delete object: "@ + key@,
    }
}

impl ForkError {
    /// The human-readable message for this failure.
    pub fn message(&self) -> (r: String)
        ensures
            r@ == message_of(*self),
    {
        match self {
            ForkError::ConfigNotFound => String::from_str(
                "No .forkstack.toml found. Create one with:\n\n[database]\nprovider = \"turso\"\norganization = \"your-org\"\nproduction = \"your-db-name\"\n",
            ),
            ForkError::ConfigRead { path } => String::from_str("Failed to read config file: ").concat(
                path.as_str(),
            ),
            ForkError::ConfigParse { path } => String::from_str(
                "Failed to parse config file: ",
            ).concat(path.as_str()),
            ForkError::AuthMissing => String::from_str(
                "TURSO_API_TOKEN or TURSO_AUTH_TOKEN environment variable not set",
            ),
            ForkError::Api { status, body } => String::from_str("Turso API error (").concat(
                crate::text::u64_to_dec(*status as u64).as_str(),
            ).concat("): ").concat(body.as_str()),
            ForkError::StorageList { context } => String::from_str(context.as_str()),
            ForkError::StorageCopy { key } => String::from_str("Failed to copy object: ").concat(
                key.as_str(),
            ),
            ForkError::StorageDelete { key } => String::from_str(
                "Failed to delete object: ",
            ).concat(key.as_str()),
        }
    }
}

} // verus!
