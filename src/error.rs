//! The single error type of the pipeline. It merges the failures of the
//! structured-text codec, of the filesystem and of the mesh decoder, and keeps
//! the underlying error of each for diagnostics.

use vstd::prelude::*;
use vstd::string::*;

verus! {

/// toml's parser error, the cause of a deserialization error.
#[verifier::external_type_specification]
#[verifier::external_body]
pub struct ExTomlDeError(toml::de::Error);

/// toml's encoder error, the cause of a serialization error.
#[verifier::external_type_specification]
#[verifier::external_body]
pub struct ExTomlSerError(toml::ser::Error);

/// std's I/O error, the cause of a filesystem error.
#[verifier::external_type_specification]
#[verifier::external_body]
pub struct ExIoError(std::io::Error);

/// gltf's decoding and validation error, the cause of an asset-decode error.
#[verifier::external_type_specification]
#[verifier::external_body]
pub struct ExGltfError(gltf::Error);

/// The four origins a failure can have.
#[derive(Clone, Copy, Debug, PartialEq, Eq, Structural)]
pub enum ErrorKind {
    Deserialization,
    Serialization,
    FileSystem,
    AssetDecode,
}

/// A failure of the pipeline: a human-readable description and the error of
/// the collaborator that failed.
#[derive(Debug)]
pub enum LevelParserError {
    /// The structured-text parser rejected the input, or a decoded descriptor
    /// broke one of its invariants.
    DeserializationError(String, toml::de::Error),
    /// The structured-text encoder failed on a descriptor.
    SerializationError(String, toml::ser::Error),
    /// Opening, creating, reading or writing a file failed.
    FileSystemError(String, std::io::Error),
    /// The mesh decoder rejected a referenced asset file.
    AssetDecodeError(String, gltf::Error),
}

/// The older name of the unified error type.
pub type DataParserError = LevelParserError;

/// A result whose error is the unified error type.
pub type LevelParserResult<T> = Result<T, LevelParserError>;

impl LevelParserError {
    pub open spec fn kind(&self) -> ErrorKind {
        match self {
            LevelParserError::DeserializationError(..) => ErrorKind::Deserialization,
            LevelParserError::SerializationError(..) => ErrorKind::Serialization,
            LevelParserError::FileSystemError(..) => ErrorKind::FileSystem,
            LevelParserError::AssetDecodeError(..) => ErrorKind::AssetDecode,
        }
    }

    /// The human-readable description carried by the error.
    pub open spec fn description_view(&self) -> Seq<char> {
        match self {
            LevelParserError::DeserializationError(d, _) => d@,
            LevelParserError::SerializationError(d, _) => d@,
            LevelParserError::FileSystemError(d, _) => d@,
            LevelParserError::AssetDecodeError(d, _) => d@,
        }
    }

    /// The error for a text the structured-text parser rejected.
    pub fn from_deserialization(error: toml::de::Error) -> (r: Self)
        ensures
            r is DeserializationError && r->DeserializationError_1 == error,
            r.description_view() == "Error while deserializing the level as a Rust structure."@,
    {
        LevelParserError::DeserializationError(
            String::from_str("Error while deserializing the level as a Rust structure."),
            error,
        )
    }

    /// The error for a descriptor the structured-text encoder rejected.
    pub fn from_serialization(error: toml::ser::Error) -> (r: Self)
        ensures
            r is SerializationError && r->SerializationError_1 == error,
            r.description_view() == "Error while serializing the level as a TOML file."@,
    {
        LevelParserError::SerializationError(
            String::from_str("Error while serializing the level as a TOML file."),
            error,
        )
    }

    /// The error for a failed filesystem operation.
    pub fn from_file_system(error: std::io::Error) -> (r: Self)
        ensures
            r is FileSystemError && r->FileSystemError_1 == error,
            r.description_view() == "Error while manipulating the file system."@,
    {
        LevelParserError::FileSystemError(String::from_str("Error while manipulating the file system."), error)
    }

    /// The error for a mesh asset the decoder rejected.
    pub fn from_asset_decode(error: gltf::Error) -> (r: Self)
        ensures
            r is AssetDecodeError && r->AssetDecodeError_1 == error,
            r.description_view() == "Error while manipulating gltf data."@,
    {
        LevelParserError::AssetDecodeError(String::from_str("Error while manipulating gltf data."), error)
    }

    /// A deserialization error for a decoded value whose `field` breaks the
    /// invariant of its descriptor. Its description is the name of the field.
    pub fn invalid_field(field: &str) -> (r: Self)
        ensures
            r.kind() == ErrorKind::Deserialization,
            r.description_view() == field@,
    {
        LevelParserError::DeserializationError(String::from_str(field), custom_deserialization_error(field))
    }

    /// Which of the four origins this error has.
    pub fn error_kind(&self) -> (r: ErrorKind)
        ensures
            r == self.kind(),
    {
        match self {
            LevelParserError::DeserializationError(..) => ErrorKind::Deserialization,
            LevelParserError::SerializationError(..) => ErrorKind::Serialization,
            LevelParserError::FileSystemError(..) => ErrorKind::FileSystem,
            LevelParserError::AssetDecodeError(..) => ErrorKind::AssetDecode,
        }
    }

    /// The name of the error's origin.
    pub fn description(&self) -> (r: &'static str)
        ensures
            r@ == kind_name(self.kind()),
    {
        match self {
            LevelParserError::DeserializationError(..) => "DeserializationError",
            LevelParserError::SerializationError(..) => "SerializationError",
            LevelParserError::FileSystemError(..) => "FileSystemError",
            LevelParserError::AssetDecodeError(..) => "AssetDecodeError",
        }
    }

    /// The error as a line of text: a label of its origin, then its
    /// description.
    pub fn to_string(&self) -> (r: String)
        ensures
            r@ == kind_label(self.kind()) + self.description_view(),
    {
        let label = match self {
            LevelParserError::DeserializationError(..) => "Deserialization error: ",
            LevelParserError::SerializationError(..) => "Serialization error: ",
            LevelParserError::FileSystemError(..) => "File system error: ",
            LevelParserError::AssetDecodeError(..) => "Gltf Error: ",
        };
        String::from_str(label).concat(self.message().as_str())
    }

    /// The human-readable description carried by the error.
    pub fn message(&self) -> (r: &String)
        ensures
            r@ == self.description_view(),
    {
        match self {
            LevelParserError::DeserializationError(d, _) => d,
            LevelParserError::SerializationError(d, _) => d,
            LevelParserError::FileSystemError(d, _) => d,
            LevelParserError::AssetDecodeError(d, _) => d,
        }
    }

    /// The same error, with `context` in front of its description.
    pub fn with_context(self, context: &str) -> (r: Self)
        ensures
            r.kind() == self.kind(),
            r.description_view() == context@ + ": "@ + self.description_view(),
    {
        match self {
            LevelParserError::DeserializationError(d, e) => {
                LevelParserError::DeserializationError(prefixed(context, d), e)
            },
            LevelParserError::SerializationError(d, e) => {
                LevelParserError::SerializationError(prefixed(context, d), e)
            },
            LevelParserError::FileSystemError(d, e) => {
                LevelParserError::FileSystemError(prefixed(context, d), e)
            },
            LevelParserError::AssetDecodeError(d, e) => {
                LevelParserError::AssetDecodeError(prefixed(context, d), e)
            },
        }
    }
}

pub open spec fn kind_name(k: ErrorKind) -> Seq<char> {
    match k {
        ErrorKind::Deserialization => "DeserializationError"@,
        ErrorKind::Serialization => "SerializationError"@,
        ErrorKind::FileSystem => "FileSystemError"@,
        ErrorKind::AssetDecode => "AssetDecodeError"@,
    }
}

/// The label in front of an error's description in its text form.
pub open spec fn kind_label(k: ErrorKind) -> Seq<char> {
    match k {
        ErrorKind::Deserialization => "Deserialization error: "@,
        ErrorKind::Serialization => "Serialization error: "@,
        ErrorKind::FileSystem => "File system error: "@,
        ErrorKind::AssetDecode => "Gltf Error: "@,
    }
}

/// Relies on `<toml::de::Error as serde::de::Error>::custom`, which makes a
/// parser error carrying the given message.
#[verifier::external_body]
fn custom_deserialization_error(message: &str) -> toml::de::Error {
    <toml::de::Error as serde::de::Error>::custom(message)
}

fn prefixed(context: &str, d: String) -> (r: String)
    ensures
        r@ == context@ + ": "@ + d@,
{
    let r = String::from_str(context);
    let r = r.concat(": ");
    r.concat(d.as_str())
}

} // verus!
