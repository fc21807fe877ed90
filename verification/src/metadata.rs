//! Extension identity: the metadata record exchanged at load time. String
//! fields are plain owned values so the boundary layer can give them
//! whatever lifetime it needs.

use vstd::prelude::*;

verus! {

/// A semantic version as its three numeric components.
#[derive(Debug, Clone, Copy, PartialEq, Eq, Structural)]
pub struct VersionTriple {
    pub major: u64,
    pub minor: u64,
    pub patch: u64,
}

impl VersionTriple {
    /// The version `major.minor.patch`.
    pub fn new(major: u64, minor: u64, patch: u64) -> (r: VersionTriple)
        ensures
            r == (VersionTriple { major, minor, patch }),
    {
        VersionTriple { major, minor, patch }
    }
}

/// Identity of an extension, exchanged once at load time.
#[derive(Debug, Clone)]
pub struct ExtensionMetadata {
    pub id: String,
    pub name: String,
    pub version: VersionTriple,
    pub description: Option<String>,
    pub author: Option<String>,
    pub homepage: Option<String>,
    pub license: Option<String>,
}

impl ExtensionMetadata {
    /// A metadata record with the given identity and nothing optional.
    pub fn new(id: &str, name: &str, version: VersionTriple) -> (r: ExtensionMetadata)
        ensures
            r.id@ == id@,
            r.name@ == name@,
            r.version == version,
            r.description is None,
            r.author is None,
            r.homepage is None,
            r.license is None,
    {
        ExtensionMetadata {
            id: id.to_owned(),
            name: name.to_owned(),
            version,
            description: None,
            author: None,
            homepage: None,
            license: None,
        }
    }

    /// The same record with the description set.
    pub fn with_description(self, description: &str) -> (r: ExtensionMetadata)
        ensures
            r == (ExtensionMetadata { description: r.description, ..self }),
            r.description matches Some(d) && d@ == description@,
    {
        ExtensionMetadata { description: Some(description.to_owned()), ..self }
    }

    /// The same record with the author set.
    pub fn with_author(self, author: &str) -> (r: ExtensionMetadata)
        ensures
            r == (ExtensionMetadata { author: r.author, ..self }),
            r.author matches Some(a) && a@ == author@,
    {
        ExtensionMetadata { author: Some(author.to_owned()), ..self }
    }
}

} // verus!
