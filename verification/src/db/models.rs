//! The rows of the registry's database tables.
use vstd::prelude::*;

verus! {

/// A partial crate entry, suitable to edit an entry while letting the database maintain
/// the updated date of the row.
pub struct ModifyCrateRegistration<'a> {
    /// The crate's ID.
    pub id: u64,
    /// The crate's name.
    pub name: &'a str,
    /// The crate's description.
    pub description: Option<&'a str>,
    /// The URL to the crate's documentation.
    pub documentation: Option<&'a str>,
    /// The URL to the crate's repository.
    pub repository: Option<&'a str>,
}

/// A partial crate entry, suitable to create an entry while letting the database assign
/// an ID and set the creation date of the row.
pub struct NewCrateRegistration<'a> {
    /// The crate's name.
    pub name: &'a str,
    /// The crate's description.
    pub description: Option<&'a str>,
    /// The URL to the crate's documentation.
    pub documentation: Option<&'a str>,
    /// The URL to the crate's repository.
    pub repository: Option<&'a str>,
}

/// A complete author entry, as stored in the database.
#[derive(Debug)]
pub struct Author {
    /// The author's ID.
    pub id: u64,
    /// The author's email address.
    pub email: String,
    /// The author's displayable name.
    pub name: String,
    /// The author's SHA512-hashed password.
    pub passwd: String,
}

/// A crate-to-author relationship.
#[derive(Debug, Clone, Copy, PartialEq, Eq, Structural)]
pub struct CrateAuthor {
    /// The relationship's ID.
    pub id: u64,
    /// The crate's ID.
    pub crate_id: u64,
    /// The author's ID.
    pub author_id: u64,
}

/// A crate-to-author relationship, suitable to create an entry while letting the database
/// assign a relationship ID.
#[derive(Debug, Clone, Copy, PartialEq, Eq, Structural)]
pub struct NewCrateAuthor {
    /// The crate's ID.
    pub crate_id: u64,
    /// The author's ID.
    pub author_id: u64,
}

/// An author-to-token relationship.
#[derive(Debug)]
pub struct AuthorToken {
    /// The token's ID.
    pub id: u64,
    /// The author's ID.
    pub author_id: u64,
    /// The token itself.
    pub token: String,
}

} // verus!
