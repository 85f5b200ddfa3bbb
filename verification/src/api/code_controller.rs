//! Data carried by the code-editing API.
//!
//! The routes themselves do filesystem work (reading, renaming and deleting
//! files under the tenant's code directory) and stay in the application;
//! these are the values they exchange with their clients.

use vstd::prelude::*;

verus! {

/// One node of a tenant's code tree as listed to clients.
#[derive(Debug, Clone)]
pub struct CodeFile {
    /// Path of the node relative to the code root; doubles as its identifier.
    pub id: String,
    /// Base name of the file or directory.
    pub name: String,
    /// Node kind: a file or a directory.
    pub kind: String,
    /// Base name of the parent directory.
    pub parent: String,
    /// Path of the parent directory relative to the code root.
    pub parent_path: String,
    /// Creation time, as seconds since the epoch.
    pub created_at: u64,
    /// File contents, present only when a single file is fetched.
    pub contents: Option<String>,
}

/// A structural operation on a tenant's code tree: rename or delete.
#[derive(Debug, Clone)]
pub struct OpFile {
    /// Path of the node the operation applies to.
    pub id: String,
    /// Current base name, for a rename.
    pub bname: Option<String>,
    /// New base name, for a rename.
    pub cname: Option<String>,
    /// Path of the parent directory.
    pub parent_path: String,
    /// Node kind: a file or a directory.
    pub kind: String,
}

/// A content update or creation of one node in a tenant's code tree.
#[derive(Debug, Clone)]
pub struct UpdateContent {
    /// Path of an existing node, absent when creating a new one.
    pub id: Option<String>,
    /// New file contents, absent for a directory.
    pub contents: Option<String>,
    /// Base name of the node.
    pub name: String,
    /// Node kind: a file or a directory.
    pub kind: String,
    /// Path of the parent directory.
    pub parent_path: String,
}

} // verus!
