//! The earlier, simpler search item model, kept for the frontend that still
//! uses it: one type per item kind, each exposing the field the matcher
//! reads.

use vstd::prelude::*;

verus! {

/// How a chosen item is launched.
#[derive(Clone, Copy, Debug, PartialEq, Eq, Structural)]
pub enum Dispatcher {
    Hyprctl,
    Shell,
}

/// A binary found on the search path.
#[derive(Debug, PartialEq)]
pub struct Executable {
    pub name: String,
    pub path: String,
    pub dispatch_with: Dispatcher,
}

/// A shell script the user keeps around.
#[derive(Debug, PartialEq)]
pub struct ShellScript {
    pub name: String,
    pub path: String,
}

/// A directory the content search may look into.
#[derive(Debug, PartialEq)]
pub struct DocumentDirectory {
    name: String,
    path: String,
}

/// One ranked result of any kind.
#[derive(Debug, PartialEq)]
pub enum SearchResult {
    Executable(Executable),
    ShellScript(ShellScript),
    DocumentDirectory(DocumentDirectory),
}

/// The collections the search draws from.
pub struct SearchItems {
    pub executables: Vec<Executable>,
    pub scripts: Vec<ShellScript>,
    pub documents: Vec<DocumentDirectory>,
}

impl SearchItems {
    /// A set of search items holding what the scanners found.
    pub fn new(
        executables: Vec<Executable>,
        scripts: Vec<ShellScript>,
        documents: Vec<DocumentDirectory>,
    ) -> (r: Self)
        ensures
            r.executables == executables,
            r.scripts == scripts,
            r.documents == documents,
    {
        Self { executables, scripts, documents }
    }

    /// Replaces every collection with fresh scan results.
    pub fn populate(
        &mut self,
        executables: Vec<Executable>,
        scripts: Vec<ShellScript>,
        documents: Vec<DocumentDirectory>,
    )
        ensures
            final(self).executables == executables,
            final(self).scripts == scripts,
            final(self).documents == documents,
    {
        self.executables = executables;
        self.scripts = scripts;
        self.documents = documents;
    }
}

/// The field the matcher ranks an item by.
pub trait MatchField {
    fn get_match_field(&self) -> &String;
}

impl MatchField for Executable {
    fn get_match_field(&self) -> (r: &String)
        ensures
            *r == self.name,
    {
        &self.name
    }
}

impl MatchField for ShellScript {
    fn get_match_field(&self) -> (r: &String)
        ensures
            *r == self.name,
    {
        &self.name
    }
}

impl MatchField for DocumentDirectory {
    fn get_match_field(&self) -> &String {
        &self.name
    }
}

} // verus!
