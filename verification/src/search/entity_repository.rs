//! The repository of searchable entities. Scanning the search path and the
//! desktop entries happens outside this crate; the repository stores what
//! the scanners found and builds the generic views the matcher searches.

use vstd::prelude::*;
use crate::search::entity_model::{ExecutableEntity, FileEntity, RipgrepEntity};

verus! {

/// Where the scanners look.
#[derive(Debug)]
pub struct RepositoryConfig {
    pub exec_paths: Vec<String>,
    pub rg_paths: Vec<String>,
}

/// Everything the search can rank, by kind and as generic entities.
pub struct EntityRepository {
    pub exec_desktop: Vec<ExecutableEntity>,
    pub executables: Vec<ExecutableEntity>,
    pub documents: Vec<RipgrepEntity>,
    pub generic_exec_desktop: Vec<FileEntity>,
    pub generic_executables: Vec<FileEntity>,
    pub config: RepositoryConfig,
}

/// Whether `g` is exactly `s` wrapped entity by entity.
pub open spec fn execs_as_generic(s: Seq<ExecutableEntity>, g: Seq<FileEntity>) -> bool {
    g.len() == s.len() && forall|i: int| 0 <= i < s.len() ==> g[i] == FileEntity::Executable(s[i])
}

/// Whether `g` is exactly `s` wrapped entity by entity.
pub open spec fn docs_as_generic(s: Seq<RipgrepEntity>, g: Seq<FileEntity>) -> bool {
    g.len() == s.len() && forall|i: int| 0 <= i < s.len() ==> g[i] == FileEntity::Ripgrep(s[i])
}

impl EntityRepository {
    /// An empty repository remembering where to scan.
    pub fn new(config: RepositoryConfig) -> (r: Self)
        ensures
            r.exec_desktop@.len() == 0,
            r.executables@.len() == 0,
            r.documents@.len() == 0,
            r.generic_exec_desktop@.len() == 0,
            r.generic_executables@.len() == 0,
            r.config == config,
    {
        EntityRepository {
            exec_desktop: Vec::new(),
            executables: Vec::new(),
            documents: Vec::new(),
            generic_exec_desktop: Vec::new(),
            generic_executables: Vec::new(),
            config,
        }
    }

    /// Replaces the repository's contents with fresh scan results and
    /// rebuilds the generic views from them; stored documents are dropped.
    pub fn populate(
        &mut self,
        exec_desktop: Vec<ExecutableEntity>,
        executables: Vec<ExecutableEntity>,
    )
        ensures
            final(self).exec_desktop == exec_desktop,
            final(self).executables == executables,
            final(self).documents@.len() == 0,
            execs_as_generic(executables@, final(self).generic_executables@),
            execs_as_generic(exec_desktop@, final(self).generic_exec_desktop@),
            final(self).config == old(self).config,
    {
        self.exec_desktop = exec_desktop;
        self.executables = executables;
        self.documents = Vec::new();
        self.generic_executables = Self::build_generic_executables(&self.executables);
        self.generic_exec_desktop = Self::build_generic_executables(&self.exec_desktop);
    }

    /// Drops every stored entity, keeping only where to scan.
    pub fn rebuild(self) -> (r: Self)
        ensures
            r.exec_desktop@.len() == 0,
            r.executables@.len() == 0,
            r.documents@.len() == 0,
            r.generic_exec_desktop@.len() == 0,
            r.generic_executables@.len() == 0,
            r.config == self.config,
    {
        EntityRepository::new(self.config)
    }

    /// The generic view of the scanned path binaries.
    pub fn get_generic_executables(&self) -> (r: &Vec<FileEntity>)
        ensures
            *r == self.generic_executables,
    {
        &self.generic_executables
    }

    /// The generic view of the scanned desktop entries.
    pub fn get_generic_exec_desktop(&self) -> (r: &Vec<FileEntity>)
        ensures
            *r == self.generic_exec_desktop,
    {
        &self.generic_exec_desktop
    }

    /// Wraps executable entities as generic entities, in order.
    pub fn build_generic_executables(entities: &Vec<ExecutableEntity>) -> (r: Vec<FileEntity>)
        ensures
            execs_as_generic(entities@, r@),
    {
        let mut r: Vec<FileEntity> = Vec::new();
        let mut i: usize = 0;
        while i < entities.len()
            invariant
                i <= entities@.len(),
                r@.len() == i,
                forall|k: int| 0 <= k < i ==> r@[k] == FileEntity::Executable(entities@[k]),
            decreases entities@.len() - i,
        {
            r.push(FileEntity::Executable(entities[i].clone()));
            i = i + 1;
        }
        r
    }

    /// Wraps document entities as generic entities, in order.
    pub fn build_generic_documents(entities: &Vec<RipgrepEntity>) -> (r: Vec<FileEntity>)
        ensures
            docs_as_generic(entities@, r@),
    {
        let mut r: Vec<FileEntity> = Vec::new();
        let mut i: usize = 0;
        while i < entities.len()
            invariant
                i <= entities@.len(),
                r@.len() == i,
                forall|k: int| 0 <= k < i ==> r@[k] == FileEntity::Ripgrep(entities@[k]),
            decreases entities@.len() - i,
        {
            r.push(FileEntity::Ripgrep(entities[i].clone()));
            i = i + 1;
        }
        r
    }
}

} // verus!
