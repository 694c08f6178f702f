//! Entities the fuzzy search ranks and the launcher runs: executables found
//! on the search path or in desktop entries, and documents found by a
//! content search. Scanning the file system happens outside this crate; the
//! entities hold plain values.

use vstd::prelude::*;

verus! {

/// How a chosen entity is launched.
#[derive(Debug, PartialEq)]
pub enum Dispatcher {
    Hyprctl,
    Shell,
    Custom(CustomDispatcher),
}

/// A launch recipe of the user's own.
#[derive(Debug, PartialEq)]
pub struct CustomDispatcher {
    executable: String,
    from_shell: bool,
}

impl Clone for CustomDispatcher {
    /// A value-preserving copy.
    fn clone(&self) -> (r: Self)
        ensures
            r == *self,
    {
        CustomDispatcher {
            executable: self.executable.clone(),
            from_shell: self.from_shell,
        }
    }
}

impl Clone for Dispatcher {
    /// A value-preserving copy.
    fn clone(&self) -> (r: Self)
        ensures
            r == *self,
    {
        match self {
            Dispatcher::Hyprctl => Dispatcher::Hyprctl,
            Dispatcher::Shell => Dispatcher::Shell,
            Dispatcher::Custom(c) => Dispatcher::Custom(c.clone()),
        }
    }
}

/// What the GUI needs to display and run one search result.
#[derive(Debug, PartialEq)]
pub struct LauncherEntity {
    pub alias: String,
    pub command: String,
    pub dispatcher: Dispatcher,
}

impl Clone for LauncherEntity {
    /// A value-preserving copy.
    fn clone(&self) -> (r: Self)
        ensures
            r == *self,
    {
        LauncherEntity {
            alias: self.alias.clone(),
            command: self.command.clone(),
            dispatcher: self.dispatcher.clone(),
        }
    }
}

/// Where an executable entity came from.
#[derive(Clone, Copy, Debug, PartialEq, Eq, Structural)]
pub enum ExecutableSource {
    DesktopFile,
    PathBinary,
    ShellScript,
}

/// One runnable program: a binary on the search path, a desktop entry, or a
/// shell script.
#[derive(Debug, PartialEq)]
pub struct ExecutableEntity {
    pub dispatcher: Dispatcher,
    pub match_name: String,
    pub match_rank: Option<u16>,
    pub path: String,
    pub ui_name: String,
    pub source: ExecutableSource,
    pub exec_cmd: String,
}

impl Clone for ExecutableEntity {
    /// A value-preserving copy.
    fn clone(&self) -> (r: Self)
        ensures
            r == *self,
    {
        ExecutableEntity {
            dispatcher: self.dispatcher.clone(),
            match_name: self.match_name.clone(),
            match_rank: self.match_rank,
            path: self.path.clone(),
            ui_name: self.ui_name.clone(),
            source: self.source,
            exec_cmd: self.exec_cmd.clone(),
        }
    }
}

/// One document found by the content search.
#[derive(Debug, PartialEq)]
pub struct RipgrepEntity {
    pub dispatcher: Dispatcher,
    pub match_name: String,
    pub match_rank: Option<u16>,
    pub path: String,
    pub ui_name: String,
}

impl Clone for RipgrepEntity {
    /// A value-preserving copy.
    fn clone(&self) -> (r: Self)
        ensures
            r == *self,
    {
        RipgrepEntity {
            dispatcher: self.dispatcher.clone(),
            match_name: self.match_name.clone(),
            match_rank: self.match_rank,
            path: self.path.clone(),
            ui_name: self.ui_name.clone(),
        }
    }
}

/// One searchable entity of any kind.
#[derive(Debug, PartialEq)]
pub enum FileEntity {
    Executable(ExecutableEntity),
    Ripgrep(RipgrepEntity),
}

impl Clone for FileEntity {
    /// A value-preserving copy.
    fn clone(&self) -> (r: Self)
        ensures
            r == *self,
    {
        match self {
            FileEntity::Executable(e) => FileEntity::Executable(e.clone()),
            FileEntity::Ripgrep(e) => FileEntity::Ripgrep(e.clone()),
        }
    }
}

impl LauncherEntity {
    /// Projects an executable entity to what the GUI needs.
    pub fn from_executable(entity: &ExecutableEntity) -> (r: Self)
        ensures
            r.alias == entity.ui_name,
            r.command == entity.exec_cmd,
            r.dispatcher == entity.dispatcher,
    {
        LauncherEntity {
            alias: entity.ui_name.clone(),
            command: entity.exec_cmd.clone(),
            dispatcher: entity.dispatcher.clone(),
        }
    }

    /// Projects a document entity to what the GUI needs; the command is the
    /// document's path.
    pub fn from_ripgrep(entity: &RipgrepEntity) -> (r: Self)
        ensures
            r.alias == entity.ui_name,
            r.command == entity.path,
            r.dispatcher == entity.dispatcher,
    {
        LauncherEntity {
            alias: entity.ui_name.clone(),
            command: entity.path.clone(),
            dispatcher: entity.dispatcher.clone(),
        }
    }
}

/// A searchable, rankable, exportable entity.
pub trait Entity: EntityFields + Matching + Export {

}

/// Plain field access shared by every entity kind.
pub trait EntityFields {
    fn dispatcher(&self) -> &Dispatcher;

    fn path(&self) -> &String;
}

/// What the fuzzy matcher reads and writes on an entity.
pub trait Matching {
    fn match_field(&self) -> &String;

    fn match_rank(&self) -> Option<u16>;

    fn set_match_rank(&mut self, rank: u16);
}

/// Conversions out of the repository's generic entity.
pub trait Export {
    fn ui_name(&self) -> &String;

    fn into_entity(self) -> FileEntity;

    fn into_launcher_entity(&self) -> LauncherEntity;
}

impl Entity for FileEntity {

}

impl EntityFields for FileEntity {
    fn dispatcher(&self) -> &Dispatcher {
        match self {
            Self::Executable(e) => &e.dispatcher,
            Self::Ripgrep(r) => &r.dispatcher,
        }
    }

    fn path(&self) -> &String {
        match self {
            Self::Executable(e) => &e.path,
            Self::Ripgrep(r) => &r.path,
        }
    }
}

impl Matching for FileEntity {
    fn match_field(&self) -> &String {
        match self {
            Self::Executable(e) => &e.match_name,
            Self::Ripgrep(r) => &r.match_name,
        }
    }

    fn match_rank(&self) -> Option<u16> {
        match self {
            Self::Executable(e) => e.match_rank,
            Self::Ripgrep(r) => r.match_rank,
        }
    }

    fn set_match_rank(&mut self, rank: u16) {
        match self {
            Self::Executable(e) => e.match_rank = Some(rank),
            Self::Ripgrep(r) => r.match_rank = Some(rank),
        }
    }
}

impl Export for FileEntity {
    fn ui_name(&self) -> &String {
        match self {
            Self::Executable(e) => &e.ui_name,
            Self::Ripgrep(r) => &r.ui_name,
        }
    }

    fn into_entity(self) -> FileEntity {
        match self {
            Self::Executable(e) => FileEntity::Executable(e),
            Self::Ripgrep(r) => FileEntity::Ripgrep(r),
        }
    }

    fn into_launcher_entity(&self) -> LauncherEntity {
        match self {
            Self::Executable(e) => LauncherEntity::from_executable(e),
            Self::Ripgrep(r) => LauncherEntity::from_ripgrep(r),
        }
    }
}

} // verus!
