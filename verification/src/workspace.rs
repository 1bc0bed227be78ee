//! Workspace records and the manager that owns them.

use crate::registry::{
    has_name, index_by_name, lemma_index_by_name_keyed, lemma_index_by_name_keys, Registry,
};
use std::path::PathBuf;
use vstd::hash_map::StringHashMap;
use vstd::prelude::*;

verus! {

/// `std::path::PathBuf`, carried through as an opaque value: the library
/// stores and returns paths and never looks inside one.
#[verifier::external_type_specification]
#[verifier::external_body]
pub struct ExPathBuf(PathBuf);

/// `PathBuf::clone`, taken on trust: the copy it returns is the path it was
/// called on.
pub assume_specification[ <PathBuf as Clone>::clone ](path: &PathBuf) -> (copy: PathBuf)
    ensures
        copy == *path,
;

/// A named record that pairs an identifier with a filesystem location.
#[derive(Debug)]
pub struct Workspace {
    pub name: String,
    pub path: PathBuf,
}

impl Clone for Workspace {
    fn clone(&self) -> (copy: Self)
        ensures
            copy == *self,
    {
        Workspace { name: self.name.clone(), path: self.path.clone() }
    }
}

/// The error of an operation that names a workspace the registry does not
/// hold. It carries the offending name.
#[derive(Debug)]
pub struct WorkspaceNotFound {
    pub workspace: String,
}

/// A registry of workspaces, each under its name, one of which is the
/// current workspace. Its view is a [`Registry`]. The constructors hand out
/// well-formed managers only, and no operation makes a well-formed manager
/// ill formed.
pub struct WorkspaceManager {
    workspaces: StringHashMap<Workspace>,
    current_workspace: String,
}

impl View for WorkspaceManager {
    type V = Registry;

    closed spec fn view(&self) -> Registry {
        Registry { workspaces: self.workspaces@, current: self.current_workspace@ }
    }
}

impl WorkspaceManager {
    /// Creates a manager that holds `workspace` alone and has it selected.
    pub fn from_single_workspace(workspace: Workspace) -> (manager: WorkspaceManager)
        ensures
            manager@ == Registry::single(workspace),
            manager@.wf(),
            manager@.current == workspace.name@,
    {
        let name = workspace.name.clone();
        let mut workspaces = StringHashMap::new();
        workspaces.insert(name.clone(), workspace);
        WorkspaceManager { workspaces, current_workspace: name }
    }

    /// Creates a manager from a list of workspaces, with the one named
    /// `default_workspace` selected. Of two workspaces with one name the later
    /// is kept. Fails when no workspace of the list has the name
    /// `default_workspace`.
    pub fn new(workspaces: Vec<Workspace>, default_workspace: String) -> (result: Result<
        WorkspaceManager,
        WorkspaceNotFound,
    >)
        ensures
            match result {
                Ok(manager) => Registry::build(workspaces@, default_workspace@) == Some(manager@)
                    && manager@.wf(),
                Err(error) => Registry::build(workspaces@, default_workspace@) is None
                    && error.workspace@ == default_workspace@,
            },
    {
        if !Self::any_named(&workspaces, &default_workspace) {
            Err(WorkspaceNotFound { workspace: default_workspace })
        } else {
            let ghost records = workspaces@;
            let mut index = StringHashMap::new();
            for workspace in iter: workspaces.into_iter()
                invariant
                    iter.seq() == records,
                    index@ == index_by_name(records.take(iter.index())),
            {
                proof {
                    let n = iter.index();
                    assert(records.take(n + 1).drop_last() == records.take(n));
                }
                index.insert(workspace.name.clone(), workspace);
            }
            proof {
                assert(records.take(records.len() as int) == records);
                lemma_index_by_name_keys(records, default_workspace@);
                lemma_index_by_name_keyed(records);
            }
            Ok(WorkspaceManager { workspaces: index, current_workspace: default_workspace })
        }
    }

    fn any_named(workspaces: &Vec<Workspace>, name: &String) -> (found: bool)
        ensures
            found == has_name(workspaces@, name@),
    {
        let mut i: usize = 0;
        while i < workspaces.len()
            invariant
                i <= workspaces.len(),
                forall|j: int| 0 <= j < i ==> (#[trigger] workspaces@[j]).name@ != name@,
            decreases workspaces.len() - i,
        {
            if workspaces[i].name == *name {
                return true;
            }
            i += 1;
        }
        false
    }

    /// Returns the workspace with the given name, or `None` if there is none.
    pub fn get_workspace(&self, name: &String) -> (found: Option<&Workspace>)
        ensures
            match found {
                Some(workspace) => self@.lookup(name@) == Some(*workspace),
                None => self@.lookup(name@) is None,
            },
    {
        self.workspaces.get(name.as_str())
    }

    /// Selects the workspace with the given name. Fails, and changes
    /// nothing, when there is no such workspace.
    pub fn set_current_workspace(&mut self, name: String) -> (result: Result<
        (),
        WorkspaceNotFound,
    >)
        ensures
            final(self)@ == old(self)@.select(name@),
            old(self)@.wf() ==> final(self)@.wf(),
            match result {
                Ok(_) => old(self)@.workspaces.contains_key(name@),
                Err(error) => !old(self)@.workspaces.contains_key(name@) && error.workspace@
                    == name@,
            },
    {
        if self.workspaces.get(name.as_str()).is_none() {
            Err(WorkspaceNotFound { workspace: name })
        } else {
            self.current_workspace = name;
            Ok(())
        }
    }

    /// Returns the name of the current workspace.
    pub fn current_workspace(&self) -> (name: &String)
        ensures
            name@ == self@.current,
    {
        &self.current_workspace
    }

    /// Returns the current workspace. The manager must be well formed, as
    /// every manager made by this library is.
    pub fn get_current_workspace(&self) -> (current: &Workspace)
        requires
            self@.wf(),
        ensures
            *current == self@.current_workspace(),
            current.name@ == self@.current,
    {
        self.workspaces.get(self.current_workspace.as_str()).unwrap()
    }

    /// Adds a workspace, in place of any workspace with the same name. The
    /// selection stays as it is.
    pub fn add_workspace(&mut self, workspace: Workspace)
        ensures
            final(self)@ == old(self)@.add(workspace),
            old(self)@.wf() ==> final(self)@.wf(),
    {
        self.workspaces.insert(workspace.name.clone(), workspace);
    }
}

} // verus!
