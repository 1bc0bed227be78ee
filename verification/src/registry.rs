//! The mathematical model of a workspace registry: a map from names to
//! records together with the name of the record that is selected, and what
//! holds of the operations on it.

use crate::workspace::Workspace;
use vstd::prelude::*;

verus! {

/// True when some record of `records` carries the name `name`.
pub open spec fn has_name(records: Seq<Workspace>, name: Seq<char>) -> bool {
    exists|i: int| 0 <= i < records.len() && (#[trigger] records[i]).name@ == name
}

/// The records of `records` keyed by their names. Where a name occurs more
/// than once, the record that comes last is the one kept.
pub open spec fn index_by_name(records: Seq<Workspace>) -> Map<Seq<char>, Workspace>
    decreases records.len(),
{
    if records.len() == 0 {
        Map::empty()
    } else {
        index_by_name(records.drop_last()).insert(records.last().name@, records.last())
    }
}

/// What a workspace manager stands for.
pub struct Registry {
    /// The records, each under its name.
    pub workspaces: Map<Seq<char>, Workspace>,
    /// The name of the selected record.
    pub current: Seq<char>,
}

impl Registry {
    /// Every record is filed under its own name, and the selection names a
    /// record that is present.
    pub open spec fn wf(self) -> bool {
        &&& self.workspaces.contains_key(self.current)
        &&& forall|name: Seq<char>| #[trigger]
            self.workspaces.contains_key(name) ==> self.workspaces[name].name@ == name
    }

    /// The registry that holds `workspace` alone, selected.
    pub open spec fn single(workspace: Workspace) -> Registry {
        Registry {
            workspaces: Map::empty().insert(workspace.name@, workspace),
            current: workspace.name@,
        }
    }

    /// The registry made of `records` with `default_workspace` selected, if
    /// one of the records carries that name.
    pub open spec fn build(records: Seq<Workspace>, default_workspace: Seq<char>) -> Option<
        Registry,
    > {
        if has_name(records, default_workspace) {
            Some(Registry { workspaces: index_by_name(records), current: default_workspace })
        } else {
            None
        }
    }

    /// The record filed under `name`, if there is one.
    pub open spec fn lookup(self, name: Seq<char>) -> Option<Workspace> {
        if self.workspaces.contains_key(name) {
            Some(self.workspaces[name])
        } else {
            None
        }
    }

    /// The selected record.
    pub open spec fn current_workspace(self) -> Workspace
        recommends
            self.wf(),
    {
        self.workspaces[self.current]
    }

    /// The registry after an attempt to select `name`: the selection moves
    /// when `name` is present and stays where it was when it is not.
    pub open spec fn select(self, name: Seq<char>) -> Registry {
        if self.workspaces.contains_key(name) {
            Registry { workspaces: self.workspaces, current: name }
        } else {
            self
        }
    }

    /// The registry after `workspace` was filed under its name, in place of
    /// any record that was there. The selection is not touched.
    pub open spec fn add(self, workspace: Workspace) -> Registry {
        Registry {
            workspaces: self.workspaces.insert(workspace.name@, workspace),
            current: self.current,
        }
    }
}

/// A name is a key of the index exactly when some record carries it.
pub proof fn lemma_index_by_name_keys(records: Seq<Workspace>, name: Seq<char>)
    ensures
        index_by_name(records).contains_key(name) <==> has_name(records, name),
    decreases records.len(),
{
    if records.len() > 0 {
        let front = records.drop_last();
        lemma_index_by_name_keys(front, name);
        if has_name(front, name) {
            let i = choose|i: int| 0 <= i < front.len() && (#[trigger] front[i]).name@ == name;
            assert(records[i].name@ == name);
        }
        if has_name(records, name) && records.last().name@ != name {
            let i = choose|i: int| 0 <= i < records.len() && (#[trigger] records[i]).name@ == name;
            assert(front[i].name@ == name);
        }
        if records.last().name@ == name {
            assert(records[records.len() - 1].name@ == name);
        }
    }
}

/// Every record of the index is filed under its own name.
pub proof fn lemma_index_by_name_keyed(records: Seq<Workspace>)
    ensures
        forall|name: Seq<char>| #[trigger]
            index_by_name(records).contains_key(name) ==> index_by_name(records)[name].name@
                == name,
    decreases records.len(),
{
    if records.len() > 0 {
        let front = index_by_name(records.drop_last());
        lemma_index_by_name_keyed(records.drop_last());
        assert forall|name: Seq<char>| #[trigger]
            index_by_name(records).contains_key(name) implies index_by_name(records)[name].name@
            == name by {
            if name != records.last().name@ {
                assert(front.contains_key(name));
            }
        }
    }
}

/// The index holds, under a name, the last record that carries it.
pub proof fn lemma_index_by_name_last(records: Seq<Workspace>, i: int)
    requires
        0 <= i < records.len(),
        forall|j: int| i < j < records.len() ==> (#[trigger] records[j]).name@ != records[i].name@,
    ensures
        index_by_name(records).contains_key(records[i].name@),
        index_by_name(records)[records[i].name@] == records[i],
    decreases records.len(),
{
    if i < records.len() - 1 {
        let front = records.drop_last();
        assert(front[i] == records[i]);
        assert forall|j: int| i < j < front.len() implies (#[trigger] front[j]).name@
            != front[i].name@ by {
            assert(front[j] == records[j]);
        }
        lemma_index_by_name_last(front, i);
        assert(records[records.len() - 1].name@ != records[i].name@);
    }
}

/// Where no two records share a name, the index holds every record.
pub proof fn lemma_index_by_name_distinct(records: Seq<Workspace>, i: int)
    requires
        0 <= i < records.len(),
        forall|j: int, k: int|
            0 <= j < k < records.len() ==> (#[trigger] records[j]).name@ != (
            #[trigger] records[k]).name@,
    ensures
        index_by_name(records).contains_key(records[i].name@),
        index_by_name(records)[records[i].name@] == records[i],
{
    lemma_index_by_name_last(records, i);
}

/// A registry made of one record is well formed and has that record
/// selected.
pub proof fn lemma_single_selects_itself(workspace: Workspace)
    ensures
        Registry::single(workspace).wf(),
        Registry::single(workspace).current_workspace() == workspace,
        Registry::single(workspace).lookup(workspace.name@) == Some(workspace),
{
}

/// A registry can be built from a list exactly when the default name occurs
/// in it. The registry is then well formed, and the record it has selected
/// carries the default name.
pub proof fn lemma_build_selects_default(records: Seq<Workspace>, default_workspace: Seq<char>)
    ensures
        Registry::build(records, default_workspace) is Some <==> has_name(
            records,
            default_workspace,
        ),
        has_name(records, default_workspace) ==> {
            let built = Registry::build(records, default_workspace)->0;
            &&& built.wf()
            &&& built.current == default_workspace
            &&& built.current_workspace().name@ == default_workspace
        },
{
    lemma_index_by_name_keys(records, default_workspace);
    lemma_index_by_name_keyed(records);
}

/// Built from a list in which no two records share a name, with the name of
/// one of them as the default, a registry has that very record selected and
/// every record of the list on file.
pub proof fn lemma_build_keeps_distinct(records: Seq<Workspace>, i: int)
    requires
        0 <= i < records.len(),
        forall|j: int, k: int|
            0 <= j < k < records.len() ==> (#[trigger] records[j]).name@ != (
            #[trigger] records[k]).name@,
    ensures
        Registry::build(records, records[i].name@) is Some,
        Registry::build(records, records[i].name@)->0.current_workspace() == records[i],
        forall|j: int|
            0 <= j < records.len() ==> Registry::build(records, records[i].name@)->0.lookup(
                (#[trigger] records[j]).name@,
            ) == Some(records[j]),
{
    lemma_index_by_name_distinct(records, i);
    assert forall|j: int| 0 <= j < records.len() implies Registry::build(
        records,
        records[i].name@,
    )->0.lookup((#[trigger] records[j]).name@) == Some(records[j]) by {
        lemma_index_by_name_distinct(records, j);
    }
}

/// In a well-formed registry, the record found under a name carries that
/// name.
pub proof fn lemma_lookup_carries_name(registry: Registry, name: Seq<char>)
    requires
        registry.wf(),
    ensures
        registry.lookup(name) is Some <==> registry.workspaces.contains_key(name),
        registry.lookup(name) matches Some(workspace) ==> workspace.name@ == name,
{
}

/// Selecting a name that is on file makes the record under that name the
/// current one and changes nothing else.
pub proof fn lemma_select_present(registry: Registry, name: Seq<char>)
    requires
        registry.wf(),
        registry.workspaces.contains_key(name),
    ensures
        registry.select(name).wf(),
        registry.select(name).workspaces == registry.workspaces,
        registry.select(name).current_workspace() == registry.workspaces[name],
        registry.select(name).current_workspace().name@ == name,
{
}

/// Selecting a name that is not on file changes nothing: the record that was
/// current stays current.
pub proof fn lemma_select_absent(registry: Registry, name: Seq<char>)
    requires
        !registry.workspaces.contains_key(name),
    ensures
        registry.select(name) == registry,
        registry.select(name).current_workspace() == registry.current_workspace(),
{
}

/// Adding a record files it under its name, in place of the record that was
/// there if there was one: the names on file stay the same in that case, and
/// one name is added otherwise. Records under other names and the selection
/// are not touched, and a well-formed registry stays well formed.
pub proof fn lemma_add_replaces(registry: Registry, workspace: Workspace)
    ensures
        registry.add(workspace).lookup(workspace.name@) == Some(workspace),
        forall|name: Seq<char>|
            name != workspace.name@ ==> #[trigger] registry.add(workspace).lookup(name)
                == registry.lookup(name),
        registry.workspaces.contains_key(workspace.name@) ==> registry.add(
            workspace,
        ).workspaces.dom() == registry.workspaces.dom(),
        registry.add(workspace).workspaces.dom() == registry.workspaces.dom().insert(
            workspace.name@,
        ),
        registry.add(workspace).current == registry.current,
        registry.wf() ==> registry.add(workspace).wf(),
{
}

} // verus!
