use vstd::prelude::*;

use crate::paths::{hidden_name, is_hidden, join_path, join_seq, lemma_join_assoc};

verus! {

/// What probing a directory for one well-known marker name found.
#[derive(Clone, Copy, PartialEq, Eq, Structural, Debug)]
pub enum Probe {
    /// No entry of that name exists.
    Absent,
    /// An entry of that name exists and is not itself a directory.
    FileFound,
    /// An entry of that name exists but is itself a directory.
    DirFound,
}

/// One direct child of the scanned base directory, reduced to the facts the
/// scanner reads: its name, whether it is a directory, and what probing it
/// for each of the two marker names found.
pub struct EntryInfo {
    pub name: String,
    pub is_dir: bool,
    pub lua_probe: Probe,
    pub vim_probe: Probe,
}

/// One selectable environment. `name` is the path relative to the
/// configuration root; it doubles as the display label and as the value
/// injected into the launch. `abs_path` is the directory backing it, used
/// only to probe for marker files, never shown to the user.
pub struct Candidate {
    pub name: String,
    pub abs_path: String,
}

/// Whether a directory with the given two probe results holds a marker file.
/// The first recognized name is probed first; if any entry by that name
/// exists, it alone decides, and an entry that is itself a directory is not
/// a marker. Only when the first name is wholly absent is the second probed.
pub open spec fn marker_present(lua_probe: Probe, vim_probe: Probe) -> bool {
    match lua_probe {
        Probe::FileFound => true,
        Probe::DirFound => false,
        Probe::Absent => vim_probe is FileFound,
    }
}

/// Executable marker-file test over the two probe results.
pub fn contains_init_file(lua_probe: Probe, vim_probe: Probe) -> (r: bool)
    ensures
        r == marker_present(lua_probe, vim_probe),
{
    match lua_probe {
        Probe::FileFound => true,
        Probe::DirFound => false,
        Probe::Absent => match vim_probe {
            Probe::FileFound => true,
            _ => false,
        },
    }
}

/// A child entry qualifies as an environment of its own when it is not
/// hidden, is a directory, and directly holds a marker file.
pub open spec fn qualifies(e: EntryInfo) -> bool {
    &&& !hidden_name(e.name@)
    &&& e.is_dir
    &&& marker_present(e.lua_probe, e.vim_probe)
}

/// The base directory's name relative to the configuration root.
pub open spec fn base_rel_name() -> Seq<char> {
    "nvim"@
}

/// A qualifying child's name relative to the configuration root.
pub open spec fn child_rel_name(child: Seq<char>) -> Seq<char> {
    join_seq("nvim"@, child)
}

/// The absolute path of the base directory under the given root.
pub open spec fn base_abs_path(root: Seq<char>) -> Seq<char> {
    join_seq(root, "nvim"@)
}

/// The absolute path of a child of the base directory.
pub open spec fn child_abs_path(root: Seq<char>, child: Seq<char>) -> Seq<char> {
    join_seq(base_abs_path(root), child)
}

/// The models (relative name, absolute path) of the candidates contributed
/// by the child entries, in listing order.
pub open spec fn child_models(root: Seq<char>, entries: Seq<EntryInfo>) -> Seq<
    (Seq<char>, Seq<char>),
>
    decreases entries.len(),
{
    if entries.len() == 0 {
        Seq::empty()
    } else {
        child_models(root, entries.drop_last()) + (if qualifies(entries.last()) {
            seq![(child_rel_name(entries.last().name@), child_abs_path(root, entries.last().name@))]
        } else {
            Seq::<(Seq<char>, Seq<char>)>::empty()
        })
    }
}

/// The model of the full scan: the qualifying children in listing order,
/// then the base directory itself when it directly holds a marker file.
/// Both parts may contribute; neither excludes the other.
pub open spec fn scan_model(
    root: Seq<char>,
    entries: Seq<EntryInfo>,
    base_lua: Probe,
    base_vim: Probe,
) -> Seq<(Seq<char>, Seq<char>)> {
    child_models(root, entries) + (if marker_present(base_lua, base_vim) {
        seq![(base_rel_name(), base_abs_path(root))]
    } else {
        Seq::<(Seq<char>, Seq<char>)>::empty()
    })
}

/// Enumerates the candidate environments of the base directory `<root>/nvim`,
/// given the listing of its direct children and the two marker probes of the
/// base directory itself. The result follows `scan_model` exactly, and every
/// candidate's absolute path is the root joined with its relative name.
pub fn scan_candidates(
    root: &str,
    entries: &Vec<EntryInfo>,
    base_lua: Probe,
    base_vim: Probe,
) -> (cs: Vec<Candidate>)
    ensures
        cs@.len() == scan_model(root@, entries@, base_lua, base_vim).len(),
        forall|j: int|
            0 <= j < cs@.len() ==> {
                &&& (#[trigger] cs@[j]).name@ == scan_model(root@, entries@, base_lua, base_vim)[j].0
                &&& cs@[j].abs_path@ == scan_model(root@, entries@, base_lua, base_vim)[j].1
            },
        forall|j: int|
            0 <= j < cs@.len() ==> (#[trigger] cs@[j]).abs_path@ == join_seq(root@, cs@[j].name@),
{
    let base_dir: String = join_path(root, "nvim");
    let mut cs: Vec<Candidate> = Vec::new();
    let n: usize = entries.len();
    let mut i: usize = 0;
    while i < n
        invariant
            n == entries@.len(),
            0 <= i <= n,
            base_dir@ == base_abs_path(root@),
            cs@.len() == child_models(root@, entries@.subrange(0, i as int)).len(),
            forall|j: int|
                0 <= j < cs@.len() ==> {
                    &&& (#[trigger] cs@[j]).name@ == child_models(
                        root@,
                        entries@.subrange(0, i as int),
                    )[j].0
                    &&& cs@[j].abs_path@ == child_models(root@, entries@.subrange(0, i as int))[j].1
                },
        decreases n - i,
    {
        let e = &entries[i];
        let ghost pre = entries@.subrange(0, i as int);
        let ghost post = entries@.subrange(0, i as int + 1);
        proof {
            assert(post.drop_last() =~= pre);
            assert(post.last() == entries@[i as int]);
        }
        if !is_hidden(e.name.as_str()) && e.is_dir && contains_init_file(e.lua_probe, e.vim_probe) {
            let name = join_path("nvim", e.name.as_str());
            let abs = join_path(base_dir.as_str(), e.name.as_str());
            cs.push(Candidate { name, abs_path: abs });
        }
        i += 1;
    }
    proof {
        assert(entries@.subrange(0, n as int) =~= entries@);
    }
    if contains_init_file(base_lua, base_vim) {
        let name = String::from_str("nvim");
        cs.push(Candidate { name, abs_path: base_dir });
    }
    proof {
        lemma_round_trip(root@, entries@, base_lua, base_vim);
        let model = scan_model(root@, entries@, base_lua, base_vim);
        assert(cs@.len() == model.len());
        assert forall|j: int| 0 <= j < cs@.len() implies (#[trigger] cs@[j]).abs_path@ == join_seq(
            root@,
            cs@[j].name@,
        ) by {
            assert(cs@[j].name@ == model[j].0);
            assert(cs@[j].abs_path@ == model[j].1);
            assert(model[j].1 == join_seq(root@, model[j].0));
        }
    }
    cs
}

/// Round trip over the children: the absolute path of every child candidate
/// is the root joined with that candidate's relative name.
proof fn lemma_children_round_trip(root: Seq<char>, entries: Seq<EntryInfo>)
    ensures
        forall|j: int|
            0 <= j < child_models(root, entries).len() ==> (#[trigger] child_models(
                root,
                entries,
            )[j]).1 == join_seq(root, child_models(root, entries)[j].0),
    decreases entries.len(),
{
    if entries.len() > 0 {
        lemma_children_round_trip(root, entries.drop_last());
        let prefix = child_models(root, entries.drop_last());
        assert forall|j: int| 0 <= j < child_models(root, entries).len() implies (
        #[trigger] child_models(root, entries)[j]).1 == join_seq(
            root,
            child_models(root, entries)[j].0,
        ) by {
            if j < prefix.len() {
                assert(child_models(root, entries)[j] == prefix[j]);
            } else {
                lemma_join_assoc(root, "nvim"@, entries.last().name@);
            }
        }
    }
}

/// Round trip: every candidate's absolute path is exactly the configuration
/// root joined with that candidate's relative name.
pub proof fn lemma_round_trip(
    root: Seq<char>,
    entries: Seq<EntryInfo>,
    base_lua: Probe,
    base_vim: Probe,
)
    ensures
        forall|j: int|
            0 <= j < scan_model(root, entries, base_lua, base_vim).len() ==> (
            #[trigger] scan_model(root, entries, base_lua, base_vim)[j]).1 == join_seq(
                root,
                scan_model(root, entries, base_lua, base_vim)[j].0,
            ),
{
    lemma_children_round_trip(root, entries);
    let model = scan_model(root, entries, base_lua, base_vim);
    let children = child_models(root, entries);
    assert forall|j: int| 0 <= j < model.len() implies (#[trigger] model[j]).1 == join_seq(
        root,
        model[j].0,
    ) by {
        if j < children.len() {
            assert(model[j] == children[j]);
        } else {
            assert(model[j] == (base_rel_name(), base_abs_path(root)));
        }
    }
}

/// With no qualifying child entry, the children contribute nothing.
proof fn lemma_child_models_empty(root: Seq<char>, entries: Seq<EntryInfo>)
    requires
        forall|i: int| 0 <= i < entries.len() ==> !qualifies(#[trigger] entries[i]),
    ensures
        child_models(root, entries).len() == 0,
    decreases entries.len(),
{
    if entries.len() > 0 {
        assert forall|i: int| 0 <= i < entries.drop_last().len() implies !qualifies(
            #[trigger] entries.drop_last()[i],
        ) by {
            assert(entries.drop_last()[i] == entries[i]);
        }
        lemma_child_models_empty(root, entries.drop_last());
        assert(!qualifies(entries.last()));
    }
}

/// With no qualifying child and no marker file directly in the base
/// directory, the scan yields no candidate at all.
pub proof fn lemma_scan_empty(
    root: Seq<char>,
    entries: Seq<EntryInfo>,
    base_lua: Probe,
    base_vim: Probe,
)
    requires
        forall|i: int| 0 <= i < entries.len() ==> !qualifies(#[trigger] entries[i]),
        !marker_present(base_lua, base_vim),
    ensures
        scan_model(root, entries, base_lua, base_vim).len() == 0,
{
    lemma_child_models_empty(root, entries);
}

/// When the base directory itself holds a marker file, the base candidate is
/// always in the scan's result, however many qualifying children there are.
pub proof fn lemma_base_included(
    root: Seq<char>,
    entries: Seq<EntryInfo>,
    base_lua: Probe,
    base_vim: Probe,
)
    requires
        marker_present(base_lua, base_vim),
    ensures
        scan_model(root, entries, base_lua, base_vim).len() > 0,
        scan_model(root, entries, base_lua, base_vim).last() == (
            base_rel_name(),
            base_abs_path(root),
        ),
{
}

/// A hidden entry never contributes a candidate: no candidate in the model
/// bears the relative name built from a hidden entry's name.
pub proof fn lemma_hidden_excluded(
    root: Seq<char>,
    entries: Seq<EntryInfo>,
    base_lua: Probe,
    base_vim: Probe,
    name: Seq<char>,
)
    requires
        hidden_name(name),
    ensures
        forall|j: int|
            0 <= j < scan_model(root, entries, base_lua, base_vim).len() ==> (
            #[trigger] scan_model(root, entries, base_lua, base_vim)[j]).0 != child_rel_name(name),
{
    lemma_children_not_hidden(root, entries, name);
    let model = scan_model(root, entries, base_lua, base_vim);
    let children = child_models(root, entries);
    assert forall|j: int| 0 <= j < model.len() implies (#[trigger] model[j]).0 != child_rel_name(
        name,
    ) by {
        if j < children.len() {
            assert(model[j] == children[j]);
        } else {
            assert(model[j].0 == base_rel_name());
            assert(child_rel_name(name).len() == "nvim"@.len() + 1 + name.len());
        }
    }
}

/// No child candidate bears the relative name built from a hidden name.
proof fn lemma_children_not_hidden(root: Seq<char>, entries: Seq<EntryInfo>, name: Seq<char>)
    requires
        hidden_name(name),
    ensures
        forall|j: int|
            0 <= j < child_models(root, entries).len() ==> (#[trigger] child_models(
                root,
                entries,
            )[j]).0 != child_rel_name(name),
    decreases entries.len(),
{
    if entries.len() > 0 {
        lemma_children_not_hidden(root, entries.drop_last(), name);
        let prefix = child_models(root, entries.drop_last());
        assert forall|j: int| 0 <= j < child_models(root, entries).len() implies (
        #[trigger] child_models(root, entries)[j]).0 != child_rel_name(name) by {
            if j < prefix.len() {
                assert(child_models(root, entries)[j] == prefix[j]);
            } else {
                if child_rel_name(entries.last().name@) == child_rel_name(name) {
                    crate::paths::lemma_join_injective("nvim"@, entries.last().name@, name);
                    assert(!hidden_name(entries.last().name@));
                    assert(false);
                }
            }
        }
    }
}

} // verus!
