use vstd::prelude::*;
use vstd::string::StringSliceAdditionalSpecFns;
use vstd::utf8::valid_utf8;

use crate::error::ScaffoldError;
use crate::substitute::{render_file, rendered};

verus! {

/// One entry of a template tree, or of the tree made from it: a path relative
/// to the tree's root, and for a file its bytes.
#[derive(Debug, PartialEq, Eq)]
pub enum TreeEntry {
    Directory { path: String },
    File { path: String, content: Vec<u8> },
}

/// The mathematical value of a tree entry.
pub enum EntryView {
    Directory { path: Seq<char> },
    File { path: Seq<char>, content: Seq<u8> },
}

impl View for TreeEntry {
    type V = EntryView;

    open spec fn view(&self) -> EntryView {
        match self {
            TreeEntry::Directory { path } => EntryView::Directory { path: path@ },
            TreeEntry::File { path, content } => EntryView::File { path: path@, content: content@ },
        }
    }
}

impl EntryView {
    /// Relative path and whether the entry is a directory.
    pub open spec fn shape(self) -> (Seq<char>, bool) {
        match self {
            EntryView::Directory { path } => (path, true),
            EntryView::File { path, .. } => (path, false),
        }
    }
}

/// The entry written to the target for a template entry: a directory stays a
/// directory, a file keeps its path and gets its rendered content.
pub open spec fn materialized(e: EntryView, name: Seq<u8>) -> EntryView {
    match e {
        EntryView::Directory { path } => EntryView::Directory { path },
        EntryView::File { path, content } => EntryView::File {
            path,
            content: rendered(content, valid_utf8(content), name),
        },
    }
}

/// The values of a sequence of entries.
pub open spec fn entry_views(s: Seq<TreeEntry>) -> Seq<EntryView> {
    s.map_values(|e: TreeEntry| e@)
}

/// The tree that a template becomes for a project name.
pub open spec fn materialized_tree(entries: Seq<EntryView>, name: Seq<u8>) -> Seq<EntryView> {
    entries.map_values(|e: EntryView| materialized(e, name))
}

/// Materializing mirrors the structure of the template: the materialized tree
/// has, entry for entry, the same relative paths with the same kinds, so the
/// set of (path, kind) pairs is the same.
pub proof fn lemma_structure_mirrored(entries: Seq<EntryView>, name: Seq<u8>)
    ensures
        materialized_tree(entries, name).map_values(|e: EntryView| e.shape()) == entries.map_values(
            |e: EntryView| e.shape(),
        ),
        materialized_tree(entries, name).map_values(|e: EntryView| e.shape()).to_set()
            == entries.map_values(|e: EntryView| e.shape()).to_set(),
{
    let out = materialized_tree(entries, name);
    assert forall|i: int| 0 <= i < entries.len() implies #[trigger] out[i].shape()
        == entries[i].shape() by {
        match entries[i] {
            EntryView::Directory { path } => {},
            EntryView::File { path, content } => {},
        }
    }
    assert(out.map_values(|e: EntryView| e.shape()) =~= entries.map_values(
        |e: EntryView| e.shape(),
    ));
}

/// A file that is not well-formed text is written byte for byte as it is in
/// the template, whatever the project name.
pub proof fn lemma_binary_passthrough(path: Seq<char>, content: Seq<u8>, name: Seq<u8>)
    requires
        !valid_utf8(content),
    ensures
        materialized(EntryView::File { path, content }, name) == (EntryView::File {
            path,
            content,
        }),
{
}

impl TreeEntry {
    /// Relative path of the entry.
    pub fn path(&self) -> (r: &String)
        ensures
            r@ == self@.shape().0,
    {
        match self {
            TreeEntry::Directory { path } => path,
            TreeEntry::File { path, .. } => path,
        }
    }

    /// Whether the entry is a directory.
    pub fn is_dir(&self) -> (r: bool)
        ensures
            r == self@.shape().1,
    {
        match self {
            TreeEntry::Directory { .. } => true,
            TreeEntry::File { .. } => false,
        }
    }
}

/// Refuses a target directory that is already there.
pub fn check_target(target_root: &str, target_exists: bool) -> (r: Result<(), ScaffoldError>)
    ensures
        !target_exists <==> r is Ok,
        target_exists ==> (r matches Err(ScaffoldError::TargetAlreadyExists { path })
            && path@ == target_root@),
{
    if target_exists {
        Err(ScaffoldError::TargetAlreadyExists { path: target_root.to_owned() })
    } else {
        Ok(())
    }
}

/// The target entry for one template entry.
pub fn materialize_entry(entry: &TreeEntry, project_name: &str) -> (r: TreeEntry)
    ensures
        r@ == materialized(entry@, project_name.spec_bytes()),
{
    match entry {
        TreeEntry::Directory { path } => TreeEntry::Directory { path: path.clone() },
        TreeEntry::File { path, content } => TreeEntry::File {
            path: path.clone(),
            content: render_file(content.as_slice(), project_name),
        },
    }
}

/// Turns the entries of a template into the entries to write under
/// `target_root`, in the same order. Fails without producing anything when
/// the target is already there.
pub fn materialize(
    target_root: &str,
    target_exists: bool,
    project_name: &str,
    entries: &Vec<TreeEntry>,
) -> (r: Result<Vec<TreeEntry>, ScaffoldError>)
    ensures
        !target_exists <==> r is Ok,
        target_exists ==> (r matches Err(ScaffoldError::TargetAlreadyExists { path })
            && path@ == target_root@),
        r matches Ok(out) ==> entry_views(out@) == materialized_tree(
            entry_views(entries@),
            project_name.spec_bytes(),
        ),
{
    match check_target(target_root, target_exists) {
        Err(e) => {
            return Err(e);
        },
        Ok(()) => {},
    }
    let mut out: Vec<TreeEntry> = Vec::new();
    let mut i: usize = 0;
    while i < entries.len()
        invariant
            0 <= i <= entries@.len(),
            out@.len() == i,
            forall|j: int|
                0 <= j < i ==> #[trigger] out@[j]@ == materialized(
                    entries@[j]@,
                    project_name.spec_bytes(),
                ),
        decreases entries@.len() - i,
    {
        let e = materialize_entry(&entries[i], project_name);
        out.push(e);
        i = i + 1;
    }
    assert(entry_views(out@) =~= materialized_tree(
        entry_views(entries@),
        project_name.spec_bytes(),
    ));
    Ok(out)
}

} // verus!
