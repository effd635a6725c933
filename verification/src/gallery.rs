//! The gallery index: the set of discovered images, grouped by folder.
//!
//! The index is rebuilt wholesale from the current file listing on every
//! reconciliation tick — the previous grouped state is discarded entirely,
//! never merged into.

use vstd::prelude::*;
use crate::digest::{content_digest, digest_of, thumb_file_name};
use crate::paths::{folder_group, folder_group_of};

verus! {

/// One discovered image: its absolute path, the folder group it renders
/// under, the cache key derived from the path, the file name of its cached
/// thumbnail, and the decoded thumbnail's pixel dimensions.
pub struct ImageEntry {
    pub path: String,
    pub group: String,
    pub digest: String,
    pub thumb_name: String,
    pub width: u32,
    pub height: u32,
}

impl Clone for ImageEntry {
    fn clone(&self) -> (res: Self)
        ensures
            res == *self,
    {
        ImageEntry {
            path: self.path.clone(),
            group: self.group.clone(),
            digest: self.digest.clone(),
            thumb_name: self.thumb_name.clone(),
            width: self.width,
            height: self.height,
        }
    }
}

/// Derives an entry from a path and the thumbnail's decoded dimensions: the
/// group comes from the path's parent under the watched root, the digest
/// from the path's URI form, the thumbnail name from the digest.
pub fn image_entry(path: String, root: &String, width: u32, height: u32) -> (e: ImageEntry)
    ensures
        e.path == path,
        e.width == width,
        e.height == height,
        e.group@ == folder_group_of(path@, root@),
        e.digest@ == digest_of(path@),
        e.thumb_name@ == digest_of(path@) + ".png"@,
{
    let group = folder_group(&path, root);
    let digest = content_digest(&path);
    let thumb_name = thumb_file_name(&digest);
    ImageEntry { path, group, digest, thumb_name, width, height }
}

/// One folder group: its display name and its entries in discovery order.
pub struct GalleryGroup {
    pub name: String,
    pub entries: Vec<ImageEntry>,
}

/// The grouped image set. Rebuilt from scratch on every rescan.
pub struct GalleryIndex {
    pub groups: Vec<GalleryGroup>,
}

/// The distinct group names of a file listing, in order of first appearance.
pub open spec fn group_names(files: Seq<ImageEntry>) -> Seq<Seq<char>>
    decreases files.len(),
{
    if files.len() == 0 {
        Seq::empty()
    } else {
        let prev = group_names(files.drop_last());
        if prev.contains(files.last().group@) {
            prev
        } else {
            prev.push(files.last().group@)
        }
    }
}

/// The entries of a listing that belong to one group, in listing order.
pub open spec fn entries_with(files: Seq<ImageEntry>, name: Seq<char>) -> Seq<ImageEntry> {
    files.filter(|e: ImageEntry| e.group@ == name)
}

/// What a rebuilt index holds: one group per distinct folder name in first
/// appearance order, each carrying exactly the listing's entries for that
/// name — nothing of any earlier rebuild survives.
pub open spec fn index_models(idx: GalleryIndex, files: Seq<ImageEntry>) -> bool {
    &&& idx.groups@.map_values(|g: GalleryGroup| g.name@) == group_names(files)
    &&& forall|k: int|
        0 <= k < idx.groups@.len() ==> (#[trigger] idx.groups@[k]).entries@ == entries_with(
            files,
            idx.groups@[k].name@,
        )
}

proof fn lemma_group_names_push(files: Seq<ImageEntry>, e: ImageEntry)
    ensures
        group_names(files.push(e)) == if group_names(files).contains(e.group@) {
            group_names(files)
        } else {
            group_names(files).push(e.group@)
        },
{
    assert(files.push(e).drop_last() =~= files);
    assert(files.push(e).last() == e);
}

proof fn lemma_entries_with_push(files: Seq<ImageEntry>, e: ImageEntry, name: Seq<char>)
    ensures
        e.group@ == name ==> entries_with(files.push(e), name) == entries_with(
            files,
            name,
        ).push(e),
        e.group@ != name ==> entries_with(files.push(e), name) == entries_with(files, name),
{
    reveal(Seq::filter);
    assert(files.push(e).drop_last() =~= files);
    assert(files.push(e).last() == e);
}

/// Every entry of a group came out of the listing it was filtered from.
pub proof fn lemma_entries_with_subset(files: Seq<ImageEntry>, name: Seq<char>, i: int)
    requires
        0 <= i < entries_with(files, name).len(),
    ensures
        files.contains(entries_with(files, name)[i]),
        entries_with(files, name)[i].group@ == name,
    decreases files.len(),
{
    reveal(Seq::filter);
    if files.len() > 0 {
        let prefix = files.drop_last();
        let pf = entries_with(prefix, name);
        if i < pf.len() {
            lemma_entries_with_subset(prefix, name, i);
            let w = choose|j: int| 0 <= j < prefix.len() && prefix[j] == pf[i];
            assert(files[w] == pf[i]);
        }
    }
}

impl GalleryIndex {
    /// An empty index: no groups at all.
    pub fn new() -> (idx: GalleryIndex)
        ensures
            idx.groups@.len() == 0,
            index_models(idx, Seq::empty()),
    {
        let idx = GalleryIndex { groups: Vec::new() };
        proof {
            assert(idx.groups@.map_values(|g: GalleryGroup| g.name@) =~= group_names(
                Seq::empty(),
            ));
        }
        idx
    }

    /// Rebuilds the index from a fresh file listing, replacing whatever was
    /// indexed before: the result is a pure function of `files`.
    pub fn rebuild(files: &Vec<ImageEntry>) -> (idx: GalleryIndex)
        ensures
            index_models(idx, files@),
    {
        let names = collect_group_names(files);
        let mut groups: Vec<GalleryGroup> = Vec::new();
        let mut gi: usize = 0;
        while gi < names.len()
            invariant
                names@.map_values(|s: String| s@) == group_names(files@),
                groups@.len() == gi,
                gi <= names@.len(),
                forall|k: int|
                    0 <= k < gi ==> (#[trigger] groups@[k]).name@ == names@[k]@
                        && groups@[k].entries@ == entries_with(files@, names@[k]@),
            decreases names@.len() - gi,
        {
            let name = names[gi].clone();
            let entries = collect_entries(files, &name);
            groups.push(GalleryGroup { name, entries });
            gi += 1;
        }
        let idx = GalleryIndex { groups };
        proof {
            assert(idx.groups@.map_values(|g: GalleryGroup| g.name@) =~= names@.map_values(
                |s: String| s@,
            ));
        }
        idx
    }
}

/// First pass of a rebuild: the distinct group names in first-appearance
/// order.
fn collect_group_names(files: &Vec<ImageEntry>) -> (names: Vec<String>)
    ensures
        names@.map_values(|s: String| s@) == group_names(files@),
{
    let mut names: Vec<String> = Vec::new();
    let mut i: usize = 0;
    proof {
        assert(names@.map_values(|s: String| s@) =~= group_names(files@.take(0)));
    }
    while i < files.len()
        invariant
            i <= files@.len(),
            names@.map_values(|s: String| s@) == group_names(files@.take(i as int)),
        decreases files@.len() - i,
    {
        let g = &files[i].group;
        let mut found = false;
        let mut j: usize = 0;
        while j < names.len()
            invariant
                j <= names@.len(),
                found ==> exists|k: int| 0 <= k < names@.len() && names@[k]@ == g@,
                !found ==> forall|k: int| 0 <= k < j ==> names@[k]@ != g@,
            decreases names@.len() - j,
        {
            if names[j] == *g {
                found = true;
            }
            j += 1;
        }
        proof {
            let views = names@.map_values(|s: String| s@);
            assert(found <==> views.contains(g@)) by {
                if found {
                    let k = choose|k: int| 0 <= k < names@.len() && names@[k]@ == g@;
                    assert(views[k] == g@);
                } else {
                    if views.contains(g@) {
                        let k = choose|k: int| 0 <= k < views.len() && views[k] == g@;
                        assert(names@[k]@ == g@);
                    }
                }
            }
            lemma_group_names_push(files@.take(i as int), files@[i as int]);
            assert(files@.take(i as int).push(files@[i as int]) =~= files@.take(i + 1));
        }
        if !found {
            let gc = g.clone();
            names.push(gc);
            proof {
                assert(names@.map_values(|s: String| s@) =~= group_names(files@.take(i as int)).push(
                    g@,
                ));
            }
        }
        i += 1;
    }
    proof {
        assert(files@.take(files@.len() as int) =~= files@);
    }
    names
}

/// Second pass of a rebuild: the entries of one group, in listing order.
fn collect_entries(files: &Vec<ImageEntry>, name: &String) -> (entries: Vec<ImageEntry>)
    ensures
        entries@ == entries_with(files@, name@),
{
    let mut entries: Vec<ImageEntry> = Vec::new();
    let mut i: usize = 0;
    proof {
        reveal(Seq::filter);
        assert(entries@ =~= entries_with(files@.take(0), name@));
    }
    while i < files.len()
        invariant
            i <= files@.len(),
            entries@ == entries_with(files@.take(i as int), name@),
        decreases files@.len() - i,
    {
        proof {
            lemma_entries_with_push(files@.take(i as int), files@[i as int], name@);
            assert(files@.take(i as int).push(files@[i as int]) =~= files@.take(i + 1));
        }
        if files[i].group == *name {
            let e = files[i].clone();
            entries.push(e);
        }
        i += 1;
    }
    proof {
        assert(files@.take(files@.len() as int) =~= files@);
    }
    entries
}

/// The group names of a listing never repeat: a name is only appended when
/// it has not appeared before.
proof fn lemma_group_names_distinct(files: Seq<ImageEntry>)
    ensures
        forall|k1: int, k2: int|
            0 <= k1 < k2 < group_names(files).len() ==> group_names(files)[k1] != group_names(
                files,
            )[k2],
    decreases files.len(),
{
    if files.len() > 0 {
        lemma_group_names_distinct(files.drop_last());
        let prev = group_names(files.drop_last());
        let g = files.last().group@;
        if !prev.contains(g) {
            assert forall|k1: int| 0 <= k1 < prev.len() implies prev[k1] != g by {
                if prev[k1] == g {
                    assert(prev.contains(g));
                }
            }
        }
    }
}

/// The index really is a mapping: no two of its groups carry the same folder
/// name.
pub proof fn lemma_index_groups_unique(idx: GalleryIndex, files: Seq<ImageEntry>)
    requires
        index_models(idx, files),
    ensures
        forall|k1: int, k2: int|
            0 <= k1 < k2 < idx.groups@.len() ==> (#[trigger] idx.groups@[k1]).name@ != (
            #[trigger] idx.groups@[k2]).name@,
{
    lemma_group_names_distinct(files);
    let views = idx.groups@.map_values(|g: GalleryGroup| g.name@);
    assert forall|k1: int, k2: int|
        0 <= k1 < k2 < idx.groups@.len() implies (#[trigger] idx.groups@[k1]).name@ != (
    #[trigger] idx.groups@[k2]).name@ by {
        assert(views[k1] == idx.groups@[k1].name@);
        assert(views[k2] == idx.groups@[k2].name@);
    }
}

/// Every listed entry's group name shows up among the listing's group names.
proof fn lemma_group_names_complete(files: Seq<ImageEntry>, i: int)
    requires
        0 <= i < files.len(),
    ensures
        group_names(files).contains(files[i].group@),
    decreases files.len(),
{
    let prev = group_names(files.drop_last());
    if i == files.len() - 1 {
        if !prev.contains(files.last().group@) {
            assert(group_names(files).last() == files.last().group@);
        }
    } else {
        lemma_group_names_complete(files.drop_last(), i);
        assert(files.drop_last()[i] == files[i]);
        let k = choose|k: int| 0 <= k < prev.len() && prev[k] == files[i].group@;
        assert(group_names(files)[k] == files[i].group@);
    }
}

/// Rebuild keeps everything it was handed: every entry of the listing stands
/// in the index, inside the group that carries its folder name.
pub proof fn lemma_rebuild_complete(idx: GalleryIndex, files: Seq<ImageEntry>, i: int)
    requires
        index_models(idx, files),
        0 <= i < files.len(),
    ensures
        exists|k: int|
            0 <= k < idx.groups@.len() && (#[trigger] idx.groups@[k]).name@ == files[i].group@
                && idx.groups@[k].entries@.contains(files[i]),
{
    lemma_group_names_complete(files, i);
    let names = group_names(files);
    let k = choose|k: int| 0 <= k < names.len() && names[k] == files[i].group@;
    let views = idx.groups@.map_values(|g: GalleryGroup| g.name@);
    assert(views[k] == files[i].group@);
    assert(idx.groups@[k].name@ == files[i].group@);
    files.lemma_filter_contains(|e: ImageEntry| e.group@ == files[i].group@, i);
    assert(idx.groups@[k].entries@.contains(files[i]));
}

/// Rebuild replaces, never merges: an index modelled by one listing holds
/// exactly that listing's entries; after two successive rebuilds over
/// path-disjoint file sets, nothing of the first set remains.
pub proof fn lemma_rebuild_replaces(
    idx: GalleryIndex,
    old_files: Seq<ImageEntry>,
    new_files: Seq<ImageEntry>,
)
    requires
        index_models(idx, new_files),
        forall|i: int, j: int|
            0 <= i < old_files.len() && 0 <= j < new_files.len() ==> (#[trigger] old_files[i]).path@
                != (#[trigger] new_files[j]).path@,
    ensures
        forall|k: int, l: int|
            0 <= k < idx.groups@.len() && 0 <= l < (#[trigger] idx.groups@[k]).entries@.len()
                ==> new_files.contains(#[trigger] idx.groups@[k].entries@[l]) && !old_files.contains(
                idx.groups@[k].entries@[l],
            ),
{
    assert forall|k: int, l: int|
        0 <= k < idx.groups@.len() && 0 <= l < (#[trigger] idx.groups@[k]).entries@.len()
        implies new_files.contains(#[trigger] idx.groups@[k].entries@[l]) && !old_files.contains(
        idx.groups@[k].entries@[l],
    ) by {
        let e = idx.groups@[k].entries@[l];
        lemma_entries_with_subset(new_files, idx.groups@[k].name@, l);
        let j = choose|j: int| 0 <= j < new_files.len() && new_files[j] == e;
        if old_files.contains(e) {
            let i = choose|i: int| 0 <= i < old_files.len() && old_files[i] == e;
            assert(old_files[i].path@ != new_files[j].path@);
        }
    }
}

} // verus!
