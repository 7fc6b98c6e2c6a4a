//! Paths of remote records, worked out from their chains of parents.

use vstd::prelude::*;
use vstd::hash_map::StringHashMap;
use vstd::string::StringExecFns;
use crate::remote::{first_parent, remote_records, RemoteFile, RemoteRecord};
use crate::text::{joined, replace_char, replaced};

verus! {

/// The host's way of writing paths.
#[derive(Clone, Copy, Debug, PartialEq, Eq, Structural)]
pub enum Platform {
    Windows,
    Linux,
    MacOs,
    /// Any other host: names are taken as they are.
    Other,
}

/// The character that replaces a path separator inside a name.
pub const SUBSTITUTE: char = '_';

impl Platform {
    /// The character that separates the segments of a path.
    pub open spec fn separator(self) -> char {
        if self is Windows {
            '\\'
        } else {
            '/'
        }
    }

    /// The character that separates the segments of a path.
    pub fn path_separator(self) -> (c: char)
        ensures
            c == self.separator(),
    {
        match self {
            Platform::Windows => '\\',
            _ => '/',
        }
    }
}

/// A name made fit to be one segment of a path: the host's separator is
/// replaced by `SUBSTITUTE`. A host that is neither Windows, Linux nor macOS
/// gets the name unchanged.
pub open spec fn clean_name(name: Seq<char>, platform: Platform) -> Seq<char> {
    match platform {
        Platform::Other => name,
        _ => replaced(name, platform.separator(), SUBSTITUTE),
    }
}

/// A cleaned name holds no separator, so that it is one segment of a path
/// and no more. This holds on Windows, Linux and macOS; on another host
/// names stay as they are.
pub proof fn clean_name_is_one_segment(name: Seq<char>, platform: Platform)
    requires
        platform != Platform::Other,
    ensures
        clean_name(name, platform).len() == name.len(),
        !clean_name(name, platform).contains(platform.separator()),
{
}

/// Makes `name` fit to be one segment of a path on `platform`.
pub fn clean_file_name(name: &str, platform: Platform) -> (clean: String)
    ensures
        clean@ == clean_name(name@, platform),
{
    match platform {
        Platform::Other => name.to_string(),
        _ => replace_char(name, platform.path_separator(), SUBSTITUTE),
    }
}

/// The index from identifier to position in a listing: where an identifier
/// occurs more than once, the last occurrence counts.
pub open spec fn id_positions(files: Seq<RemoteRecord>) -> Map<Seq<char>, int>
    decreases files.len(),
{
    if files.len() == 0 {
        Map::empty()
    } else {
        id_positions(files.drop_last()).insert(files.last().id, files.len() - 1)
    }
}

/// Every indexed identifier leads to a record of the listing that has it.
pub proof fn lemma_id_positions(files: Seq<RemoteRecord>)
    ensures
        id_positions(files).dom().finite(),
        forall|id: Seq<char>| #[trigger]
            id_positions(files).contains_key(id) ==> {
                &&& 0 <= id_positions(files)[id] < files.len()
                &&& files[id_positions(files)[id]].id == id
            },
        forall|i: int| 0 <= i < files.len() ==> id_positions(files).contains_key(#[trigger] files[i].id),
    decreases files.len(),
{
    if files.len() > 0 {
        lemma_id_positions(files.drop_last());
        assert forall|i: int| 0 <= i < files.len() implies id_positions(files).contains_key(
            #[trigger] files[i].id,
        ) by {
            if i < files.len() - 1 {
                assert(files.drop_last()[i] == files[i]);
            }
        }
    }
}

/// The identifiers of the listing that a walk has not met yet.
pub open spec fn unvisited(files: Seq<RemoteRecord>, visited: Set<Seq<char>>) -> Set<Seq<char>> {
    id_positions(files).dom().difference(visited)
}

/// Visiting one more listed identifier leaves fewer to visit.
pub proof fn lemma_visit(files: Seq<RemoteRecord>, visited: Set<Seq<char>>, id: Seq<char>)
    requires
        id_positions(files).contains_key(id),
        !visited.contains(id),
    ensures
        unvisited(files, visited.insert(id)).len() < unvisited(files, visited).len(),
{
    lemma_id_positions(files);
    assert(unvisited(files, visited.insert(id)) =~= unvisited(files, visited).remove(id));
}

/// The positions of a record's ancestors in the listing, outermost first.
///
/// The walk goes from the record to its first parent and on from there. It
/// ends at a record without parent, at a parent that the listing does not
/// hold, and at a parent whose identifier is in `visited`, which holds the
/// identifiers that the walk has met: a cycle of parents is cut where it
/// closes.
pub open spec fn ancestors(files: Seq<RemoteRecord>, file: RemoteRecord, visited: Set<Seq<char>>) -> Seq<int>
    decreases unvisited(files, visited).len(),
{
    match first_parent(file) {
        None => Seq::empty(),
        Some(parent_id) => {
            if visited.contains(parent_id) || !id_positions(files).contains_key(parent_id) {
                Seq::empty()
            } else {
                proof {
                    lemma_visit(files, visited, parent_id);
                }
                let parent = id_positions(files)[parent_id];
                ancestors(files, files[parent], visited.insert(parent_id)).push(parent)
            }
        },
    }
}

/// The segments of a record's path: the cleaned names of its ancestors,
/// outermost first, and then its own.
pub open spec fn path_segments(files: Seq<RemoteRecord>, file: RemoteRecord, platform: Platform) -> Seq<Seq<char>> {
    ancestors(files, file, set![file.id]).map_values(
        |position: int| clean_name(files[position].name, platform),
    ).push(clean_name(file.name, platform))
}

/// The path of a record below the synchronization root.
pub open spec fn resolved_path(files: Seq<RemoteRecord>, file: RemoteRecord, platform: Platform) -> Seq<char> {
    joined(path_segments(files, file, platform), platform.separator())
}

/// An identifier that a walk does not meet can be taken as met or not: the
/// walk is the same.
pub proof fn lemma_unmet_identifier(
    files: Seq<RemoteRecord>,
    file: RemoteRecord,
    visited: Set<Seq<char>>,
    id: Seq<char>,
)
    requires
        forall|k: int|
            0 <= k < ancestors(files, file, visited).len() ==> files[#[trigger] ancestors(
                files,
                file,
                visited,
            )[k]].id != id,
    ensures
        ancestors(files, file, visited.insert(id)) == ancestors(files, file, visited),
    decreases unvisited(files, visited).len(),
{
    lemma_id_positions(files);
    match first_parent(file) {
        None => {},
        Some(parent_id) => {
            if !visited.contains(parent_id) && id_positions(files).contains_key(parent_id) {
                let parent = id_positions(files)[parent_id];
                let above = ancestors(files, files[parent], visited.insert(parent_id));
                let walk = ancestors(files, file, visited);
                assert(walk[walk.len() - 1] == parent);
                lemma_visit(files, visited, parent_id);
                assert forall|k: int| 0 <= k < above.len() implies files[#[trigger] above[k]].id
                    != id by {
                    assert(walk[k] == above[k]);
                }
                lemma_unmet_identifier(files, files[parent], visited.insert(parent_id), id);
                assert(visited.insert(parent_id).insert(id) =~= visited.insert(id).insert(
                    parent_id,
                ));
            }
        },
    }
}

/// The path of a record in a folder is the folder's path, the separator,
/// and the record's cleaned name. This holds of a record whose first parent
/// the listing holds, unless the record stands among the ancestors of that
/// parent, where the walk is cut.
pub proof fn path_continues_parent_path(
    files: Seq<RemoteRecord>,
    file: RemoteRecord,
    platform: Platform,
)
    requires
        first_parent(file) matches Some(parent_id) && id_positions(files).contains_key(parent_id)
            && parent_id != file.id,
        forall|k: int|
            0 <= k < ancestors(
                files,
                files[id_positions(files)[first_parent(file)->0]],
                set![first_parent(file)->0],
            ).len() ==> files[#[trigger] ancestors(
                files,
                files[id_positions(files)[first_parent(file)->0]],
                set![first_parent(file)->0],
            )[k]].id != file.id,
    ensures
        resolved_path(files, file, platform) == resolved_path(
            files,
            files[id_positions(files)[first_parent(file)->0]],
            platform,
        ).push(platform.separator()) + clean_name(file.name, platform),
{
    lemma_id_positions(files);
    let parent_id = first_parent(file)->0;
    let position = id_positions(files)[parent_id];
    let parent = files[position];
    lemma_unmet_identifier(files, parent, set![parent_id], file.id);
    assert(set![file.id].insert(parent_id) =~= set![parent_id].insert(file.id));
    let parent_segments = path_segments(files, parent, platform);
    let segments = path_segments(files, file, platform);
    assert(segments.drop_last() =~= parent_segments);
}

/// The path of a record that lies in the root is its cleaned name: so for a
/// record without parent, and for one whose first parent the listing does not
/// hold or is the record itself.
pub proof fn path_in_root(files: Seq<RemoteRecord>, file: RemoteRecord, platform: Platform)
    requires
        first_parent(file) matches Some(parent_id) ==> !id_positions(files).contains_key(parent_id)
            || parent_id == file.id,
    ensures
        resolved_path(files, file, platform) == clean_name(file.name, platform),
{
}

/// A record in a folder in a folder: where the listing holds `top` without
/// parent and `middle` with `top` as its first parent, and the first parent
/// of `file` is `middle`, the path of `file` is the three cleaned names from
/// `top` down, with a separator between each two, and the path of `middle`
/// is the first two of them.
pub proof fn path_below_two_folders(
    files: Seq<RemoteRecord>,
    top: int,
    middle: int,
    file: RemoteRecord,
    platform: Platform,
)
    requires
        0 <= top < files.len(),
        0 <= middle < files.len(),
        id_positions(files)[files[top].id] == top,
        id_positions(files)[files[middle].id] == middle,
        first_parent(files[top]) is None,
        first_parent(files[middle]) == Some(files[top].id),
        first_parent(file) == Some(files[middle].id),
        files[top].id != files[middle].id,
        file.id != files[top].id,
        file.id != files[middle].id,
    ensures
        resolved_path(files, files[middle], platform) == clean_name(files[top].name, platform).push(
            platform.separator(),
        ) + clean_name(files[middle].name, platform),
        resolved_path(files, file, platform) == (clean_name(files[top].name, platform).push(
            platform.separator(),
        ) + clean_name(files[middle].name, platform)).push(platform.separator()) + clean_name(
            file.name,
            platform,
        ),
{
    lemma_id_positions(files);
    let top_id = files[top].id;
    let middle_id = files[middle].id;
    path_in_root(files, files[top], platform);
    path_continues_parent_path(files, files[middle], platform);
    assert(ancestors(files, files[top], set![middle_id].insert(top_id)) =~= Seq::<int>::empty());
    path_continues_parent_path(files, file, platform);
}

/// A remote listing together with its index from identifier to record.
pub struct Hierarchy {
    files: Vec<RemoteFile>,
    by_id: StringHashMap<usize>,
}

impl View for Hierarchy {
    type V = Seq<RemoteRecord>;

    closed spec fn view(&self) -> Seq<RemoteRecord> {
        remote_records(self.files@)
    }
}

impl Hierarchy {
    /// The index is that of the listing.
    #[verifier::type_invariant]
    spec fn indexed(self) -> bool {
        &&& self.by_id@.dom() == id_positions(remote_records(self.files@)).dom()
        &&& forall|id: Seq<char>| #[trigger]
            self.by_id@.contains_key(id) ==> self.by_id@[id] as int == id_positions(
                remote_records(self.files@),
            )[id]
    }

    /// Indexes a listing.
    pub fn new(files: Vec<RemoteFile>) -> (hierarchy: Hierarchy)
        ensures
            hierarchy@ == remote_records(files@),
    {
        let mut by_id: StringHashMap<usize> = StringHashMap::new();
        let ghost listed = remote_records(files@);
        let mut i: usize = 0;
        while i < files.len()
            invariant
                i <= files.len(),
                listed == remote_records(files@),
                by_id@.dom() == id_positions(listed.take(i as int)).dom(),
                forall|id: Seq<char>| #[trigger]
                    by_id@.contains_key(id) ==> by_id@[id] as int == id_positions(
                        listed.take(i as int),
                    )[id],
            decreases files.len() - i,
        {
            assert(listed.take(i + 1).drop_last() == listed.take(i as int));
            by_id.insert(files[i].id.clone(), i);
            i += 1;
        }
        assert(listed.take(files.len() as int) == listed);
        Hierarchy { files, by_id }
    }

    /// The number of records in the listing.
    pub fn len(&self) -> (n: usize)
        ensures
            n == self@.len(),
    {
        self.files.len()
    }

    /// The record at position `i` of the listing, if the listing is that long.
    pub fn file(&self, i: usize) -> (file: Option<&RemoteFile>)
        ensures
            match file {
                Some(file) => i < self@.len() && file@ == self@[i as int],
                None => i >= self@.len(),
            },
    {
        if i < self.files.len() {
            Some(&self.files[i])
        } else {
            None
        }
    }

    /// Resolves the path of `file` below the synchronization root: the
    /// cleaned names of its ancestors in this listing, outermost first, and
    /// its own, joined by the platform's separator.
    pub fn get_path(&self, file: &RemoteFile, platform: Platform) -> (path: String)
        ensures
            path@ == resolved_path(self@, file@, platform),
    {
        proof {
            use_type_invariant(self);
            lemma_id_positions(self@);
        }
        let ghost listed = self@;
        let mut chain: Vec<usize> = Vec::new();
        let mut visited: StringHashMap<()> = StringHashMap::new();
        visited.insert(file.id.clone(), ());
        let mut current: &RemoteFile = file;
        loop
            invariant
                listed == self@,
                listed == remote_records(self.files@),
                self.by_id@.dom() == id_positions(listed).dom(),
                forall|id: Seq<char>| #[trigger]
                    self.by_id@.contains_key(id) ==> self.by_id@[id] as int == id_positions(
                        listed,
                    )[id],
                forall|id: Seq<char>| #[trigger]
                    id_positions(listed).contains_key(id) ==> {
                        &&& 0 <= id_positions(listed)[id] < listed.len()
                        &&& listed[id_positions(listed)[id]].id == id
                    },
                forall|k: int| 0 <= k < chain.len() ==> chain@[k] < listed.len(),
                ancestors(listed, file@, set![file@.id]) == ancestors(
                    listed,
                    current@,
                    visited@.dom(),
                ) + Seq::new(chain.len() as nat, |k: int| chain@[chain.len() - 1 - k] as int),
            ensures
                forall|k: int| 0 <= k < chain.len() ==> chain@[k] < listed.len(),
                ancestors(listed, file@, set![file@.id]) == Seq::new(
                    chain.len() as nat,
                    |k: int| chain@[chain.len() - 1 - k] as int,
                ),
            decreases unvisited(listed, visited@.dom()).len(),
        {
            match current.first_parent() {
                None => {
                    break ;
                },
                Some(parent_id) => {
                    if visited.contains_key(parent_id.as_str()) {
                        break ;
                    }
                    match self.by_id.get(parent_id.as_str()) {
                        None => {
                            break ;
                        },
                        Some(found) => {
                            let position: usize = *found;
                            proof {
                                lemma_visit(listed, visited@.dom(), parent_id@);
                            }
                            visited.insert(parent_id.clone(), ());
                            chain.push(position);
                            current = &self.files[position];
                        },
                    }
                },
            }
        }
        let ghost positions = ancestors(listed, file@, set![file@.id]);
        let ghost names = positions.map_values(
            |position: int| clean_name(listed[position].name, platform),
        );
        let separator: char = platform.path_separator();
        let mut path = String::new();
        let mut done: usize = 0;
        while done < chain.len()
            invariant
                done <= chain.len(),
                listed == remote_records(self.files@),
                separator == platform.separator(),
                forall|k: int| 0 <= k < chain.len() ==> chain@[k] < listed.len(),
                positions == Seq::new(
                    chain.len() as nat,
                    |k: int| chain@[chain.len() - 1 - k] as int,
                ),
                names == positions.map_values(
                    |position: int| clean_name(listed[position].name, platform),
                ),
                path@ == if done == 0 {
                    Seq::<char>::empty()
                } else {
                    joined(names.take(done as int), separator).push(separator)
                },
            decreases chain.len() - done,
        {
            let position: usize = chain[chain.len() - 1 - done];
            let name = clean_file_name(self.files[position].name.as_str(), platform);
            assert(names.take(done + 1).drop_last() == names.take(done as int));
            path.append(name.as_str());
            path.push(separator);
            done += 1;
        }
        assert(names.take(chain.len() as int) == names);
        let leaf = clean_file_name(file.name.as_str(), platform);
        path.append(leaf.as_str());
        assert(names.push(leaf@).drop_last() == names);
        path
    }
}

} // verus!
