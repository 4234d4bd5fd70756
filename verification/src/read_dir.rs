use vstd::prelude::*;

use crate::attr::{packed_kind, FileAttr, FileType, FILE_TYPE_DIRECTORY, FILE_TYPE_REGULAR};
use crate::dir::{append_bytes, first_newline, line_end, listing_names, SEPARATOR};
use crate::error::IoError;

verus! {

/// The path of the entry `name` inside the directory `parent`, as pushing a
/// path onto another does on KraftOS: an absolute name replaces the parent;
/// otherwise a separator joins the two unless the parent is empty or already
/// ends with one.
pub open spec fn child_path_bytes(parent: Seq<u8>, name: Seq<u8>) -> Seq<u8> {
    if name.len() > 0 && name[0] == SEPARATOR {
        name
    } else if parent.len() > 0 && parent.last() != SEPARATOR {
        parent + seq![SEPARATOR] + name
    } else {
        parent + name
    }
}

/// The path of the entry `name` inside the directory `parent`.
pub fn child_path(parent: &[u8], name: &[u8]) -> (path: Vec<u8>)
    ensures
        path@ == child_path_bytes(parent@, name@),
{
    let mut path: Vec<u8> = Vec::new();
    if name.len() > 0 && name[0] == SEPARATOR {
        append_bytes(&mut path, name, 0, name.len());
        assert(path@ =~= name@);
        return path;
    }
    append_bytes(&mut path, parent, 0, parent.len());
    if parent.len() > 0 && parent[parent.len() - 1] != SEPARATOR {
        path.push(SEPARATOR);
    }
    append_bytes(&mut path, name, 0, name.len());
    assert(parent@.subrange(0, parent@.len() as int) =~= parent@);
    assert(name@.subrange(0, name@.len() as int) =~= name@);
    path
}

/// A relative child path ends with the name, after the parent and at most
/// one separator; an absolute one is the name itself.
pub proof fn lemma_child_path_ends_with_name(parent: Seq<u8>, name: Seq<u8>)
    ensures
        ({
            let p = child_path_bytes(parent, name);
            &&& p.len() >= name.len()
            &&& p.subrange(p.len() - name.len(), p.len() as int) == name
            &&& !(name.len() > 0 && name[0] == SEPARATOR) ==> p.subrange(0, parent.len() as int)
                == parent
        }),
{
    let p = child_path_bytes(parent, name);
    assert(p.subrange(p.len() - name.len(), p.len() as int) =~= name);
    if !(name.len() > 0 && name[0] == SEPARATOR) {
        assert(p.subrange(0, parent.len() as int) =~= parent);
    }
}

/// What a directory entry holds: its path, its name, and its kind word.
pub struct DirEntryView {
    pub path: Seq<u8>,
    pub name: Seq<u8>,
    pub kind: u32,
}

/// One entry of a directory listing.
pub struct DirEntry {
    path: Vec<u8>,
    name: Vec<u8>,
    file_type: FileType,
}

impl View for DirEntry {
    type V = DirEntryView;

    closed spec fn view(&self) -> DirEntryView {
        DirEntryView { path: self.path@, name: self.name@, kind: self.file_type@ }
    }
}

/// A copy of a byte vector.
fn copy_bytes(v: &Vec<u8>) -> (c: Vec<u8>)
    ensures
        c@ == v@,
{
    let mut c: Vec<u8> = Vec::new();
    append_bytes(&mut c, v.as_slice(), 0, v.len());
    assert(v@.subrange(0, v@.len() as int) =~= v@);
    c
}

impl DirEntry {
    /// The full path of the entry.
    pub fn path(&self) -> (p: Vec<u8>)
        ensures
            p@ == self@.path,
    {
        copy_bytes(&self.path)
    }

    /// The name of the entry within its directory.
    pub fn file_name(&self) -> (n: Vec<u8>)
        ensures
            n@ == self@.name,
    {
        copy_bytes(&self.name)
    }

    /// The kind of the entry, as found when the directory was listed.
    pub fn file_type(&self) -> (r: Result<FileType, IoError>)
        ensures
            r is Ok && r->Ok_0@ == self@.kind,
            self@.kind == FILE_TYPE_REGULAR || self@.kind == FILE_TYPE_DIRECTORY,
    {
        proof {
            use_type_invariant(&self.file_type);
            FileType::lemma_kind_known(self.file_type);
        }
        Ok(self.file_type)
    }

    /// A copy of the entry.
    pub fn duplicate(&self) -> (e: DirEntry)
        ensures
            e@ == self@,
    {
        DirEntry { path: copy_bytes(&self.path), name: copy_bytes(&self.name), file_type: self.file_type }
    }
}

/// The entries of a listed directory, walked in order.
pub struct ReadDir {
    entries: Vec<DirEntry>,
    index: usize,
}

/// The entries of a walk and the position reached.
pub struct ReadDirView {
    pub entries: Seq<DirEntryView>,
    pub index: int,
}

impl View for ReadDir {
    type V = ReadDirView;

    closed spec fn view(&self) -> ReadDirView {
        ReadDirView { entries: self.entries@.map_values(|e: DirEntry| e@), index: self.index as int }
    }
}

impl ReadDir {
    /// How many entries the walk holds.
    pub fn entry_count(&self) -> (n: usize)
        ensures
            n == self@.entries.len(),
    {
        self.entries.len()
    }

    /// How many entries the walk has given so far.
    pub fn position(&self) -> (i: usize)
        ensures
            i == self@.index,
    {
        self.index
    }

    /// The next entry of the walk, or `None` once every entry has been given.
    pub fn next(&mut self) -> (r: Option<Result<DirEntry, IoError>>)
        ensures
            old(self)@.index < old(self)@.entries.len() ==> {
                &&& r is Some
                &&& r->Some_0 is Ok
                &&& r->Some_0->Ok_0@ == old(self)@.entries[old(self)@.index]
                &&& final(self)@ == (ReadDirView {
                    entries: old(self)@.entries,
                    index: old(self)@.index + 1,
                })
            },
            old(self)@.index >= old(self)@.entries.len() ==> r is None && final(self)@ == old(
                self,
            )@,
    {
        if self.index >= self.entries.len() {
            return None;
        }
        let entry = self.entries[self.index].duplicate();
        self.index = self.index + 1;
        Some(Ok(entry))
    }
}

/// A directory listing being turned into entries, one name at a time: each
/// name is read from the listing, its file is looked up, and its entry is
/// made before the next name is read.
pub struct ReadDirBuilder {
    parent: Vec<u8>,
    listing: Vec<u8>,
    cursor: usize,
    pending: Option<Vec<u8>>,
    entries: Vec<DirEntry>,
}

/// The directory path, its listing, how far the listing has been read, the
/// name read but not yet given its kind, and the entries made so far.
pub struct ReadDirBuilderView {
    pub parent: Seq<u8>,
    pub listing: Seq<u8>,
    pub cursor: int,
    pub pending: Option<Seq<u8>>,
    pub entries: Seq<DirEntryView>,
}

impl View for ReadDirBuilder {
    type V = ReadDirBuilderView;

    closed spec fn view(&self) -> ReadDirBuilderView {
        ReadDirBuilderView {
            parent: self.parent@,
            listing: self.listing@,
            cursor: self.cursor as int,
            pending: match self.pending {
                Some(p) => Some(p@),
                None => None,
            },
            entries: self.entries@.map_values(|e: DirEntry| e@),
        }
    }
}

/// The names of a sequence of entries.
pub open spec fn entry_names(entries: Seq<DirEntryView>) -> Seq<Seq<u8>> {
    Seq::new(entries.len(), |i: int| entries[i].name)
}

impl ReadDirBuilderView {
    /// The part of the listing not read yet.
    pub open spec fn rest(self) -> Seq<u8> {
        self.listing.subrange(self.cursor, self.listing.len() as int)
    }

    /// The names read so far: those of the entries, then the pending one.
    pub open spec fn taken(self) -> Seq<Seq<u8>> {
        match self.pending {
            Some(p) => entry_names(self.entries).push(p),
            None => entry_names(self.entries),
        }
    }

    /// The names read so far begin the listing's names, the rest of the
    /// listing holds the others, and each entry stands at its child path.
    pub open spec fn wf(self) -> bool {
        &&& 0 <= self.cursor <= self.listing.len()
        &&& listing_names(self.listing) == match listing_names(self.rest()) {
            Some(more) => Some(self.taken() + more),
            None => None::<Seq<Seq<u8>>>,
        }
        &&& forall|i: int|
            0 <= i < self.entries.len() ==> (#[trigger] self.entries[i]).path == child_path_bytes(
                self.parent,
                self.entries[i].name,
            )
    }
}

impl ReadDirBuilder {
    /// Starts turning the listing of directory `parent` into entries.
    pub fn new(parent: &[u8], listing: &[u8]) -> (b: ReadDirBuilder)
        ensures
            b@ == (ReadDirBuilderView {
                parent: parent@,
                listing: listing@,
                cursor: 0,
                pending: None,
                entries: Seq::empty(),
            }),
            b@.wf(),
    {
        let mut p: Vec<u8> = Vec::new();
        append_bytes(&mut p, parent, 0, parent.len());
        assert(parent@.subrange(0, parent@.len() as int) =~= parent@);
        let mut l: Vec<u8> = Vec::new();
        append_bytes(&mut l, listing, 0, listing.len());
        assert(listing@.subrange(0, listing@.len() as int) =~= listing@);
        let b = ReadDirBuilder { parent: p, listing: l, cursor: 0, pending: None, entries: Vec::new() };
        assert(b@.entries =~= Seq::<DirEntryView>::empty());
        assert(b@.rest() =~= listing@);
        assert(entry_names(b@.entries) =~= Seq::<Seq<u8>>::empty());
        proof {
            match listing_names(listing@) {
                Some(more) => {
                    assert(Seq::<Seq<u8>>::empty() + more =~= more);
                },
                None => {},
            }
        }
        b
    }

    /// Reads the next name of the listing and gives the path to look up for
    /// it; `None` once the listing is read through. An empty name is refused.
    pub fn next_path(&mut self) -> (r: Result<Option<Vec<u8>>, IoError>)
        requires
            old(self)@.wf(),
            old(self)@.pending is None,
        ensures
            ({
                let rest = old(self)@.rest();
                let e = first_newline(rest);
                let name = rest.subrange(0, e as int);
                if rest.len() == 0 {
                    r == Ok::<Option<Vec<u8>>, IoError>(None) && final(self)@ == old(self)@
                } else if e == 0 {
                    r == Err::<Option<Vec<u8>>, IoError>(IoError::UnsupportedPlatform)
                        && final(self)@ == old(self)@
                } else {
                    &&& r is Ok
                    &&& r->Ok_0 is Some
                    &&& r->Ok_0->Some_0@ == child_path_bytes(old(self)@.parent, name)
                    &&& final(self)@ == (ReadDirBuilderView {
                        cursor: old(self)@.cursor + e + (if e < rest.len() {
                            1int
                        } else {
                            0
                        }),
                        pending: Some(name),
                        ..old(self)@
                    })
                }
            }),
            final(self)@.wf(),
    {
        let len = self.listing.len();
        let start = self.cursor;
        let ghost rest = old(self)@.rest();
        if start >= len {
            return Ok(None);
        }
        let end = line_end(self.listing.as_slice(), start);
        proof {
            crate::dir::lemma_first_newline(rest);
        }
        if end == start {
            return Err(IoError::UnsupportedPlatform);
        }
        let ghost e = first_newline(rest);
        let mut name: Vec<u8> = Vec::new();
        append_bytes(&mut name, self.listing.as_slice(), start, end);
        assert(name@ =~= rest.subrange(0, e as int));
        let path = child_path(self.parent.as_slice(), name.as_slice());
        let next = if end < len {
            end + 1
        } else {
            end
        };
        proof {
            let rest2 = if e < rest.len() {
                rest.subrange(e + 1 as int, rest.len() as int)
            } else {
                Seq::empty()
            };
            assert(self.listing@.subrange(next as int, len as int) =~= rest2);
            match listing_names(rest2) {
                Some(more) => {
                    assert(old(self)@.taken() + (seq![name@] + more) =~= old(self)@.taken().push(
                        name@,
                    ) + more);
                },
                None => {},
            }
        }
        self.cursor = next;
        self.pending = Some(name);
        Ok(Some(path))
    }

    /// Makes the entry of the pending name, whose file has attributes `attr`.
    pub fn add(&mut self, attr: &FileAttr)
        requires
            old(self)@.wf(),
            old(self)@.pending is Some,
        ensures
            final(self)@.wf(),
            final(self)@ == (ReadDirBuilderView {
                entries: old(self)@.entries.push(
                    DirEntryView {
                        path: child_path_bytes(old(self)@.parent, old(self)@.pending->Some_0),
                        name: old(self)@.pending->Some_0,
                        kind: packed_kind(attr@),
                    },
                ),
                pending: None,
                ..old(self)@
            }),
    {
        let name = self.pending.take().unwrap();
        let path = child_path(self.parent.as_slice(), name.as_slice());
        let entry = DirEntry { path, name, file_type: attr.file_type() };
        self.entries.push(entry);
        assert(self@.entries =~= old(self)@.entries.push(entry@));
        assert(entry_names(self@.entries) =~= entry_names(old(self)@.entries).push(entry@.name));
    }

    /// The walk over the finished entries, from the first. Their names are
    /// the names of the whole listing, in order.
    pub fn finish(self) -> (r: ReadDir)
        requires
            self@.wf(),
            self@.pending is None,
            self@.cursor == self@.listing.len(),
        ensures
            r@ == (ReadDirView { entries: self@.entries, index: 0 }),
            listing_names(self@.listing) == Some(entry_names(self@.entries)),
    {
        assert(self@.rest() =~= Seq::<u8>::empty());
        assert(entry_names(self@.entries) + Seq::<Seq<u8>>::empty() =~= entry_names(
            self@.entries,
        ));
        ReadDir { entries: self.entries, index: 0 }
    }
}

/// How a child path is joined: an absolute name (one starting with `/`) is
/// the path itself; otherwise, after a non-empty parent that does not end
/// with `/`, exactly one `/` comes between parent and name; after an empty
/// parent or one ending with `/`, the name follows the parent directly.
pub proof fn lemma_child_path_joins(parent: Seq<u8>, name: Seq<u8>)
    ensures
        name.len() > 0 && name[0] == 47u8 ==> child_path_bytes(parent, name) == name,
        !(name.len() > 0 && name[0] == 47u8) && parent.len() > 0 && parent[parent.len() - 1]
            != 47u8 ==> {
            let p = child_path_bytes(parent, name);
            &&& p == parent + seq![47u8] + name
            &&& p.len() == parent.len() + 1 + name.len()
            &&& p[parent.len() as int] == 47u8
        },
        !(name.len() > 0 && name[0] == 47u8) && (parent.len() == 0 || parent[parent.len() - 1]
            == 47u8) ==> child_path_bytes(parent, name) == parent + name,
{
    if !(name.len() > 0 && name[0] == 47u8) && parent.len() > 0 && parent[parent.len() - 1] != 47u8 {
        let p = child_path_bytes(parent, name);
        assert(p[parent.len() as int] == 47u8);
    }
}

} // verus!
