//! A snapshot of one device directory: its path and its attribute files.
use vstd::prelude::*;

use crate::text::{same_text, trim, trimmed};
use crate::utils::{AcpiClientError, Failure};

verus! {

/// The abstract content of a device directory. `files` maps each attribute
/// file's name to its text, or to `None` when the file exists but could not
/// be read.
pub struct DirView {
    pub path: Seq<char>,
    pub files: Map<Seq<char>, Option<Seq<char>>>,
}

struct AttributeFile {
    name: String,
    contents: Option<String>,
}

/// The attribute files of one device directory, as read at one moment.
pub struct DeviceDir {
    path: String,
    files: Vec<AttributeFile>,
}

spec fn contents_view(c: Option<String>) -> Option<Seq<char>> {
    match c {
        Some(t) => Some(t@),
        None => None,
    }
}

/// Later entries replace earlier ones of the same name.
spec fn files_map(s: Seq<AttributeFile>) -> Map<Seq<char>, Option<Seq<char>>>
    decreases s.len(),
{
    if s.len() == 0 {
        Map::empty()
    } else {
        files_map(s.drop_last()).insert(s.last().name@, contents_view(s.last().contents))
    }
}

proof fn lemma_files_map_prefix(s: Seq<AttributeFile>, i: int, n: Seq<char>)
    requires
        0 <= i <= s.len(),
        forall|j: int| i <= j < s.len() ==> (#[trigger] s[j]).name@ != n,
    ensures
        files_map(s).contains_key(n) == files_map(s.subrange(0, i)).contains_key(n),
        files_map(s).contains_key(n) ==> files_map(s)[n] == files_map(s.subrange(0, i))[n],
    decreases s.len() - i,
{
    if i < s.len() {
        lemma_files_map_prefix(s, i + 1, n);
        assert(s.subrange(0, i + 1).drop_last() =~= s.subrange(0, i));
    } else {
        assert(s.subrange(0, i) =~= s);
    }
}

impl View for DeviceDir {
    type V = DirView;

    closed spec fn view(&self) -> DirView {
        DirView { path: self.path@, files: files_map(self.files@) }
    }
}

/// What the optional form of an attribute read gives: `None` when the file
/// is absent, an I/O failure when it cannot be read, else its trimmed text.
pub open spec fn attribute_text(d: DirView, name: Seq<char>) -> Result<Option<Seq<char>>, Failure> {
    if !d.files.contains_key(name) {
        Ok(None)
    } else {
        match d.files[name] {
            Some(t) => Ok(Some(trimmed(t))),
            None => Err(Failure::Io(name)),
        }
    }
}

/// The abstract forms of a sequence of device directories.
pub open spec fn dir_views(ds: Seq<DeviceDir>) -> Seq<DirView> {
    ds.map_values(|d: DeviceDir| d@)
}

impl DeviceDir {
    /// An empty snapshot of the directory at `path`.
    pub fn new(path: String) -> (r: DeviceDir)
        ensures
            r@.path == path@,
            r@.files == Map::<Seq<char>, Option<Seq<char>>>::empty(),
    {
        DeviceDir { path, files: Vec::new() }
    }

    /// Records the attribute file `name` with the text it held.
    pub fn add_file(&mut self, name: String, contents: String)
        ensures
            final(self)@.path == old(self)@.path,
            final(self)@.files == old(self)@.files.insert(name@, Some(contents@)),
    {
        let ghost before = self.files@;
        self.files.push(AttributeFile { name, contents: Some(contents) });
        proof {
            assert(self.files@.drop_last() =~= before);
        }
    }

    /// Records the attribute file `name` as present but unreadable.
    pub fn add_unreadable(&mut self, name: String)
        ensures
            final(self)@.path == old(self)@.path,
            final(self)@.files == old(self)@.files.insert(name@, None),
    {
        let ghost before = self.files@;
        self.files.push(AttributeFile { name, contents: None });
        proof {
            assert(self.files@.drop_last() =~= before);
        }
    }

    /// The path of the directory.
    pub fn path(&self) -> (r: &str)
        ensures
            r@ == self@.path,
    {
        self.path.as_str()
    }

    fn find(&self, name: &str) -> (r: Option<usize>)
        ensures
            match r {
                Some(i) => {
                    &&& i < self.files@.len()
                    &&& self@.files.contains_key(name@)
                    &&& self@.files[name@] == contents_view(self.files@[i as int].contents)
                },
                None => !self@.files.contains_key(name@),
            },
    {
        let mut i: usize = self.files.len();
        while i > 0
            invariant
                i <= self.files@.len(),
                forall|j: int| i <= j < self.files@.len() ==> (#[trigger] self.files@[j]).name@ != name@,
            decreases i,
        {
            if same_text(self.files[i - 1].name.as_str(), name) {
                proof {
                    let s = self.files@;
                    lemma_files_map_prefix(s, i as int, name@);
                    assert(s.subrange(0, i as int).drop_last() =~= s.subrange(0, i - 1));
                }
                return Some(i - 1);
            }
            i = i - 1;
        }
        proof {
            lemma_files_map_prefix(self.files@, 0, name@);
        }
        None
    }

    /// Whether the attribute file `name` exists.
    pub fn has_attribute(&self, name: &str) -> (r: bool)
        ensures
            r == self@.files.contains_key(name@),
    {
        self.find(name).is_some()
    }

    /// The trimmed text of the attribute file `name`; `Ok(None)` when there is
    /// no such file, an I/O error when it exists but could not be read.
    pub fn read_attribute(&self, name: &str) -> (r: Result<Option<String>, AcpiClientError>)
        ensures
            match r {
                Ok(Some(t)) => attribute_text(self@, name@) == Ok::<Option<Seq<char>>, Failure>(Some(t@)),
                Ok(None) => attribute_text(self@, name@) == Ok::<Option<Seq<char>>, Failure>(None),
                Err(e) => attribute_text(self@, name@) == Err::<Option<Seq<char>>, Failure>(e@),
            },
    {
        match self.find(name) {
            None => Ok(None),
            Some(i) => match &self.files[i].contents {
                Some(t) => Ok(Some(trim(t.as_str()))),
                None => Err(AcpiClientError::Io(String::from_str(name))),
            },
        }
    }
}

} // verus!
