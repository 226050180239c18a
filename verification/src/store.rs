//! An in-memory file store: the map from path to contents that the
//! remediation engine rewrites.  The process-level runner outside the
//! library mirrors each write with a write-temp-then-rename on disk, so a
//! store entry always stands for a fully written file, never a partial one.

use vstd::prelude::*;

verus! {

/// A collection of text files keyed by path.
pub struct FileStore {
    m: vstd::hash_map::StringHashMap<String>,
}

impl View for FileStore {
    type V = Map<Seq<char>, Seq<char>>;

    closed spec fn view(&self) -> Map<Seq<char>, Seq<char>> {
        Map::new(|k: Seq<char>| self.m@.contains_key(k), |k: Seq<char>| self.m@[k]@)
    }
}

impl FileStore {
    pub fn new() -> (r: Self)
        ensures
            r@ == Map::<Seq<char>, Seq<char>>::empty(),
    {
        let r = FileStore { m: vstd::hash_map::StringHashMap::new() };
        proof {
            assert(r@ =~= Map::<Seq<char>, Seq<char>>::empty());
        }
        r
    }

    /// Create or fully replace the file at `path`.
    pub fn write(&mut self, path: String, content: String)
        ensures
            final(self)@ == old(self)@.insert(path@, content@),
    {
        let ghost pv = path@;
        let ghost cv = content@;
        self.m.insert(path, content);
        proof {
            assert(self@ =~= old(self)@.insert(pv, cv));
        }
    }

    /// The contents of the file at `path`, if it exists.
    pub fn read(&self, path: &String) -> (r: Option<&String>)
        ensures
            match r {
                Some(c) => self@.contains_key(path@) && c@ == self@[path@],
                None => !self@.contains_key(path@),
            },
    {
        self.m.get(path.as_str())
    }

    pub fn contains(&self, path: &String) -> (r: bool)
        ensures
            r == self@.contains_key(path@),
    {
        self.m.contains_key(path.as_str())
    }

    pub fn len(&self) -> (n: usize)
        ensures
            n == self@.dom().len(),
    {
        proof {
            assert(self@.dom() =~= self.m@.dom());
        }
        self.m.len()
    }
}

} // verus!
