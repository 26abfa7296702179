//! The asset bundle: a frozen mapping from relative path to file bytes.
//!
//! The bundle is filled once, when the server starts, and only read after
//! that. A lookup hashes the path and touches nothing outside memory.

use vstd::hash_map::StringHashMap;
use vstd::prelude::*;

verus! {

/// The bundled frontend files, looked up by exact relative path.
pub struct AssetBundle {
    files: StringHashMap<Vec<u8>>,
}

impl View for AssetBundle {
    type V = Map<Seq<char>, Seq<u8>>;

    /// The bundle as a mapping from path to bytes.
    closed spec fn view(&self) -> Map<Seq<char>, Seq<u8>> {
        self.files@.map_values(|data: Vec<u8>| data@)
    }
}

impl AssetBundle {
    /// The empty bundle.
    pub fn new() -> (bundle: AssetBundle)
        ensures
            bundle@ == Map::<Seq<char>, Seq<u8>>::empty(),
    {
        let bundle = AssetBundle { files: StringHashMap::new() };
        assert(bundle@ =~= Map::<Seq<char>, Seq<u8>>::empty());
        bundle
    }

    /// The bytes stored under `path`, if the bundle holds that path.
    pub fn get(&self, path: &str) -> (r: Option<&Vec<u8>>)
        ensures
            match r {
                Some(data) => self@.contains_key(path@) && data@ == self@[path@],
                None => !self@.contains_key(path@),
            },
    {
        self.files.get(path)
    }

    /// Whether the bundle holds `path`.
    pub fn contains(&self, path: &str) -> (b: bool)
        ensures
            b == self@.contains_key(path@),
    {
        self.files.contains_key(path)
    }

    /// Stores `data` under `path`, in place of what was stored there.
    pub fn insert(&mut self, path: String, data: Vec<u8>)
        ensures
            final(self)@ == old(self)@.insert(path@, data@),
    {
        let ghost p = path@;
        let ghost d = data@;
        self.files.insert(path, data);
        assert(self@ =~= old(self)@.insert(p, d));
    }
}

} // verus!
