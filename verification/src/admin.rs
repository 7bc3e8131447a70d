use vstd::prelude::*;

use crate::text::str_eq;

verus! {

/// Path of the admin console's entry page.
pub const INDEX_PATH: &'static str = "index.html";

/// One file of the admin console's bundled assets.
pub struct AssetFile {
    pub path: String,
    pub contents: Vec<u8>,
}

/// The admin console's bundled assets, keyed by their path. No two files
/// share a path.
pub struct AssetDir {
    files: Vec<AssetFile>,
}

impl AssetDir {
    #[verifier::type_invariant]
    closed spec fn distinct_paths(self) -> bool {
        forall|i: int, j: int|
            0 <= i < j < self.files@.len() ==> self.files@[i].path@ != self.files@[j].path@
    }

    closed spec fn holds(self, i: int, path: Seq<char>) -> bool {
        0 <= i < self.files@.len() && self.files@[i].path@ == path
    }
}

impl View for AssetDir {
    type V = Map<Seq<char>, Seq<u8>>;

    /// The assets as a map from path to contents.
    closed spec fn view(&self) -> Map<Seq<char>, Seq<u8>> {
        Map::new(
            |p: Seq<char>| exists|i: int| self.holds(i, p),
            |p: Seq<char>| self.files@[choose|i: int| self.holds(i, p)].contents@,
        )
    }
}

impl AssetDir {
    /// An empty asset directory.
    pub fn new() -> (d: AssetDir)
        ensures
            d@ == Map::<Seq<char>, Seq<u8>>::empty(),
    {
        let d = AssetDir { files: Vec::new() };
        assert(d@ =~= Map::<Seq<char>, Seq<u8>>::empty());
        d
    }

    /// Index of the file stored at `path`, if any.
    fn position(&self, path: &str) -> (r: Option<usize>)
        ensures
            match r {
                Some(i) => self.holds(i as int, path@),
                None => forall|i: int| !self.holds(i, path@),
            },
    {
        let n = self.files.len();
        let mut i: usize = 0;
        while i < n
            invariant
                n == self.files@.len(),
                i <= n,
                forall|j: int| 0 <= j < i ==> !self.holds(j, path@),
            decreases n - i,
        {
            if str_eq(self.files[i].path.as_str(), path) {
                return Some(i);
            }
            i = i + 1;
        }
        None
    }

    /// The file stored at `path`.
    pub fn get_file(&self, path: &str) -> (r: Option<&AssetFile>)
        ensures
            match r {
                Some(f) => self@.contains_key(path@) && f.path@ == path@ && f.contents@
                    == self@[path@],
                None => !self@.contains_key(path@),
            },
    {
        proof {
            use_type_invariant(self);
        }
        match self.position(path) {
            Some(i) => {
                proof {
                    let k = choose|k: int| self.holds(k, path@);
                    assert(self.holds(k, path@));
                    if k < i {
                        assert(self.files@[k].path@ != self.files@[i as int].path@);
                    } else if i < k {
                        assert(self.files@[i as int].path@ != self.files@[k].path@);
                    }
                }
                Some(&self.files[i])
            },
            None => None,
        }
    }

    /// Stores `contents` at `path`, replacing what was stored there.
    pub fn insert(&mut self, path: String, contents: Vec<u8>)
        ensures
            final(self)@ == old(self)@.insert(path@, contents@),
    {
        proof {
            use_type_invariant(&*self);
        }
        let ghost before = *self;
        let ghost p = path@;
        match self.position(path.as_str()) {
            Some(i) => {
                let mut files = Vec::new();
                std::mem::swap(&mut files, &mut self.files);
                files.set(i, AssetFile { path, contents });
                assert forall|a: int, b: int| 0 <= a < b < files@.len() implies files@[a].path@
                    != files@[b].path@ by {
                    assert(before.files@[a].path@ != before.files@[b].path@);
                }
                self.files = files;
                proof {
                    assert forall|q: Seq<char>| #[trigger] self@.contains_key(q)
                        == before@.insert(p, contents@).contains_key(q) by {
                        if q != p {
                            if exists|k: int| before.holds(k, q) {
                                let k = choose|k: int| before.holds(k, q);
                                assert(self.holds(k, q));
                            }
                            if exists|k: int| self.holds(k, q) {
                                let k = choose|k: int| self.holds(k, q);
                                assert(before.holds(k, q));
                            }
                        } else {
                            assert(self.holds(i as int, q));
                        }
                    }
                    assert forall|q: Seq<char>| #[trigger] self@.contains_key(q) implies self@[q]
                        == before@.insert(p, contents@)[q] by {
                        let k = choose|k: int| self.holds(k, q);
                        if q != p {
                            let k0 = choose|k0: int| before.holds(k0, q);
                            assert(self.holds(k0, q));
                            if k < k0 {
                                assert(self.files@[k].path@ != self.files@[k0].path@);
                            } else if k0 < k {
                                assert(self.files@[k0].path@ != self.files@[k].path@);
                            }
                        } else {
                            if k < i {
                                assert(self.files@[k].path@ != self.files@[i as int].path@);
                            } else if i < k {
                                assert(self.files@[i as int].path@ != self.files@[k].path@);
                            }
                        }
                    }
                    assert(self@ =~= before@.insert(p, contents@));
                }
            },
            None => {
                let mut files = Vec::new();
                std::mem::swap(&mut files, &mut self.files);
                files.push(AssetFile { path, contents });
                assert forall|a: int, b: int| 0 <= a < b < files@.len() implies files@[a].path@
                    != files@[b].path@ by {
                    if b < before.files@.len() {
                        assert(before.files@[a].path@ != before.files@[b].path@);
                    } else {
                        assert(!before.holds(a, p));
                    }
                }
                self.files = files;
                proof {
                    let n = before.files@.len() as int;
                    assert forall|q: Seq<char>| #[trigger] self@.contains_key(q)
                        == before@.insert(p, contents@).contains_key(q) by {
                        if q != p {
                            if exists|k: int| before.holds(k, q) {
                                let k = choose|k: int| before.holds(k, q);
                                assert(self.holds(k, q));
                            }
                            if exists|k: int| self.holds(k, q) {
                                let k = choose|k: int| self.holds(k, q);
                                assert(before.holds(k, q));
                            }
                        } else {
                            assert(self.holds(n, q));
                        }
                    }
                    assert forall|q: Seq<char>| #[trigger] self@.contains_key(q) implies self@[q]
                        == before@.insert(p, contents@)[q] by {
                        let k = choose|k: int| self.holds(k, q);
                        if q != p {
                            let k0 = choose|k0: int| before.holds(k0, q);
                            assert(self.holds(k0, q));
                            if k < k0 {
                                assert(self.files@[k].path@ != self.files@[k0].path@);
                            } else if k0 < k {
                                assert(self.files@[k0].path@ != self.files@[k].path@);
                            }
                        } else {
                            assert(self.holds(n, q));
                            if k < n {
                                assert(self.files@[k].path@ != self.files@[n].path@);
                            }
                        }
                    }
                    assert(self@ =~= before@.insert(p, contents@));
                }
            },
        }
    }
}

/// The path whose file the console serves for a request of `requested`
/// (`None` when the request named no usable path): the requested file when it
/// exists, otherwise the entry page, otherwise nothing.
pub open spec fn served_path(assets: Map<Seq<char>, Seq<u8>>, requested: Option<Seq<char>>) -> Option<
    Seq<char>,
> {
    let wanted = match requested {
        Some(p) => p,
        None => INDEX_PATH@,
    };
    if assets.contains_key(wanted) {
        Some(wanted)
    } else if assets.contains_key(INDEX_PATH@) {
        Some(INDEX_PATH@)
    } else {
        None
    }
}

/// The path the console's root serves: the entry page when it exists.
pub open spec fn index_path(assets: Map<Seq<char>, Seq<u8>>) -> Option<Seq<char>> {
    if assets.contains_key(INDEX_PATH@) {
        Some(INDEX_PATH@)
    } else {
        None
    }
}

/// The file served for a request of `path` below the admin console, falling
/// back to the entry page so that client-side routes load the console.
pub fn files<'a>(assets: &'a AssetDir, path: Option<&str>) -> (r: Option<&'a AssetFile>)
    ensures
        match r {
            Some(f) => served_path(assets@, opt_view(path)) == Some(f.path@) && f.contents@
                == assets@[f.path@],
            None => served_path(assets@, opt_view(path)) is None,
        },
{
    let file = match path {
        Some(p) => p,
        None => INDEX_PATH,
    };
    match assets.get_file(file) {
        Some(f) => Some(f),
        None => assets.get_file(INDEX_PATH),
    }
}

/// The entry page of the admin console.
pub fn admin_index(assets: &AssetDir) -> (r: Option<&AssetFile>)
    ensures
        match r {
            Some(f) => index_path(assets@) == Some(f.path@) && f.contents@ == assets@[f.path@],
            None => index_path(assets@) is None,
        },
{
    assets.get_file(INDEX_PATH)
}

/// The view of an optional string slice.
pub open spec fn opt_view(s: Option<&str>) -> Option<Seq<char>> {
    match s {
        Some(p) => Some(p@),
        None => None,
    }
}

/// A request that names no path, or a path with no file, is served the same
/// file as the console's root.
pub proof fn lemma_missing_path_serves_index(
    assets: Map<Seq<char>, Seq<u8>>,
    requested: Option<Seq<char>>,
)
    requires
        requested matches Some(p) ==> !assets.contains_key(p),
    ensures
        served_path(assets, requested) == index_path(assets),
{
}

/// A request for a path that holds a file is served that very file.
pub proof fn lemma_present_path_served(assets: Map<Seq<char>, Seq<u8>>, p: Seq<char>)
    requires
        assets.contains_key(p),
    ensures
        served_path(assets, Some(p)) == Some(p),
{
}

} // verus!
