//! The file store the installer works against: a flat collection of files,
//! each a path with text content and an executable bit, viewed as a map from
//! path to content and mode.

use vstd::prelude::*;
use crate::strutil::str_eq;

verus! {

/// One file: its path, its text, and whether it is marked executable.
#[derive(Debug, Clone, PartialEq, Eq)]
pub struct FsFile {
    pub path: String,
    pub content: String,
    pub executable: bool,
}

/// Whether some file in `s` has path `k`.
pub open spec fn has_key(s: Seq<FsFile>, k: Seq<char>) -> bool {
    exists|i: int| 0 <= i < s.len() && s[i].path@ == k
}

/// The index of the file with path `k`.
pub open spec fn idx_of(s: Seq<FsFile>, k: Seq<char>) -> int {
    choose|i: int| 0 <= i < s.len() && s[i].path@ == k
}

/// The flat file store.
#[derive(Debug, Clone, PartialEq, Eq)]
pub struct FileSys {
    files: Vec<FsFile>,
}

impl View for FileSys {
    type V = Map<Seq<char>, (Seq<char>, bool)>;

    closed spec fn view(&self) -> Map<Seq<char>, (Seq<char>, bool)> {
        Map::new(
            |k: Seq<char>| has_key(self.files@, k),
            |k: Seq<char>|
                (
                    self.files@[idx_of(self.files@, k)].content@,
                    self.files@[idx_of(self.files@, k)].executable,
                ),
        )
    }
}

impl FileSys {
    /// No two files share a path.
    pub closed spec fn wf(&self) -> bool {
        forall|i: int, j: int|
            0 <= i < j < self.files@.len() ==> self.files@[i].path@ != self.files@[j].path@
    }

    /// An empty store.
    pub fn new() -> (r: FileSys)
        ensures
            r.wf(),
            r@ == Map::<Seq<char>, (Seq<char>, bool)>::empty(),
    {
        let r = FileSys { files: Vec::new() };
        proof {
            assert(r@ =~= Map::<Seq<char>, (Seq<char>, bool)>::empty());
        }
        r
    }

    /// The index holding `path`, if any.
    fn find_idx(&self, path: &str) -> (r: Option<usize>)
        ensures
            match r {
                Some(i) => i < self.files@.len() && self.files@[i as int].path@ == path@,
                None => !has_key(self.files@, path@),
            },
    {
        let mut i: usize = 0;
        while i < self.files.len()
            invariant
                i <= self.files@.len(),
                forall|j: int| 0 <= j < i ==> self.files@[j].path@ != path@,
            decreases self.files@.len() - i,
        {
            if str_eq(self.files[i].path.as_str(), path) {
                return Some(i);
            }
            i = i + 1;
        }
        None
    }

    /// Whether a file exists at `path`.
    pub fn has_file(&self, path: &str) -> (r: bool)
        ensures
            r == self@.contains_key(path@),
    {
        match self.find_idx(path) {
            Some(_) => true,
            None => false,
        }
    }

    /// The content of the file at `path`, if present.
    pub fn read(&self, path: &str) -> (r: Option<String>)
        requires
            self.wf(),
        ensures
            match r {
                Some(c) => self@.contains_key(path@) && self@[path@].0 == c@,
                None => !self@.contains_key(path@),
            },
    {
        match self.find_idx(path) {
            Some(i) => {
                proof {
                    let s = self.files@;
                    let j = idx_of(s, path@);
                    assert(s[j].path@ == path@);
                    assert(j == i as int);
                }
                Some(self.files[i].content.clone())
            },
            None => None,
        }
    }

    /// Whether the file at `path` is marked executable; a missing file is not.
    pub fn is_executable(&self, path: &str) -> (r: bool)
        requires
            self.wf(),
        ensures
            r == (self@.contains_key(path@) && self@[path@].1),
    {
        match self.find_idx(path) {
            Some(i) => {
                proof {
                    let s = self.files@;
                    let j = idx_of(s, path@);
                    assert(s[j].path@ == path@);
                    assert(j == i as int);
                }
                self.files[i].executable
            },
            None => false,
        }
    }

    /// Create or overwrite the file at `path`.
    pub fn write(&mut self, path: &str, content: String, executable: bool)
        requires
            old(self).wf(),
        ensures
            final(self).wf(),
            final(self)@ == old(self)@.insert(path@, (content@, executable)),
    {
        let entry = FsFile { path: path.to_owned(), content, executable };
        let ghost k = path@;
        let ghost v = (entry.content@, entry.executable);
        let ghost s1 = self.files@;
        match self.find_idx(path) {
            Some(i) => {
                self.files.set(i, entry);
                proof {
                    let s2 = self.files@;
                    assert(forall|j: int| 0 <= j < s2.len() ==> s2[j].path@ == s1[j].path@);
                    assert(s2[i as int].path@ == k);
                    self.lemma_view_insert(s1, s2, i as int, k, v);
                }
            },
            None => {
                self.files.push(entry);
                proof {
                    let s2 = self.files@;
                    assert(s2 =~= s1.push(entry));
                    self.lemma_view_push(s1, s2, k, v);
                }
            },
        }
    }

    /// Remove the file at `path`, if present.
    pub fn remove(&mut self, path: &str)
        requires
            old(self).wf(),
        ensures
            final(self).wf(),
            final(self)@ == old(self)@.remove(path@),
    {
        let ghost k = path@;
        let ghost s1 = self.files@;
        match self.find_idx(path) {
            Some(i) => {
                self.files.remove(i);
                proof {
                    let s2 = self.files@;
                    assert(s2 =~= s1.remove(i as int));
                    self.lemma_view_remove(s1, s2, i as int, k);
                }
            },
            None => {
                proof {
                    assert(!old(self)@.contains_key(k));
                    assert(self@ =~= old(self)@.remove(k));
                }
            },
        }
    }

    /// Every file of the store, for unverified callers to mirror out.
    pub fn entries(&self) -> (r: &Vec<FsFile>)
        requires
            self.wf(),
        ensures
            forall|i: int|
                0 <= i < r@.len() ==> self@.contains_key(#[trigger] r@[i].path@) && self@[r@[i].path@]
                    == (r@[i].content@, r@[i].executable),
    {
        proof {
            let s = self.files@;
            assert forall|i: int| 0 <= i < s.len() implies self@.contains_key(#[trigger] s[i].path@)
                && self@[s[i].path@] == (s[i].content@, s[i].executable) by {
                assert(has_key(s, s[i].path@));
                let j = idx_of(s, s[i].path@);
                assert(0 <= j < s.len() && s[j].path@ == s[i].path@);
                assert(j == i);
            }
        }
        &self.files
    }

    /// After an in-place overwrite at `i`, the view gains exactly the binding
    /// `k` to `v`.
    proof fn lemma_view_insert(
        &self,
        s1: Seq<FsFile>,
        s2: Seq<FsFile>,
        i: int,
        k: Seq<char>,
        v: (Seq<char>, bool),
    )
        requires
            self.files@ == s2,
            s2.len() == s1.len(),
            forall|j: int| 0 <= j < s2.len() ==> s2[j].path@ == s1[j].path@,
            forall|j: int, l: int| 0 <= j < l < s1.len() ==> s1[j].path@ != s1[l].path@,
            0 <= i < s2.len(),
            s2[i].path@ == k,
            s2[i].content@ == v.0,
            s2[i].executable == v.1,
            forall|j: int| 0 <= j < s2.len() && j != i ==> s2[j] == s1[j],
        ensures
            self.wf(),
            self@ == Map::new(|k2: Seq<char>| has_key(s1, k2), |k2: Seq<char>|
                (s1[idx_of(s1, k2)].content@, s1[idx_of(s1, k2)].executable)).insert(k, v),
    {
        let m1 = Map::new(
            |k2: Seq<char>| has_key(s1, k2),
            |k2: Seq<char>| (s1[idx_of(s1, k2)].content@, s1[idx_of(s1, k2)].executable),
        );
        assert forall|k2: Seq<char>| #[trigger] has_key(s2, k2) implies has_key(s1, k2) by {
            let j = choose|j: int| 0 <= j < s2.len() && s2[j].path@ == k2;
            assert(s1[j].path@ == k2);
        }
        assert forall|k2: Seq<char>| #[trigger] has_key(s1, k2) implies has_key(s2, k2) by {
            let j = choose|j: int| 0 <= j < s1.len() && s1[j].path@ == k2;
            assert(s2[j].path@ == k2);
        }
        assert(has_key(s1, k));
        assert forall|k2: Seq<char>| #[trigger] self@.dom().contains(k2) implies self@[k2]
            == m1.insert(k, v)[k2] by {
            let j = idx_of(s2, k2);
            assert(has_key(s2, k2));
            assert(0 <= j < s2.len() && s2[j].path@ == k2);
            if k2 == k {
                if j != i {
                    assert(s2[j].path@ == s2[i].path@);
                    assert(s1[j].path@ == s1[i].path@);
                    assert(false);
                }
            } else {
                assert(j != i);
                let j1 = idx_of(s1, k2);
                assert(has_key(s1, k2));
                assert(0 <= j1 < s1.len() && s1[j1].path@ == k2);
                if j1 != j {
                    assert(s1[j1].path@ == s1[j].path@);
                    assert(false);
                }
                assert(s2[j] == s1[j]);
            }
        }
        assert(self@ =~= m1.insert(k, v));
    }

    /// After a push of a fresh path, the view gains exactly the binding `k`
    /// to `v`.
    proof fn lemma_view_push(
        &self,
        s1: Seq<FsFile>,
        s2: Seq<FsFile>,
        k: Seq<char>,
        v: (Seq<char>, bool),
    )
        requires
            self.files@ == s2,
            s2.len() == s1.len() + 1,
            forall|j: int| 0 <= j < s1.len() ==> s2[j] == s1[j],
            forall|j: int, l: int| 0 <= j < l < s1.len() ==> s1[j].path@ != s1[l].path@,
            !has_key(s1, k),
            s2[s1.len() as int].path@ == k,
            s2[s1.len() as int].content@ == v.0,
            s2[s1.len() as int].executable == v.1,
        ensures
            self.wf(),
            self@ == Map::new(|k2: Seq<char>| has_key(s1, k2), |k2: Seq<char>|
                (s1[idx_of(s1, k2)].content@, s1[idx_of(s1, k2)].executable)).insert(k, v),
    {
        let m1 = Map::new(
            |k2: Seq<char>| has_key(s1, k2),
            |k2: Seq<char>| (s1[idx_of(s1, k2)].content@, s1[idx_of(s1, k2)].executable),
        );
        let n = s1.len() as int;
        assert forall|j: int, l: int| 0 <= j < l < s2.len() implies s2[j].path@ != s2[l].path@ by {
            if l == n {
                assert(s2[j] == s1[j]);
                assert(has_key(s1, s1[j].path@));
            }
        }
        assert forall|k2: Seq<char>| #[trigger] has_key(s2, k2) && k2 != k implies has_key(
            s1,
            k2,
        ) by {
            let j = choose|j: int| 0 <= j < s2.len() && s2[j].path@ == k2;
            assert(j != n);
            assert(s1[j].path@ == k2);
        }
        assert forall|k2: Seq<char>| #[trigger] has_key(s1, k2) implies has_key(s2, k2) by {
            let j = choose|j: int| 0 <= j < s1.len() && s1[j].path@ == k2;
            assert(s2[j].path@ == k2);
        }
        assert(has_key(s2, k));
        assert forall|k2: Seq<char>| #[trigger] self@.dom().contains(k2) implies self@[k2]
            == m1.insert(k, v)[k2] by {
            let j = idx_of(s2, k2);
            assert(has_key(s2, k2));
            assert(0 <= j < s2.len() && s2[j].path@ == k2);
            if k2 == k {
                if j != n {
                    assert(s1[j].path@ == k);
                    assert(has_key(s1, k));
                    assert(false);
                }
            } else {
                assert(j != n);
                let j1 = idx_of(s1, k2);
                assert(has_key(s1, k2));
                assert(0 <= j1 < s1.len() && s1[j1].path@ == k2);
                if j1 != j {
                    assert(s1[j1].path@ == s1[j].path@);
                    assert(false);
                }
                assert(s2[j] == s1[j]);
            }
        }
        assert(self@ =~= m1.insert(k, v));
    }

    /// After removing the one file at `i` with path `k`, the view loses
    /// exactly the binding for `k`.
    proof fn lemma_view_remove(&self, s1: Seq<FsFile>, s2: Seq<FsFile>, i: int, k: Seq<char>)
        requires
            self.files@ == s2,
            0 <= i < s1.len(),
            s2 == s1.remove(i),
            forall|j: int, l: int| 0 <= j < l < s1.len() ==> s1[j].path@ != s1[l].path@,
            s1[i].path@ == k,
        ensures
            self.wf(),
            self@ == Map::new(|k2: Seq<char>| has_key(s1, k2), |k2: Seq<char>|
                (s1[idx_of(s1, k2)].content@, s1[idx_of(s1, k2)].executable)).remove(k),
    {
        let m1 = Map::new(
            |k2: Seq<char>| has_key(s1, k2),
            |k2: Seq<char>| (s1[idx_of(s1, k2)].content@, s1[idx_of(s1, k2)].executable),
        );
        assert(forall|j: int| 0 <= j < i ==> s2[j] == s1[j]);
        assert(forall|j: int| i <= j < s2.len() ==> s2[j] == s1[j + 1]);
        assert forall|k2: Seq<char>| #[trigger] has_key(s2, k2) implies has_key(s1, k2) && k2
            != k by {
            let j = choose|j: int| 0 <= j < s2.len() && s2[j].path@ == k2;
            if j < i {
                assert(s1[j].path@ == k2);
            } else {
                assert(s1[j + 1].path@ == k2);
            }
        }
        assert forall|k2: Seq<char>| #[trigger] has_key(s1, k2) && k2 != k implies has_key(
            s2,
            k2,
        ) by {
            let j = choose|j: int| 0 <= j < s1.len() && s1[j].path@ == k2;
            assert(j != i);
            if j < i {
                assert(s2[j].path@ == k2);
            } else {
                assert(s2[j - 1].path@ == k2);
            }
        }
        assert forall|k2: Seq<char>| #[trigger] self@.dom().contains(k2) implies self@[k2]
            == m1.remove(k)[k2] by {
            let j = idx_of(s2, k2);
            assert(has_key(s2, k2));
            assert(0 <= j < s2.len() && s2[j].path@ == k2);
            let j1 = idx_of(s1, k2);
            assert(has_key(s1, k2));
            assert(0 <= j1 < s1.len() && s1[j1].path@ == k2);
            if j < i {
                if j1 != j {
                    assert(s1[j1].path@ == s1[j].path@);
                    assert(false);
                }
                assert(s2[j] == s1[j]);
            } else {
                if j1 != j + 1 {
                    assert(s1[j1].path@ == s1[j + 1].path@);
                    assert(false);
                }
                assert(s2[j] == s1[j + 1]);
            }
        }
        assert(self@ =~= m1.remove(k));
    }
}

} // verus!
