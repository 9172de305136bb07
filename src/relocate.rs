use vstd::prelude::*;
use crate::error::InstallerError;
use crate::pattern::{pattern_compiles, pattern_finds, search};

verus! {

/// A file met while walking a search root: its full path and its file name.
pub struct FoundFile {
    pub path: String,
    pub name: String,
}

/// Pulls the single file whose name matches `pattern` out of the tree under
/// `root` and moves it to `destination`; when `into_directory` holds,
/// `destination` is a directory and the file keeps its name there.
pub struct RelocateJob {
    pub pattern: String,
    pub root: String,
    pub destination: String,
    pub into_directory: bool,
}

/// A move to perform: the file found and where it goes.
pub struct Relocation {
    pub from: String,
    pub to: String,
}

/// The paths, in walking order, of the files whose names match `pattern`.
pub open spec fn matching_paths(pattern: Seq<char>, files: Seq<FoundFile>) -> Seq<Seq<char>>
    decreases files.len(),
{
    if files.len() == 0 {
        Seq::empty()
    } else {
        let rest = matching_paths(pattern, files.drop_last());
        if pattern_finds(pattern, files.last().name@) {
            rest.push(files.last().path@)
        } else {
            rest
        }
    }
}

/// `dir` joined with `name` by a path separator.
pub open spec fn joined_path(dir: Seq<char>, name: Seq<char>) -> Seq<char> {
    dir + seq!['/'] + name
}

/// Joins a directory and a file name.
pub fn join_path(dir: &str, name: &str) -> (r: String)
    ensures
        r@ == joined_path(dir@, name@),
{
    proof {
        reveal_strlit("/");
    }
    let d = dir.to_owned();
    let d = d.concat("/");
    d.concat(name)
}

impl RelocateJob {
    /// Where a file named `name` lands under this job.
    pub open spec fn target_of(&self, name: Seq<char>) -> Seq<char> {
        if self.into_directory {
            joined_path(self.destination@, name)
        } else {
            self.destination@
        }
    }

    pub fn new(pattern: &str, root: &str, destination: &str, into_directory: bool) -> (r: Self)
        ensures
            r.pattern@ == pattern@,
            r.root@ == root@,
            r.destination@ == destination@,
            r.into_directory == into_directory,
    {
        RelocateJob {
            pattern: pattern.to_owned(),
            root: root.to_owned(),
            destination: destination.to_owned(),
            into_directory,
        }
    }

    /// Decides the move from the files found under the search root. Exactly
    /// one file must match: none gives `NotFound`, several give
    /// `AmbiguousMatch` with every candidate, and no move is asked for in
    /// either case. A pattern that is not a valid expression gives
    /// `InvalidPattern` as soon as there is a file to test it on.
    pub fn select(&self, files: &Vec<FoundFile>) -> (r: Result<Relocation, InstallerError>)
        ensures
            files@.len() > 0 && !pattern_compiles(self.pattern@) ==> (r matches Err(
                InstallerError::InvalidPattern(p),
            ) && p@ == self.pattern@),
            files@.len() == 0 || pattern_compiles(self.pattern@) ==> {
                let found = matching_paths(self.pattern@, files@);
                &&& found.len() == 0 ==> (r matches Err(InstallerError::NotFound(p, q)) && p@
                    == self.pattern@ && q@ == self.root@)
                &&& found.len() == 1 ==> (r matches Ok(m) && m.from@ == found[0]
                    && exists|i: int|
                    0 <= i < files@.len() && files@[i].path@ == found[0] && m.to@
                        == self.target_of(files@[i].name@))
                &&& found.len() > 1 ==> (r matches Err(InstallerError::AmbiguousMatch(p, q, c))
                    && p@ == self.pattern@ && q@ == self.root@ && c@.map_values(
                    |s: String| s@,
                ) == found)
            },
    {
        let mut candidates: Vec<String> = Vec::new();
        let mut target: String = String::new();
        let ghost mut which: int = 0;
        let mut i: usize = 0;
        while i < files.len()
            invariant
                i <= files@.len(),
                candidates@.map_values(|s: String| s@) == matching_paths(
                    self.pattern@,
                    files@.subrange(0, i as int),
                ),
                i > 0 ==> pattern_compiles(self.pattern@),
                candidates@.len() >= 1 ==> 0 <= which < i && files@[which].path@
                    == candidates@[0]@ && target@ == self.target_of(files@[which].name@),
            decreases files@.len() - i,
        {
            let f = &files[i];
            let ghost before = files@.subrange(0, i as int);
            assert(files@.subrange(0, i + 1).drop_last() == before);
            match search(self.pattern.as_str(), f.name.as_str()) {
                None => {
                    return Err(InstallerError::InvalidPattern(self.pattern.clone()));
                },
                Some(hit) => {
                    if hit {
                        if candidates.len() == 0 {
                            target = if self.into_directory {
                                join_path(self.destination.as_str(), f.name.as_str())
                            } else {
                                self.destination.clone()
                            };
                            proof {
                                which = i as int;
                            }
                        }
                        candidates.push(f.path.clone());
                        assert(candidates@.map_values(|s: String| s@) =~= matching_paths(
                            self.pattern@,
                            before,
                        ).push(f.path@));
                    }
                },
            }
            i = i + 1;
        }
        assert(files@.subrange(0, files@.len() as int) == files@);
        let found = Ghost(matching_paths(self.pattern@, files@));
        assert(candidates@.len() == found@.len());
        if candidates.len() == 0 {
            Err(InstallerError::NotFound(self.pattern.clone(), self.root.clone()))
        } else if candidates.len() == 1 {
            let ghost views = candidates@.map_values(|s: String| s@);
            let from = candidates.pop().unwrap();
            assert(from@ == views[0]);
            Ok(Relocation { from, to: target })
        } else {
            Err(InstallerError::AmbiguousMatch(self.pattern.clone(), self.root.clone(), candidates))
        }
    }
}

} // verus!
