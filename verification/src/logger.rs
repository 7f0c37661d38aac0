//! The configuration of the access log: a base logger and the paths that
//! are not to be logged.

use vstd::prelude::*;

verus! {

/// The texts of a list of paths.
pub open spec fn path_texts(paths: Seq<String>) -> Seq<Seq<char>> {
    paths.map_values(|p: String| p@)
}

/// Whether `path` is the text of one of `paths`.
fn contains_path(paths: &Vec<String>, path: &String) -> (found: bool)
    ensures
        found == path_texts(paths@).contains(path@),
{
    let mut i: usize = 0;
    while i < paths.len()
        invariant
            i <= paths.len(),
            forall|j: int| 0 <= j < i ==> path_texts(paths@)[j] != path@,
        decreases paths.len() - i,
    {
        if paths[i] == *path {
            assert(path_texts(paths@)[i as int] == path@);
            return true;
        }
        i += 1;
    }
    false
}

/// The access log while it is being set up. `L` is the base logger, which
/// this crate carries and never looks into.
pub struct StructuredLogger<L> {
    logger: L,
    exclude: Vec<String>,
}

impl<L> StructuredLogger<L> {
    #[verifier::type_invariant]
    spec fn no_path_twice(self) -> bool {
        path_texts(self.exclude@).no_duplicates()
    }

    /// The base logger.
    pub closed spec fn base_logger(self) -> L {
        self.logger
    }

    /// The paths for which no access record is written.
    pub closed spec fn excluded(self) -> Set<Seq<char>> {
        path_texts(self.exclude@).to_set()
    }

    /// How many paths are excluded.
    pub closed spec fn excluded_count(self) -> nat {
        self.exclude@.len()
    }

    /// An access log over `logger` that excludes no path.
    #[must_use]
    pub fn new(logger: L) -> (config: StructuredLogger<L>)
        ensures
            config.base_logger() == logger,
            config.excluded() == Set::<Seq<char>>::empty(),
            config.excluded_count() == 0,
    {
        let config = StructuredLogger { logger, exclude: Vec::new() };
        assert(path_texts(config.exclude@) =~= Seq::<Seq<char>>::empty());
        assert(config.excluded() =~= Set::<Seq<char>>::empty());
        config
    }

    /// Excludes `path`: a request for exactly this path gets no access record.
    /// Excluding a path a second time changes nothing.
    pub fn exclude(self, path: &str) -> (config: StructuredLogger<L>)
        ensures
            config.base_logger() == self.base_logger(),
            config.excluded() == self.excluded().insert(path@),
            config.excluded_count() == if self.excluded().contains(path@) {
                self.excluded_count()
            } else {
                self.excluded_count() + 1
            },
    {
        proof {
            use_type_invariant(&self);
        }
        let owned = path.to_owned();
        if contains_path(&self.exclude, &owned) {
            assert(self.excluded() =~= self.excluded().insert(path@));
            self
        } else {
            let ghost before = path_texts(self.exclude@);
            let StructuredLogger { logger, mut exclude } = self;
            exclude.push(owned);
            assert(path_texts(exclude@) =~= before.push(path@));
            proof {
                before.lemma_push_to_set_commute(path@);
            }
            StructuredLogger { logger, exclude }
        }
    }

    /// Whether requests for `path` are excluded.
    pub fn is_excluded(&self, path: &str) -> (found: bool)
        ensures
            found == self.excluded().contains(path@),
    {
        let owned = path.to_owned();
        contains_path(&self.exclude, &owned)
    }

    /// The base logger.
    pub fn logger(&self) -> (logger: &L)
        ensures
            *logger == self.base_logger(),
    {
        &self.logger
    }
}

} // verus!
