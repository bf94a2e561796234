//! Locations on disk, kept as a base directory and the relative parts that are
//! joined onto it in turn.

use vstd::prelude::*;

use crate::text::strings_view;

verus! {

/// A location on disk: `base` with each of `parts` joined onto it, in order.
#[derive(Debug)]
pub struct LocalPath {
    pub base: String,
    pub parts: Vec<String>,
}

impl LocalPath {
    /// The parts joined onto the base, as text.
    pub open spec fn parts_view(&self) -> Seq<Seq<char>> {
        strings_view(self.parts@)
    }

    /// Whether the location is `base` with `parts` joined onto it.
    pub open spec fn is(&self, base: Seq<char>, parts: Seq<Seq<char>>) -> bool {
        self.base@ == base && self.parts_view() == parts
    }

    /// The location `base` itself.
    pub fn new(base: &str) -> (r: LocalPath)
        ensures
            r.is(base@, Seq::empty()),
    {
        let r = LocalPath { base: base.to_owned(), parts: Vec::new() };
        assert(r.parts_view() =~= Seq::<Seq<char>>::empty());
        r
    }

    /// This location with `part` joined onto it.
    pub fn join(&self, part: &str) -> (r: LocalPath)
        ensures
            r.is(self.base@, self.parts_view().push(part@)),
    {
        let mut r = self.duplicate();
        r.parts.push(part.to_owned());
        assert(r.parts_view() =~= self.parts_view().push(part@));
        r
    }

    /// A copy of this location.
    pub fn duplicate(&self) -> (r: LocalPath)
        ensures
            r.is(self.base@, self.parts_view()),
    {
        let mut parts: Vec<String> = Vec::new();
        let mut i: usize = 0;
        while i < self.parts.len()
            invariant
                i <= self.parts@.len(),
                strings_view(parts@) == self.parts_view().take(i as int),
            decreases self.parts.len() - i,
        {
            let ghost before = parts@;
            let part = self.parts[i].clone();
            assert(part@ == self.parts@[i as int]@);
            parts.push(part);
            assert(parts@ == before.push(part));
            assert(strings_view(parts@) =~= strings_view(before).push(part@));
            assert(strings_view(parts@) =~= self.parts_view().take(i + 1));
            i = i + 1;
        }
        assert(self.parts_view().take(self.parts@.len() as int) =~= self.parts_view());
        LocalPath { base: self.base.clone(), parts }
    }
}

} // verus!
