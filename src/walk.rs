use crate::entry::{EntryInfo, EntryKind};
use crate::error::FsError;
use crate::names::{ascii_upper, eq_ignore_case, lemma_upper_idempotent, same_name, to_ascii_upper};
use vstd::prelude::*;

verus! {

/// One component of a path.
#[derive(Debug)]
pub enum PathComponent {
    /// The leading `/`: it names the volume's root and consumes no level.
    Root,
    /// A plain name.
    Normal(String),
    /// Anything else: `..`, `.`, a prefix.
    Unsupported,
}

impl PathComponent {
    pub fn is_root(&self) -> (r: bool)
        ensures
            r == (*self is Root),
    {
        matches!(self, PathComponent::Root)
    }

    pub fn is_normal(&self) -> (r: bool)
        ensures
            r == (*self is Normal),
    {
        matches!(self, PathComponent::Normal(_))
    }
}

/// What the walk needs next.
#[derive(Debug, PartialEq, Eq, Structural)]
pub enum Step {
    /// The path is exhausted: it names the directory reached so far.
    Finished,
    /// The next name must be looked up among the current directory's entries.
    Lookup,
}

/// What a lookup among a directory's entries decided.
#[derive(Debug, PartialEq, Eq, Structural)]
pub enum Selected {
    /// The last component names the entry at this index: the walk ends there.
    Found(usize),
    /// The entry at this index is a directory and the walk goes on inside it.
    Descend(usize),
}

/// The decision of a lookup, as a mathematical value.
pub enum Outcome {
    Found(int),
    Descend(int),
    NotFound(Seq<char>),
    NotADirectory,
}

/// The first index at or after `i` whose component is not the root.
pub open spec fn skip_roots(c: Seq<PathComponent>, i: int) -> int
    decreases c.len() - i,
{
    if i >= c.len() {
        i
    } else if c[i] is Root {
        skip_roots(c, i + 1)
    } else {
        i
    }
}

/// What the walk needs once it stands at index `i` of the components.
pub open spec fn step_of(c: Seq<PathComponent>, i: int) -> Result<Step, FsError> {
    let q = skip_roots(c, i);
    if q >= c.len() {
        Ok(Step::Finished)
    } else if c[q] is Normal {
        Ok(Step::Lookup)
    } else {
        Err(FsError::UnsupportedPathComponent)
    }
}

/// A directory entry that decoded and whose identifier matches `name`, case ignored.
pub open spec fn child_matches(ch: Option<EntryInfo>, name: Seq<char>) -> bool {
    match ch {
        Some(e) => same_name(e.identifier@, name),
        None => false,
    }
}

/// The index of the first matching entry at or after `i`.
pub open spec fn first_match_from(ch: Seq<Option<EntryInfo>>, name: Seq<char>, i: int) -> Option<int>
    decreases ch.len() - i,
{
    if i >= ch.len() {
        None
    } else if child_matches(ch[i], name) {
        Some(i)
    } else {
        first_match_from(ch, name, i + 1)
    }
}

/// The index of the first entry of a directory that matches `name`.
pub open spec fn first_match(ch: Seq<Option<EntryInfo>>, name: Seq<char>) -> Option<int> {
    first_match_from(ch, name, 0)
}

/// The decision of looking `name` up among a directory's entries, where `last`
/// tells whether it is the path's last component.
pub open spec fn outcome(ch: Seq<Option<EntryInfo>>, name: Seq<char>, last: bool) -> Outcome {
    match first_match(ch, name) {
        None => Outcome::NotFound(ascii_upper(name)),
        Some(i) => if last {
            Outcome::Found(i)
        } else if ch[i]->Some_0.kind == EntryKind::Directory {
            Outcome::Descend(i)
        } else {
            Outcome::NotADirectory
        },
    }
}

/// The executable result `r` carries the decision `o`.
pub open spec fn carries(r: Result<Selected, FsError>, o: Outcome) -> bool {
    match o {
        Outcome::Found(i) => r == Ok::<Selected, FsError>(Selected::Found(i as usize)),
        Outcome::Descend(i) => r == Ok::<Selected, FsError>(Selected::Descend(i as usize)),
        Outcome::NotFound(n) => r is Err && r->Err_0 is ComponentNotFound
            && r->Err_0->ComponentNotFound_0@ == n,
        Outcome::NotADirectory => r == Err::<Selected, FsError>(FsError::NotADirectory),
    }
}

/// The state of a walk down the directory tree along a path.
///
/// The caller holds the directory reached so far (the root at first). It asks
/// `next_step`; on `Lookup` it hands the current directory's entries to
/// `select`, in the order in which they are stored, with `None` for an entry
/// that failed to decode; on `Descend(i)` entry `i` becomes the current
/// directory and it asks `next_step` again.
#[derive(Debug)]
pub struct Walk {
    components: Vec<PathComponent>,
    pos: usize,
}

impl Walk {
    pub closed spec fn components(&self) -> Seq<PathComponent> {
        self.components@
    }

    pub closed spec fn position(&self) -> int {
        self.pos as int
    }

    pub open spec fn wf(&self) -> bool {
        0 <= self.position() <= self.components().len()
    }

    /// The walk stands on a plain name, which `select` looks up.
    pub open spec fn at_name(&self) -> bool {
        &&& 0 <= self.position() < self.components().len()
        &&& self.components()[self.position()] is Normal
    }

    /// The name that the walk stands on.
    pub open spec fn current_name(&self) -> Seq<char> {
        self.components()[self.position()]->Normal_0@
    }

    /// The name that the walk stands on is the path's last component.
    pub open spec fn at_last(&self) -> bool {
        self.position() + 1 == self.components().len()
    }

    /// Starts a walk at the root, before the first component.
    pub fn new(components: Vec<PathComponent>) -> (w: Walk)
        ensures
            w.wf(),
            w.components() == components@,
            w.position() == 0,
    {
        Walk { components, pos: 0 }
    }

    /// Skips root components and says what the walk needs next.
    pub fn next_step(&mut self) -> (r: Result<Step, FsError>)
        requires
            old(self).wf(),
        ensures
            final(self).wf(),
            final(self).components() == old(self).components(),
            final(self).position() == skip_roots(old(self).components(), old(self).position()),
            r == step_of(old(self).components(), old(self).position()),
            r == Ok::<Step, FsError>(Step::Lookup) ==> final(self).at_name(),
    {
        while self.pos < self.components.len() && self.components[self.pos].is_root()
            invariant
                0 <= self.pos <= self.components@.len(),
                self.components@ == old(self).components@,
                skip_roots(self.components@, self.pos as int) == skip_roots(
                    old(self).components@,
                    old(self).pos as int,
                ),
            decreases self.components@.len() - self.pos,
        {
            self.pos = self.pos + 1;
        }
        if self.pos >= self.components.len() {
            Ok(Step::Finished)
        } else if self.components[self.pos].is_normal() {
            Ok(Step::Lookup)
        } else {
            Err(FsError::UnsupportedPathComponent)
        }
    }

    /// Looks the current name up among the current directory's entries: the
    /// first entry whose identifier matches with ASCII case ignored is taken.
    pub fn select(&mut self, children: &[Option<EntryInfo>]) -> (r: Result<Selected, FsError>)
        requires
            old(self).at_name(),
        ensures
            final(self).wf(),
            final(self).components() == old(self).components(),
            carries(r, outcome(children@, old(self).current_name(), old(self).at_last())),
            r matches Ok(Selected::Descend(_)) ==> final(self).position() == old(self).position()
                + 1,
            !(r matches Ok(Selected::Descend(_))) ==> final(self).position() == old(
                self,
            ).position(),
    {
        let name: &String = match &self.components[self.pos] {
            PathComponent::Normal(s) => s,
            _ => {
                return Err(FsError::UnsupportedPathComponent);
            },
        };
        let upper = to_ascii_upper(name.as_str());
        let len: usize = self.components.len();
        let last = len - self.pos == 1;
        proof {
            lemma_upper_idempotent(name@);
        }
        let mut i: usize = 0;
        while i < children.len()
            invariant
                i <= children@.len(),
                first_match_from(children@, name@, i as int) == first_match(children@, name@),
                upper@ == ascii_upper(name@),
                ascii_upper(upper@) == ascii_upper(name@),
                name@ == old(self).current_name(),
                self.components@ == old(self).components@,
                self.pos == old(self).pos,
                self.pos < self.components@.len(),
                len == self.components@.len(),
                last == (self.pos + 1 == len),
            decreases children@.len() - i,
        {
            if let Some(e) = &children[i] {
                if eq_ignore_case(e.identifier.as_str(), upper.as_str()) {
                    if last {
                        return Ok(Selected::Found(i));
                    } else if e.kind == EntryKind::Directory {
                        self.pos = self.pos + 1;
                        return Ok(Selected::Descend(i));
                    } else {
                        return Err(FsError::NotADirectory);
                    }
                }
            }
            i = i + 1;
        }
        Err(FsError::ComponentNotFound(upper))
    }
}

} // verus!
