use crate::entry::{EntryInfo, EntryKind};
use crate::error::FsError;
use crate::names::{ascii_upper, same_name};
use crate::walk::{
    child_matches, first_match, first_match_from, outcome, skip_roots, step_of, Outcome,
    PathComponent, Step,
};
use vstd::prelude::*;

verus! {

proof fn lemma_first_match_from(ch: Seq<Option<EntryInfo>>, name: Seq<char>, i: int)
    requires
        0 <= i,
    ensures
        match first_match_from(ch, name, i) {
            Some(k) => i <= k < ch.len() && child_matches(ch[k], name) && forall|j: int|
                i <= j < k ==> !child_matches(#[trigger] ch[j], name),
            None => forall|j: int| i <= j < ch.len() ==> !child_matches(#[trigger] ch[j], name),
        },
    decreases ch.len() - i,
{
    if i < ch.len() && !child_matches(ch[i], name) {
        lemma_first_match_from(ch, name, i + 1);
    }
}

proof fn lemma_first_match_same_name(
    ch: Seq<Option<EntryInfo>>,
    a: Seq<char>,
    b: Seq<char>,
    i: int,
)
    requires
        same_name(a, b),
    ensures
        first_match_from(ch, a, i) == first_match_from(ch, b, i),
    decreases ch.len() - i,
{
    if i < ch.len() && !child_matches(ch[i], a) {
        lemma_first_match_same_name(ch, a, b, i + 1);
    }
}

proof fn lemma_skip_all_roots(c: Seq<PathComponent>, i: int)
    requires
        0 <= i <= c.len(),
        forall|j: int| 0 <= j < c.len() ==> #[trigger] c[j] is Root,
    ensures
        skip_roots(c, i) == c.len(),
    decreases c.len() - i,
{
    if i < c.len() {
        lemma_skip_all_roots(c, i + 1);
    }
}

/// A lookup either yields an entry that truly matches the name, or fails with
/// an error that says why: the name matched no entry that decoded, or it
/// matched a non-directory while more components follow.
pub proof fn lemma_lookup_classified(ch: Seq<Option<EntryInfo>>, name: Seq<char>, last: bool)
    ensures
        match outcome(ch, name, last) {
            Outcome::Found(i) => {
                &&& last
                &&& 0 <= i < ch.len()
                &&& ch[i] is Some
                &&& same_name(ch[i]->Some_0.identifier@, name)
            },
            Outcome::Descend(i) => {
                &&& !last
                &&& 0 <= i < ch.len()
                &&& ch[i] is Some
                &&& same_name(ch[i]->Some_0.identifier@, name)
                &&& ch[i]->Some_0.kind == EntryKind::Directory
            },
            Outcome::NotFound(n) => {
                &&& n == ascii_upper(name)
                &&& forall|j: int| 0 <= j < ch.len() ==> !child_matches(#[trigger] ch[j], name)
            },
            Outcome::NotADirectory => !last,
        },
{
    lemma_first_match_from(ch, name, 0);
}

/// A path made of root components alone, the empty one included, names the
/// root directory: the walk finishes before any lookup.
pub proof fn lemma_root_only_path(c: Seq<PathComponent>)
    requires
        forall|j: int| 0 <= j < c.len() ==> #[trigger] c[j] is Root,
    ensures
        step_of(c, 0) == Ok::<Step, FsError>(Step::Finished),
{
    lemma_skip_all_roots(c, 0);
}

/// Names that differ only in ASCII case look up the same entry, with the same
/// outcome, in any directory.
pub proof fn lemma_case_insensitive(
    ch: Seq<Option<EntryInfo>>,
    a: Seq<char>,
    b: Seq<char>,
    last: bool,
)
    requires
        same_name(a, b),
    ensures
        outcome(ch, a, last) == outcome(ch, b, last),
{
    lemma_first_match_same_name(ch, a, b, 0);
}

/// Two components of the same kind, and for names, equal with ASCII case ignored.
pub open spec fn same_component(x: PathComponent, y: PathComponent) -> bool {
    match (x, y) {
        (PathComponent::Root, PathComponent::Root) => true,
        (PathComponent::Unsupported, PathComponent::Unsupported) => true,
        (PathComponent::Normal(m), PathComponent::Normal(n)) => same_name(m@, n@),
        _ => false,
    }
}

/// Two paths that differ only in the ASCII case of their names.
pub open spec fn same_path(a: Seq<PathComponent>, b: Seq<PathComponent>) -> bool {
    &&& a.len() == b.len()
    &&& forall|j: int| 0 <= j < a.len() ==> same_component(#[trigger] a[j], b[j])
}

proof fn lemma_same_path_skip(a: Seq<PathComponent>, b: Seq<PathComponent>, i: int)
    requires
        same_path(a, b),
        0 <= i,
    ensures
        skip_roots(a, i) == skip_roots(b, i),
        i <= skip_roots(a, i),
    decreases a.len() - i,
{
    if i < a.len() {
        assert(same_component(a[i], b[i]));
        if a[i] is Root {
            lemma_same_path_skip(a, b, i + 1);
        }
    }
}

/// Two paths that differ only in the ASCII case of their names walk alike: at
/// each position the walk needs the same next step, and the lookup there has
/// the same outcome in any directory.
pub proof fn lemma_case_insensitive_path(
    a: Seq<PathComponent>,
    b: Seq<PathComponent>,
    i: int,
    ch: Seq<Option<EntryInfo>>,
)
    requires
        same_path(a, b),
        0 <= i <= a.len(),
    ensures
        skip_roots(a, i) == skip_roots(b, i),
        step_of(a, i) == step_of(b, i),
        step_of(a, i) == Ok::<Step, FsError>(Step::Lookup) ==> {
            let q = skip_roots(a, i);
            outcome(ch, a[q]->Normal_0@, q + 1 == a.len()) == outcome(
                ch,
                b[q]->Normal_0@,
                q + 1 == b.len(),
            )
        },
{
    lemma_same_path_skip(a, b, i);
    let q = skip_roots(a, i);
    if q < a.len() {
        assert(same_component(a[q], b[q]));
        if a[q] is Normal {
            lemma_case_insensitive(ch, a[q]->Normal_0@, b[q]->Normal_0@, q + 1 == a.len());
        }
    }
}

/// When the walk comes to a component that is neither the root nor a plain
/// name, such as `..`, it fails with `UnsupportedPathComponent`.
pub proof fn lemma_unsupported_component(c: Seq<PathComponent>, i: int)
    requires
        0 <= i <= c.len(),
        skip_roots(c, i) < c.len(),
        !(c[skip_roots(c, i)] is Normal),
    ensures
        step_of(c, i) == Err::<Step, FsError>(FsError::UnsupportedPathComponent),
{
}

/// A name before the last component that first matches a file or a symlink
/// fails the lookup with `NotADirectory`.
pub proof fn lemma_file_before_last(ch: Seq<Option<EntryInfo>>, name: Seq<char>)
    requires
        first_match(ch, name) is Some,
        ch[first_match(ch, name)->Some_0]->Some_0.kind != EntryKind::Directory,
    ensures
        outcome(ch, name, false) == Outcome::NotADirectory,
{
}

} // verus!
