//! Session paths as plugins see them, on a host where one path has several
//! spellings: every path is spelt as far as it exists the way the file system
//! spells it, so that paths can be compared and sorted by their text.
use vstd::prelude::*;

use crate::text_map::TextMap;

verus! {

/// A path as plugins see it: as the file system spells it, where that is
/// otherwise than it is kept.
pub open spec fn spelt(spellings: Map<Seq<char>, String>, path: Seq<char>) -> Seq<char> {
    if spellings.contains_key(path) {
        spellings[path]@
    } else {
        path
    }
}

/// A path as plugins see it.
pub fn spell_path(spellings: &TextMap<String>, path: &str) -> (shown: String)
    ensures
        shown@ == spelt(spellings@, path@),
{
    match spellings.get(path) {
        Some(spelling) => spelling.clone(),
        None => path.to_string(),
    }
}

/// A path on the way from a session's root up to the root of the file system.
#[derive(Debug)]
pub struct Ancestor {
    /// The last component, if there is one.
    pub name: Option<String>,
    /// How the file system spells the path; absent where it does not exist.
    pub canonical: Option<String>,
}

/// How many of the `ancestors` stand before the first that exists.
pub open spec fn missing_count(ancestors: Seq<Ancestor>) -> int
    decreases ancestors.len(),
{
    if ancestors.len() == 0 || ancestors[0].canonical is Some {
        0
    } else {
        1 + missing_count(ancestors.drop_first())
    }
}

/// The components of the first `n` of the `ancestors`, from the outermost to the
/// innermost.
pub open spec fn components(ancestors: Seq<Ancestor>, n: int) -> Seq<Seq<char>>
    decreases n,
{
    if n <= 0 {
        Seq::empty()
    } else {
        match ancestors[n - 1].name {
            Some(name) => seq![name@] + components(ancestors, n - 1),
            None => components(ancestors, n - 1),
        }
    }
}

/// Where to find the part of a path that exists, and the rest of the path.
#[derive(Debug)]
pub struct ExistingPath {
    /// Which ancestor it is.
    pub base: usize,
    /// The components below it, from the outermost to the innermost.
    pub tail: Vec<String>,
}

/// The deepest of the `ancestors` that exists, and what is below it. The first
/// of them is the path itself, and each is followed by its parent.
pub fn deepest_existing(ancestors: &Vec<Ancestor>) -> (existing: Option<ExistingPath>)
    ensures
        existing is Some <==> missing_count(ancestors@) < ancestors@.len(),
        existing matches Some(path) ==> {
            &&& path.base == missing_count(ancestors@)
            &&& path.tail@.map_values(|s: String| s@) == components(ancestors@, path.base as int)
        },
{
    let mut base: usize = 0;
    proof {
        assert(ancestors@.skip(0) =~= ancestors@);
    }
    while base < ancestors.len() && ancestors[base].canonical.is_none()
        invariant
            base <= ancestors.len(),
            missing_count(ancestors@) == base + missing_count(ancestors@.skip(base as int)),
        decreases ancestors.len() - base,
    {
        proof {
            assert(ancestors@.skip(base as int).drop_first() =~= ancestors@.skip(base + 1));
        }
        base = base + 1;
    }
    if base == ancestors.len() {
        return None;
    }
    let mut tail: Vec<String> = Vec::new();
    let mut at: usize = base;
    proof {
        assert(tail@.map_values(|s: String| s@) + components(ancestors@, base as int)
            =~= components(ancestors@, base as int));
    }
    while at > 0
        invariant
            at <= base < ancestors.len(),
            tail@.map_values(|s: String| s@) + components(ancestors@, at as int) == components(
                ancestors@,
                base as int,
            ),
        decreases at,
    {
        at = at - 1;
        let ghost texts = tail@.map_values(|s: String| s@);
        if let Some(name) = &ancestors[at].name {
            tail.push(name.clone());
            proof {
                assert(tail@.map_values(|s: String| s@) =~= texts.push(name@));
                assert(texts + (seq![name@] + components(ancestors@, at as int)) =~= texts.push(
                    name@,
                ) + components(ancestors@, at as int));
            }
        }
    }
    proof {
        assert(tail@.map_values(|s: String| s@) =~= components(ancestors@, base as int));
    }
    Some(ExistingPath { base, tail })
}

/// What a path starts with that is not to be interpreted any further.
pub open spec fn verbatim_prefix() -> Seq<char> {
    seq!['\\', '\\', '?', '\\']
}

/// A path without the mark that it is not to be interpreted any further.
pub open spec fn plain_path(path: Seq<char>) -> Seq<char> {
    if verbatim_prefix().is_prefix_of(path) {
        path.skip(4)
    } else {
        path
    }
}

/// A path without the mark that it is not to be interpreted any further.
pub fn without_verbatim_prefix(path: &str) -> (plain: String)
    ensures
        plain@ == plain_path(path@),
{
    let len = path.unicode_len();
    if len >= 4 && path.get_char(0) == '\\' && path.get_char(1) == '\\' && path.get_char(2) == '?'
        && path.get_char(3) == '\\' {
        proof {
            assert(verbatim_prefix() =~= path@.take(4));
        }
        path.substring_char(4, len).to_string()
    } else {
        path.to_string()
    }
}

} // verus!
