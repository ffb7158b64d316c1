//! The device selector: which of the discovered peripherals the session
//! connects to.

use vstd::prelude::*;

verus! {

/// A discovered peripheral as the selector sees it.
#[derive(Clone, Debug, PartialEq, Eq)]
pub struct PeripheralDescriptor {
    /// The caller's handle for the peripheral. The session hands it back when
    /// it asks for a connection and never looks inside.
    pub handle: usize,
    /// The name the peripheral advertised, if it advertised one.
    pub name: Option<String>,
}

/// `fragment` stands in `name` at position `at`.
pub open spec fn occurs_at(name: Seq<char>, fragment: Seq<char>, at: int) -> bool {
    &&& 0 <= at
    &&& at + fragment.len() <= name.len()
    &&& name.subrange(at, at + fragment.len()) == fragment
}

/// `fragment` is a substring of `name`, character for character.
pub open spec fn contains_fragment(name: Seq<char>, fragment: Seq<char>) -> bool {
    exists|at: int| occurs_at(name, fragment, at)
}

/// The peripheral advertised a name, and `fragment` is a substring of it.
pub open spec fn advertises(candidate: PeripheralDescriptor, fragment: Seq<char>) -> bool {
    match candidate.name {
        Some(name) => contains_fragment(name@, fragment),
        None => false,
    }
}

/// `at` is the position of the first candidate that advertises `fragment`.
pub open spec fn is_first_match(
    candidates: Seq<PeripheralDescriptor>,
    fragment: Seq<char>,
    at: int,
) -> bool {
    &&& 0 <= at < candidates.len()
    &&& advertises(candidates[at], fragment)
    &&& forall|earlier: int| 0 <= earlier < at ==> !advertises(#[trigger] candidates[earlier], fragment)
}

/// The position of the first candidate that advertises `fragment`, if any
/// candidate does.
pub open spec fn first_match(candidates: Seq<PeripheralDescriptor>, fragment: Seq<char>) -> Option<
    int,
> {
    if exists|at: int| is_first_match(candidates, fragment, at) {
        Some(choose|at: int| is_first_match(candidates, fragment, at))
    } else {
        None
    }
}

/// The characters of `text`, in order.
fn chars_of(text: &str) -> (chars: Vec<char>)
    ensures
        chars@ == text@,
{
    let mut chars: Vec<char> = Vec::new();
    for c in it: text.chars()
        invariant
            it.seq() == text@,
            chars@ == it.seq().take(it.index() as int),
    {
        chars.push(c);
    }
    chars
}

/// Whether `fragment` is a substring of `name`. The comparison is by
/// character and tells upper case from lower case; the empty fragment is a
/// substring of every name.
pub fn name_contains(name: &str, fragment: &str) -> (found: bool)
    ensures
        found == contains_fragment(name@, fragment@),
{
    let hay: Vec<char> = chars_of(name);
    let needle: Vec<char> = chars_of(fragment);
    let n: usize = hay.len();
    let m: usize = needle.len();
    if m > n {
        return false;
    }
    let mut start: usize = 0;
    while start <= n - m
        invariant
            hay@ == name@,
            needle@ == fragment@,
            n == hay@.len(),
            m == needle@.len(),
            m <= n,
            start <= n - m + 1,
            forall|at: int| 0 <= at < start ==> !occurs_at(name@, fragment@, at),
        decreases n - m + 1 - start,
    {
        let mut j: usize = 0;
        while j < m && hay[start + j] == needle[j]
            invariant
                n == hay@.len(),
                m == needle@.len(),
                m <= n,
                start <= n - m,
                j <= m,
                forall|t: int| 0 <= t < j ==> hay@[start + t] == needle@[t],
            decreases m - j,
        {
            j = j + 1;
        }
        if j == m {
            proof {
                assert(hay@.subrange(start as int, start + m) =~= needle@);
                assert(occurs_at(name@, fragment@, start as int));
            }
            return true;
        }
        proof {
            assert(hay@.subrange(start as int, start + m)[j as int] != needle@[j as int]);
        }
        start = start + 1;
    }
    false
}

/// Picks the peripheral to connect to: the first candidate, in discovery
/// order, whose advertised name has `name_fragment` as a substring. There is
/// none where no candidate advertised a name or no name matched.
pub fn select<'a>(candidates: &'a [PeripheralDescriptor], name_fragment: &str) -> (chosen: Option<
    &'a PeripheralDescriptor,
>)
    ensures
        match first_match(candidates@, name_fragment@) {
            Some(at) => chosen == Some(&candidates@[at]),
            None => chosen is None,
        },
        chosen is None <==> forall|at: int|
            0 <= at < candidates@.len() ==> !advertises(#[trigger] candidates@[at], name_fragment@),
{
    let mut i: usize = 0;
    while i < candidates.len()
        invariant
            i <= candidates@.len(),
            forall|at: int| 0 <= at < i ==> !advertises(#[trigger] candidates@[at], name_fragment@),
        decreases candidates@.len() - i,
    {
        let matches: bool = match &candidates[i].name {
            Some(name) => name_contains(name.as_str(), name_fragment),
            None => false,
        };
        if matches {
            proof {
                first_match_is_unique(candidates@, name_fragment@, i as int);
            }
            return Some(&candidates[i]);
        }
        i = i + 1;
    }
    None
}

/// There is at most one first match: where `at` is one, `first_match` names it.
pub proof fn first_match_is_unique(
    candidates: Seq<PeripheralDescriptor>,
    fragment: Seq<char>,
    at: int,
)
    requires
        is_first_match(candidates, fragment, at),
    ensures
        first_match(candidates, fragment) == Some(at),
{
    let other = choose|other: int| is_first_match(candidates, fragment, other);
    if other < at {
        assert(!advertises(candidates[other], fragment));
    } else if at < other {
        assert(!advertises(candidates[at], fragment));
    }
}

} // verus!
