//! Keyframes names of CSS modules, and which of them the renamer accepts.
use vstd::prelude::*;

verus! {

/// The shape of a keyframes name: a plain name or string, or a scope such as
/// `:local(...)` or `:global ...` around an inner name.
pub enum KeyframesNameShape {
    Name,
    Scoped { inner: Box<KeyframesNameShape> },
}

/// A scope whose inner name is itself scoped, as in `:local(:global(x))`.
pub open spec fn scoped_twice(k: KeyframesNameShape) -> bool {
    k matches KeyframesNameShape::Scoped { inner } && *inner is Scoped
}

/// No keyframes name among `names` is scoped twice.
pub open spec fn keyframes_names_flat(names: Seq<KeyframesNameShape>) -> bool {
    forall|i: int| 0 <= i < names.len() ==> !scoped_twice(#[trigger] names[i])
}

/// Whether no keyframes name among `names` is scoped twice.
pub fn names_flat(names: &Vec<KeyframesNameShape>) -> (r: bool)
    ensures
        r == keyframes_names_flat(names@),
{
    let mut i: usize = 0;
    while i < names.len()
        invariant
            i <= names@.len(),
            forall|k: int| 0 <= k < i ==> !scoped_twice(#[trigger] names@[k]),
        decreases names@.len() - i,
    {
        match &names[i] {
            KeyframesNameShape::Scoped { inner } => {
                if matches!(**inner, KeyframesNameShape::Scoped { .. }) {
                    assert(scoped_twice(names@[i as int]));
                    return false;
                }
            },
            KeyframesNameShape::Name => {},
        }
        i = i + 1;
    }
    true
}

} // verus!
