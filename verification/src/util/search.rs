use vstd::prelude::*;

verus! {

/// The first position in a sequence whose value is wanted, if there is one.
pub open spec fn first_position<T>(values: Seq<T>, wanted: spec_fn(T) -> bool) -> Option<int>
    decreases values.len(),
{
    if values.len() == 0 {
        None
    } else {
        match first_position(values.drop_last(), wanted) {
            Some(position) => Some(position),
            None => if wanted(values.last()) {
                Some(values.len() - 1)
            } else {
                None
            },
        }
    }
}

/// What [`first_position`] finds is a position of the sequence that holds a
/// wanted value, with none before it; it finds nothing only where no value
/// is wanted.
pub proof fn lemma_first_position<T>(values: Seq<T>, wanted: spec_fn(T) -> bool)
    ensures
        match first_position(values, wanted) {
            Some(position) => {
                &&& 0 <= position < values.len()
                &&& wanted(values[position])
                &&& forall|j: int| 0 <= j < position ==> !wanted(#[trigger] values[j])
            },
            None => forall|j: int| 0 <= j < values.len() ==> !wanted(#[trigger] values[j]),
        },
    decreases values.len(),
{
    if values.len() > 0 {
        lemma_first_position(values.drop_last(), wanted);
        assert(forall|j: int|
            0 <= j < values.len() - 1 ==> values.drop_last()[j] == #[trigger] values[j]);
    }
}

/// A position that holds a wanted value, with none before it, is what
/// [`first_position`] finds.
pub proof fn lemma_first_position_found<T>(
    values: Seq<T>,
    wanted: spec_fn(T) -> bool,
    position: int,
)
    requires
        0 <= position < values.len(),
        wanted(values[position]),
        forall|j: int| 0 <= j < position ==> !wanted(#[trigger] values[j]),
    ensures
        first_position(values, wanted) == Some(position),
{
    lemma_first_position(values, wanted);
}

/// Where no value is wanted, [`first_position`] finds nothing.
pub proof fn lemma_first_position_none<T>(values: Seq<T>, wanted: spec_fn(T) -> bool)
    requires
        forall|j: int| 0 <= j < values.len() ==> !wanted(#[trigger] values[j]),
    ensures
        first_position(values, wanted) is None,
{
    lemma_first_position(values, wanted);
}

/// A position of an executable list as a mathematical integer.
pub open spec fn as_position(found: Option<usize>) -> Option<int> {
    match found {
        Some(position) => Some(position as int),
        None => None,
    }
}

} // verus!
