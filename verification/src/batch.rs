//! Greeting a whole list of names at once.

use crate::{greet, greeting_text};
use vstd::prelude::*;

verus! {

/// The greetings for a list of names: one for each name, in the order of the
/// names. Nothing is left out and nothing is merged, so a name that occurs
/// twice is greeted twice.
pub open spec fn greetings(names: Seq<Seq<char>>) -> Seq<Seq<char>> {
    Seq::new(names.len(), |i: int| greeting_text(names[i]))
}

/// Greets every name of `names`, in order.
pub fn greet_all(names: Vec<String>) -> (greeted: Vec<String>)
    ensures
        greeted.deep_view() == greetings(names.deep_view()),
        greeted@.len() == names@.len(),
        forall|i: int| 0 <= i < names@.len() ==> #[trigger] greeted@[i]@ == greeting_text(names@[i]@),
{
    let mut greeted: Vec<String> = Vec::new();
    let mut done: usize = 0;
    while done < names.len()
        invariant
            done <= names@.len(),
            greeted@.len() == done,
            forall|i: int| 0 <= i < done ==> #[trigger] greeted@[i]@ == greeting_text(names@[i]@),
        decreases names@.len() - done,
    {
        greeted.push(greet(names[done].as_str()));
        done += 1;
    }
    assert(greeted.deep_view() =~= greetings(names.deep_view()));
    greeted
}

/// Batch greeting keeps length and order: the list of greetings is as long
/// as the list of names, its entry at each place is the greeting for the name
/// at that place, and no names give no greetings.
pub proof fn greetings_keep_length_and_order(names: Seq<Seq<char>>)
    ensures
        greetings(names).len() == names.len(),
        forall|i: int| 0 <= i < names.len() ==> #[trigger] greetings(names)[i] == greeting_text(names[i]),
        names.len() == 0 ==> greetings(names) == Seq::<Seq<char>>::empty(),
{
    if names.len() == 0 {
        assert(greetings(names) =~= Seq::<Seq<char>>::empty());
    }
}

} // verus!
