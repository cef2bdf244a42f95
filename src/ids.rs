//! Identifiers that are fresh with respect to those already in use.
use vstd::prelude::*;
use vstd::string::StrSliceExecFns;

verus! {

/// Some string of `taken` reads `t`.
pub open spec fn id_taken(taken: Seq<String>, t: Seq<char>) -> bool {
    exists|i: int| 0 <= i < taken.len() && taken[i]@ == t
}

/// Whether `id` is among `taken`.
pub fn is_taken(taken: &Vec<String>, id: &String) -> (r: bool)
    ensures
        r == id_taken(taken@, id@),
{
    let mut i: usize = 0;
    while i < taken.len()
        invariant
            0 <= i <= taken@.len(),
            forall|k: int| 0 <= k < i ==> (#[trigger] taken@[k])@ != id@,
        decreases taken@.len() - i,
    {
        if taken[i] == *id {
            return true;
        }
        i = i + 1;
    }
    false
}

/// A random identifier that none of `taken` equals: a fresh random id,
/// lengthened by `-` for as long as it collides.
pub fn unique_id(taken: &Vec<String>) -> (r: String)
    ensures
        !id_taken(taken@, r@),
{
    let mut longest: usize = 0;
    let mut i: usize = 0;
    while i < taken.len()
        invariant
            0 <= i <= taken@.len(),
            forall|k: int| 0 <= k < i ==> (#[trigger] taken@[k])@.len() <= longest,
        decreases taken@.len() - i,
    {
        let l = taken[i].as_str().unicode_len();
        if l > longest {
            longest = l;
        }
        i = i + 1;
    }
    let mut id = crate::clock::new_id();
    while is_taken(taken, &id)
        invariant
            forall|k: int| 0 <= k < taken@.len() ==> (#[trigger] taken@[k])@.len() <= longest,
        decreases if id@.len() <= longest + 1 { longest + 1 - id@.len() } else { 0 },
    {
        proof {
            let k = choose|k: int| 0 <= k < taken@.len() && taken@[k]@ == id@;
            assert(taken@[k]@.len() <= longest);
        }
        id.append("-");
        proof {
            reveal_strlit("-");
        }
    }
    id
}

} // verus!
