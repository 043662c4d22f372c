//! The node directory as a list.

use crate::protocol::packet::User;
use std::collections::HashMap;
use vstd::prelude::*;
use vstd::std_specs::iter::IteratorSpec;

verus! {

broadcast use vstd::std_specs::hash::group_hash_axioms;

/// Whether a list holds the entries of a directory: one pair for every
/// sender in the directory and none besides, each with an identity that
/// says the same as the directory's. The order is not fixed.
pub open spec fn lists_directory(list: Seq<(u32, User)>, nodes: Map<u32, User>) -> bool {
    &&& list.len() == nodes.dom().len()
    &&& forall|i: int|
        0 <= i < list.len() ==> nodes.contains_key(#[trigger] list[i].0) && list[i].1.same_as(
            &nodes[list[i].0],
        )
    &&& forall|i: int, j: int| 0 <= i < j < list.len() ==> list[i].0 != list[j].0
    &&& forall|id: u32|
        nodes.contains_key(id) ==> exists|i: int| 0 <= i < list.len() && #[trigger] list[i].0 == id
}

/// The entries of a directory, in no particular order.
pub fn directory_entries(directory: &HashMap<u32, User>) -> (list: Vec<(u32, User)>)
    ensures
        lists_directory(list@, directory@),
{
    let mut list: Vec<(u32, User)> = Vec::new();
    let ghost all = directory.iter().remaining();
    for pair in it: directory.iter()
        invariant
            it.seq() == all,
            list@.len() == it.index(),
            forall|i: int|
                0 <= i < list@.len() ==> list@[i].0 == *all[i].0 && (#[trigger] list@[i]).1.same_as(
                    all[i].1,
                ),
    {
        let (id, user) = pair;
        list.push((*id, user.duplicate()));
    }
    proof {
        assert forall|i: int, j: int| 0 <= i < j < list@.len() implies list@[i].0 != list@[j].0 by {
            assert(directory@.contains_key(*all[i].0) && directory@[*all[i].0] == *all[i].1);
            assert(directory@.contains_key(*all[j].0) && directory@[*all[j].0] == *all[j].1);
            if list@[i].0 == list@[j].0 {
                assert(all[i] == all[j]);
            }
        }
        assert forall|i: int| 0 <= i < list@.len() implies directory@.contains_key(
            #[trigger] list@[i].0,
        ) && list@[i].1.same_as(&directory@[list@[i].0]) by {
            assert(directory@.contains_key(*all[i].0) && directory@[*all[i].0] == *all[i].1);
        }
        assert forall|id: u32| directory@.contains_key(id) implies exists|i: int|
            0 <= i < list@.len() && #[trigger] list@[i].0 == id by {
            assert(all.contains((&id, &directory@[id])));
            let k = choose|k: int| 0 <= k < all.len() && all[k] == (&id, &directory@[id]);
            assert(list@[k].0 == id);
        }
    }
    list
}

} // verus!
