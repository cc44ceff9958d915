//! The order in which the source files of a directory are read.

use crate::text::views;
use rand::seq::SliceRandom;
use rand::thread_rng;
use vstd::prelude::*;

verus! {

/// `SliceRandom::shuffle` of rand, with the generator of `thread_rng`.
/// Believed, not proved: the files are the same as before, each as often as
/// before; nothing is said of their order, which differs from call to call.
#[verifier::external_body]
pub(crate) fn shuffle_in_place(files: &mut Vec<String>)
    ensures
        views(final(files)@).to_multiset() == views(old(files)@).to_multiset(),
{
    files.shuffle(&mut thread_rng())
}

/// Fixes the order in which source files are read: file-arrival order, or a
/// random order of the same files. The records within a file keep their order.
pub fn arrange_sources(files: Vec<String>, randomize: bool) -> (arranged: Vec<String>)
    ensures
        views(arranged@).to_multiset() == views(files@).to_multiset(),
        arranged.len() == files.len(),
        !randomize ==> views(arranged@) == views(files@),
{
    let mut arranged = files;
    if randomize {
        shuffle_in_place(&mut arranged);
    }
    proof {
        vstd::seq_lib::to_multiset_len(views(arranged@));
        vstd::seq_lib::to_multiset_len(views(files@));
    }
    arranged
}

} // verus!
