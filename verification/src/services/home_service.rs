//! The home page: which categories it shows products of.

use crate::models::categoria::CategoriaResumo;
use vstd::prelude::*;

verus! {

/// The largest number of categories whose products the home page shows.
pub const MAX_HOME_CATEGORIES: usize = 7;

/// Puts the categories in a random order.
///
/// Calls `shuffle` of `rand::seq::SliceRandom` with the generator that
/// `rand::rng` gives. The contract claims what holds of every outcome: the
/// categories are the same ones, each as often as before.
#[verifier::external_body]
fn shuffle(categorias: &mut Vec<CategoriaResumo>)
    ensures
        final(categorias)@.to_multiset() == old(categorias)@.to_multiset(),
{
    rand::seq::SliceRandom::shuffle(categorias.as_mut_slice(), &mut rand::rng());
}

/// The home page.
pub struct HomeService;

impl HomeService {
    /// Picks the categories whose products the home page shows: all of them
    /// where they are seven or fewer, in their order; otherwise seven of
    /// them, chosen at random.
    pub fn pick_categories(all: &Vec<CategoriaResumo>) -> (picked: Vec<CategoriaResumo>)
        ensures
            all.len() <= MAX_HOME_CATEGORIES ==> picked@ == all@,
            all.len() > MAX_HOME_CATEGORIES ==> picked.len() == MAX_HOME_CATEGORIES,
            picked@.to_multiset().subset_of(all@.to_multiset()),
    {
        let n = all.len();
        let mut copy: Vec<CategoriaResumo> = Vec::new();
        let mut i: usize = 0;
        while i < n
            invariant
                i <= n,
                n == all.len(),
                copy@ == all@.take(i as int),
            decreases n - i,
        {
            copy.push(all[i].clone());
            proof {
                assert(copy@ =~= all@.take(i + 1));
            }
            i = i + 1;
        }
        proof {
            assert(all@.take(n as int) =~= all@);
        }
        if n <= MAX_HOME_CATEGORIES {
            return copy;
        }
        shuffle(&mut copy);
        let ghost shuffled = copy@;
        proof {
            shuffled.to_multiset_ensures();
            all@.to_multiset_ensures();
        }
        copy.truncate(MAX_HOME_CATEGORIES);
        proof {
            let head = shuffled.take(MAX_HOME_CATEGORIES as int);
            let tail = shuffled.skip(MAX_HOME_CATEGORIES as int);
            assert(copy@ =~= head);
            assert(head + tail =~= shuffled);
            vstd::seq_lib::lemma_multiset_commutative(head, tail);
        }
        copy
    }
}

} // verus!
