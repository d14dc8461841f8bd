//! Categories of products.

use vstd::prelude::*;

verus! {

/// A category, by identifier and name.
pub struct CategoriaResumo {
    pub id: String,
    pub nome: String,
}

impl Clone for CategoriaResumo {
    fn clone(&self) -> (res: Self)
        ensures
            res == *self,
    {
        CategoriaResumo { id: self.id.clone(), nome: self.nome.clone() }
    }
}

} // verus!
