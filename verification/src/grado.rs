//! Grado militar: identificador, codigo, nombre y componente.

use vstd::prelude::*;
use crate::componente::Componente;

verus! {

/// Un grado militar.
#[derive(Debug, PartialEq, Eq)]
pub struct Grado {
    pub id: u32,
    pub codigo: String,
    pub nombre: String,
    pub componente: Componente,
}

impl Clone for Grado {
    fn clone(&self) -> (r: Self)
        ensures
            r == *self,
    {
        Grado {
            id: self.id,
            codigo: self.codigo.clone(),
            nombre: self.nombre.clone(),
            componente: *&self.componente,
        }
    }
}

} // verus!
