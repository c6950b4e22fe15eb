//! Componentes de la fuerza armada.

use vstd::prelude::*;

verus! {

/// Componente militar al que pertenece un grado o un beneficiario.
#[derive(Debug, Clone, Copy, PartialEq, Eq, Hash, Structural)]
pub enum Componente {
    Ejercito,
    Armada,
    Aviacion,
    GuardiaNacional,
    Milicia,
}

impl Componente {
    /// Codigo numerico heredado del componente.
    pub open spec fn espec_codigo(self) -> u32 {
        match self {
            Componente::Ejercito => 1,
            Componente::Armada => 2,
            Componente::Aviacion => 3,
            Componente::GuardiaNacional => 4,
            Componente::Milicia => 5,
        }
    }

    /// Codigo numerico heredado del componente.
    pub fn codigo(&self) -> (r: u32)
        ensures
            r == self.espec_codigo(),
    {
        match self {
            Componente::Ejercito => 1,
            Componente::Armada => 2,
            Componente::Aviacion => 3,
            Componente::GuardiaNacional => 4,
            Componente::Milicia => 5,
        }
    }

    /// Nombre oficial del componente.
    pub open spec fn espec_descripcion(self) -> Seq<char> {
        match self {
            Componente::Ejercito => "Ejército Bolivariano"@,
            Componente::Armada => "Armada Bolivariana"@,
            Componente::Aviacion => "Aviación Militar Bolivariana"@,
            Componente::GuardiaNacional => "Guardia Nacional Bolivariana"@,
            Componente::Milicia => "Milicia Bolivariana"@,
        }
    }

    /// Nombre oficial del componente.
    pub fn description(&self) -> (r: &'static str)
        ensures
            r@ == self.espec_descripcion(),
    {
        match self {
            Componente::Ejercito => "Ejército Bolivariano",
            Componente::Armada => "Armada Bolivariana",
            Componente::Aviacion => "Aviación Militar Bolivariana",
            Componente::GuardiaNacional => "Guardia Nacional Bolivariana",
            Componente::Milicia => "Milicia Bolivariana",
        }
    }
}

} // verus!
