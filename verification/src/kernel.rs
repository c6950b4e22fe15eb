//! Memoria de trabajo de la corrida: los conjuntos de datos cargados y el
//! manifiesto con el que se ejecuta. La conexion al canal remoto vive en
//! quien orquesta.

use vstd::prelude::*;
use crate::manifiesto::Manifiesto;
use crate::memoria::{Base, Beneficiario, Concepto, Directiva, Movimiento, PrimaFuncion};

verus! {

/// La memoria de trabajo del ciclo de nomina.
#[derive(Debug)]
pub struct Perceptron {
    pub directiva: Vec<Directiva>,
    pub primas_funciones: Vec<PrimaFuncion>,
    pub conceptos: Vec<Concepto>,
    pub base: Vec<Base>,
    pub movimientos: Vec<Movimiento>,
    pub beneficiarios: Vec<Beneficiario>,
    pub config: Manifiesto,
}

impl Perceptron {
    /// Memoria de trabajo vacia, con el manifiesto por defecto.
    pub open spec fn es_inicial(p: Perceptron) -> bool {
        &&& p.directiva@ == Seq::<Directiva>::empty()
        &&& p.primas_funciones@ == Seq::<PrimaFuncion>::empty()
        &&& p.conceptos@ == Seq::<Concepto>::empty()
        &&& p.base@ == Seq::<Base>::empty()
        &&& p.movimientos@ == Seq::<Movimiento>::empty()
        &&& p.beneficiarios@ == Seq::<Beneficiario>::empty()
        &&& Manifiesto::es_mock(p.config)
    }

    /// Crea la memoria de trabajo de una corrida.
    pub fn new() -> (r: Perceptron)
        ensures
            Perceptron::es_inicial(r),
    {
        let r = Perceptron {
            directiva: Vec::new(),
            primas_funciones: Vec::new(),
            conceptos: Vec::new(),
            base: Vec::new(),
            movimientos: Vec::new(),
            beneficiarios: Vec::new(),
            config: Manifiesto::default_mock(),
        };
        proof {
            assert(r.directiva@ =~= Seq::<Directiva>::empty());
            assert(r.primas_funciones@ =~= Seq::<PrimaFuncion>::empty());
            assert(r.conceptos@ =~= Seq::<Concepto>::empty());
            assert(r.base@ =~= Seq::<Base>::empty());
            assert(r.movimientos@ =~= Seq::<Movimiento>::empty());
            assert(r.beneficiarios@ =~= Seq::<Beneficiario>::empty());
        }
        r
    }
}

impl Default for Perceptron {
    fn default() -> (r: Self)
        ensures
            Perceptron::es_inicial(r),
    {
        Perceptron::new()
    }
}

} // verus!
