//! Nucleo de calculo de nomina militar: tablas de referencia, motor de
//! formulas con disyuntor por formula, ingesta de lotes, fusion de
//! beneficiarios y exportacion tabular. Los montos monetarios se modelan
//! como enteros en centimos; la entrada y salida (red, archivos, reloj)
//! queda en quien orquesta, que entrega y recibe valores planos.

use vstd::prelude::*;

pub mod archivo;
pub mod beneficiario;
pub mod calc;
pub mod cargador;
pub mod componente;
pub mod config;
pub mod exportador;
pub mod fecha;
pub mod grado;
pub mod kernel;
pub mod logger;
pub mod manifiesto;
pub mod memoria;
pub mod motor;
pub mod seguridad;
pub mod telemetria;
pub mod texto;

verus! {

/// Punto de entrada del nucleo: la memoria de trabajo y la configuracion.
#[derive(Debug)]
pub struct System {
    pub kernel: kernel::Perceptron,
    pub config: config::Config,
}

impl System {
    /// Construye el sistema con una configuracion dada y la memoria de
    /// trabajo inicial.
    pub fn nuevo(config: config::Config) -> (r: System)
        ensures
            kernel::Perceptron::es_inicial(r.kernel),
            r.config == config,
    {
        System { kernel: kernel::Perceptron::new(), config }
    }
}

} // verus!

