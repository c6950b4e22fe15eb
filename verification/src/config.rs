//! Configuracion del proceso: datos de conexion y metadatos. Quien
//! orquesta la corrida la construye (del entorno o de valores fijos).

use vstd::prelude::*;

verus! {

/// Configuracion de la corrida.
#[derive(Debug, PartialEq, Eq)]
pub struct Config {
    pub sentinel_host: String,
    pub sentinel_port: String,
    pub version: String,
    pub autor: String,
    pub description: String,
    pub format_file: String,
}

impl Config {
    /// La URL del servidor de datos: "http://" + host + ":" + puerto.
    pub fn get_url(&self) -> (r: String)
        ensures
            r@ == "http://"@ + self.sentinel_host@ + ":"@ + self.sentinel_port@,
    {
        let mut r = String::from_str("http://");
        r.append(self.sentinel_host.as_str());
        r.append(":");
        r.append(self.sentinel_port.as_str());
        r
    }
}

} // verus!
