//! Metadatos de archivos exportados: los datos del comprimido y el texto
//! del archivo anexo de metadatos. La escritura en disco queda fuera.

use vstd::prelude::*;

verus! {

/// Metadatos de un archivo comprimido ya generado.
#[derive(Debug, PartialEq, Eq)]
pub struct ZipMetadata {
    pub size: u64,
    pub md5: String,
    pub comment: Option<String>,
}

/// Contenido del archivo anexo de metadatos de una exportacion.
pub open spec fn espec_sidecar(autor: Seq<char>, archivo: Seq<char>) -> Seq<char> {
    "{ \"author\": \""@ + autor + "\", \"file\": \""@ + archivo + "\" }"@
}

/// Construye el texto del archivo anexo de metadatos.
pub fn texto_sidecar(autor: &str, archivo: &str) -> (r: String)
    ensures
        r@ == espec_sidecar(autor@, archivo@),
{
    let mut r = String::from_str("{ \"author\": \"");
    r.append(autor);
    r.append("\", \"file\": \"");
    r.append(archivo);
    r.append("\" }");
    r
}

} // verus!
