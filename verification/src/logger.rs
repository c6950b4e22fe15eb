//! Bitacora de diagnostico: un sumidero de anotaciones en memoria que el
//! nucleo alimenta en los puntos de control definidos. Quien orquesta la
//! corrida decide donde volcarla.

use vstd::prelude::*;
use crate::texto::textos_iguales;

verus! {

/// Una anotacion de la bitacora.
#[derive(Debug, PartialEq)]
pub struct Entrada {
    pub nivel: String,
    pub categoria: String,
    pub mensaje: String,
}

/// Imagen en especificacion de una anotacion.
pub struct VistaEntrada {
    pub nivel: Seq<char>,
    pub categoria: Seq<char>,
    pub mensaje: Seq<char>,
}

impl View for Entrada {
    type V = VistaEntrada;

    open spec fn view(&self) -> VistaEntrada {
        VistaEntrada { nivel: self.nivel@, categoria: self.categoria@, mensaje: self.mensaje@ }
    }
}

/// La bitacora de una corrida: bandera de habilitacion y anotaciones en
/// orden de llegada.
#[derive(Debug, PartialEq)]
pub struct Bitacora {
    pub activa: bool,
    pub entradas: Vec<Entrada>,
}

/// Imagen en especificacion de la bitacora.
pub struct VistaBitacora {
    pub activa: bool,
    pub entradas: Seq<VistaEntrada>,
}

impl View for Bitacora {
    type V = VistaBitacora;

    open spec fn view(&self) -> VistaBitacora {
        VistaBitacora {
            activa: self.activa,
            entradas: self.entradas@.map_values(|e: Entrada| e@),
        }
    }
}

/// La bitacora tras anotar: sin cambio si esta inhabilitada o si la
/// anotacion es de nivel INFO en la categoria CARGA (ese ruido queda para
/// la telemetria); en otro caso la anotacion queda al final.
pub open spec fn tras_escritura(
    b: VistaBitacora,
    nivel: Seq<char>,
    categoria: Seq<char>,
    mensaje: Seq<char>,
) -> VistaBitacora {
    if !b.activa {
        b
    } else if nivel == "INFO"@ && categoria == "CARGA"@ {
        b
    } else {
        VistaBitacora { activa: b.activa, entradas: b.entradas.push(VistaEntrada { nivel, categoria, mensaje }) }
    }
}

impl Bitacora {
    /// Crea la bitacora de una corrida.
    pub fn nueva(activa: bool) -> (r: Bitacora)
        ensures
            r@.activa == activa,
            r@.entradas == Seq::<VistaEntrada>::empty(),
    {
        let r = Bitacora { activa, entradas: Vec::new() };
        proof {
            assert(r@.entradas =~= Seq::<VistaEntrada>::empty());
        }
        r
    }
}

/// La bitacora esta habilitada.
pub fn is_enabled(b: &Bitacora) -> (r: bool)
    ensures
        r == b@.activa,
{
    b.activa
}

fn write_log(b: &mut Bitacora, nivel: &str, categoria: &str, mensaje: &str)
    ensures
        final(b)@ == tras_escritura(old(b)@, nivel@, categoria@, mensaje@),
{
    if !b.activa {
        return ;
    }
    if textos_iguales(nivel, "INFO") && textos_iguales(categoria, "CARGA") {
        return ;
    }
    let entrada = Entrada {
        nivel: String::from_str(nivel),
        categoria: String::from_str(categoria),
        mensaje: String::from_str(mensaje),
    };
    b.entradas.push(entrada);
    proof {
        assert(b@.entradas =~= old(b)@.entradas.push(
            VistaEntrada { nivel: nivel@, categoria: categoria@, mensaje: mensaje@ },
        ));
    }
}

/// Anota un error.
pub fn log_error(b: &mut Bitacora, categoria: &str, mensaje: &str)
    ensures
        final(b)@ == tras_escritura(old(b)@, "ERROR"@, categoria@, mensaje@),
{
    write_log(b, "ERROR", categoria, mensaje);
}

/// Anota una advertencia.
pub fn log_warn(b: &mut Bitacora, categoria: &str, mensaje: &str)
    ensures
        final(b)@ == tras_escritura(old(b)@, "WARN"@, categoria@, mensaje@),
{
    write_log(b, "WARN", categoria, mensaje);
}

/// Anota una nota informativa.
pub fn log_info(b: &mut Bitacora, categoria: &str, mensaje: &str)
    ensures
        final(b)@ == tras_escritura(old(b)@, "INFO"@, categoria@, mensaje@),
{
    write_log(b, "INFO", categoria, mensaje);
}

/// Anota un suceso del propio sistema, bajo la categoria CORE.
pub fn log_system(b: &mut Bitacora, mensaje: &str)
    ensures
        final(b)@ == tras_escritura(old(b)@, "SYSTEM"@, "CORE"@, mensaje@),
{
    write_log(b, "SYSTEM", "CORE", mensaje);
}

} // verus!
