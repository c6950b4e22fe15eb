//! Exportacion de la nomina fusionada como tabla CSV en memoria: una fila
//! de cabecera y una fila por beneficiario, con los montos en centimos
//! escritos con dos decimales. La escritura en disco queda en quien
//! orquesta.

use vstd::prelude::*;
use crate::logger::{log_info, tras_escritura, Bitacora};
use crate::memoria::{valor_calculo, vistas_beneficiarios, Beneficiario, VistaBeneficiario};
use crate::texto::{digitos, digitos_centimos, texto_centimos, texto_u64};

verus! {

/// Nombre para la codificacion CSV de los campos de un registro.
pub uninterp spec fn linea_csv(campos: Seq<Seq<char>>) -> Seq<u8>;

/// Imagenes de una fila de campos.
pub open spec fn vista_campos(campos: Seq<String>) -> Seq<Seq<char>> {
    campos.map_values(|s: String| s@)
}

/// Apoya en csv::Writer del crate csv, escribiendo sobre un vector en
/// memoria: la codificacion CSV de los campos de un registro (comillas y
/// separadores incluidos) depende solo de los campos, lo que `linea_csv`
/// nombra.
#[verifier::external_body]
fn codificar_linea_csv(campos: &Vec<String>) -> (r: Vec<u8>)
    ensures
        r@ == linea_csv(vista_campos(campos@)),
{
    let mut escritor = csv::Writer::from_writer(Vec::new());
    let _ = escritor.write_record(campos.iter());
    match escritor.into_inner() {
        Ok(v) => v,
        Err(_) => Vec::new(),
    }
}

/// El texto de un campo opcional, o vacio si falta.
pub open spec fn espec_texto_o_vacio(o: Option<String>) -> Seq<char> {
    match o {
        Some(s) => s@,
        None => Seq::empty(),
    }
}

fn texto_o_vacio(o: &Option<String>) -> (r: String)
    ensures
        r@ == espec_texto_o_vacio(*o),
{
    match o {
        Some(s) => s.clone(),
        None => String::new(),
    }
}

/// Campo de fecha: el del registro Base si existe, si no el del propio
/// beneficiario, si no vacio.
pub open spec fn espec_fecha_preferida(
    del_base: Option<String>,
    del_beneficiario: Option<String>,
) -> Seq<char> {
    match del_base {
        Some(s) => s@,
        None => espec_texto_o_vacio(del_beneficiario),
    }
}

fn fecha_preferida(del_base: &Option<String>, del_beneficiario: &Option<String>) -> (r: String)
    ensures
        r@ == espec_fecha_preferida(*del_base, *del_beneficiario),
{
    match del_base {
        Some(s) => s.clone(),
        None => texto_o_vacio(del_beneficiario),
    }
}

/// Los encabezados de la tabla exportada.
pub open spec fn espec_encabezado() -> Seq<Seq<char>> {
    seq![
        "cedula"@,
        "nombres"@,
        "apellidos"@,
        "sexo"@,
        "edo_civil"@,
        "n_hijos (base)"@,
        "componente_id"@,
        "grado_id (base)"@,
        "categoria"@,
        "status_id"@,
        "status"@,
        "st_no_ascenso"@,
        "fecha_ingreso"@,
        "fecha_ultimo_ascenso"@,
        "fecha_retiro"@,
        "anio_reconocido"@,
        "mes_reconocido"@,
        "dia_reconocido"@,
        "antiguedad_total (decimal)"@,
        "antiguedad_grado (anos)"@,
        "sueldo_base"@,
        "prima_antiguedad"@,
        "prima_hijos"@,
        "prima_profesionalizacion"@,
        "total_asignaciones_base"@,
        "cap_banco"@,
        "anticipo"@,
        "f_cap_banco"@,
        "dif_asi_anti"@,
        "anticipo_retroactivo"@,
        "dep_adicional"@,
        "dep_garantia"@,
        "patterns"@,
    ]
}

fn encabezado() -> (r: Vec<String>)
    ensures
        vista_campos(r@) == espec_encabezado(),
{
    let mut r: Vec<String> = Vec::new();
    r.push(String::from_str("cedula"));
    r.push(String::from_str("nombres"));
    r.push(String::from_str("apellidos"));
    r.push(String::from_str("sexo"));
    r.push(String::from_str("edo_civil"));
    r.push(String::from_str("n_hijos (base)"));
    r.push(String::from_str("componente_id"));
    r.push(String::from_str("grado_id (base)"));
    r.push(String::from_str("categoria"));
    r.push(String::from_str("status_id"));
    r.push(String::from_str("status"));
    r.push(String::from_str("st_no_ascenso"));
    r.push(String::from_str("fecha_ingreso"));
    r.push(String::from_str("fecha_ultimo_ascenso"));
    r.push(String::from_str("fecha_retiro"));
    r.push(String::from_str("anio_reconocido"));
    r.push(String::from_str("mes_reconocido"));
    r.push(String::from_str("dia_reconocido"));
    r.push(String::from_str("antiguedad_total (decimal)"));
    r.push(String::from_str("antiguedad_grado (anos)"));
    r.push(String::from_str("sueldo_base"));
    r.push(String::from_str("prima_antiguedad"));
    r.push(String::from_str("prima_hijos"));
    r.push(String::from_str("prima_profesionalizacion"));
    r.push(String::from_str("total_asignaciones_base"));
    r.push(String::from_str("cap_banco"));
    r.push(String::from_str("anticipo"));
    r.push(String::from_str("f_cap_banco"));
    r.push(String::from_str("dif_asi_anti"));
    r.push(String::from_str("anticipo_retroactivo"));
    r.push(String::from_str("dep_adicional"));
    r.push(String::from_str("dep_garantia"));
    r.push(String::from_str("patterns"));
    proof {
        assert(vista_campos(r@) =~= espec_encabezado());
    }
    r
}

/// La fila exportada de un beneficiario: identidad, campos de su registro
/// Base, primas con nombre fijo leidas de sus calculos, y movimientos.
pub open spec fn espec_fila(b: VistaBeneficiario) -> Seq<Seq<char>> {
    seq![
        b.cedula@,
        b.nombres@,
        b.apellidos@,
        espec_texto_o_vacio(b.sexo),
        espec_texto_o_vacio(b.edo_civil),
        digitos(b.base.n_hijos as nat),
        digitos(b.componente_id as nat),
        digitos(b.base.grado_id as nat),
        espec_texto_o_vacio(b.categoria),
        digitos(b.status_id as nat),
        digitos(b.status as nat),
        digitos(b.st_no_ascenso as nat),
        espec_fecha_preferida(b.base.fecha_ingreso, b.f_ingreso_sistema),
        espec_fecha_preferida(b.base.f_ult_ascenso, b.f_ult_ascenso),
        espec_fecha_preferida(b.base.f_retiro, b.f_retiro),
        digitos(b.base.anio_reconocido as nat),
        digitos(b.base.mes_reconocido as nat),
        digitos(b.base.dia_reconocido as nat),
        digitos(b.base.antiguedad as nat),
        digitos(b.base.antiguedad_grado as nat),
        digitos_centimos(b.base.sueldo_base as int),
        digitos_centimos(valor_calculo(b.base.calculos, "prima_tiemposervicio"@) as int),
        digitos_centimos(valor_calculo(b.base.calculos, "prima_hijos"@) as int),
        digitos_centimos(valor_calculo(b.base.calculos, "prima_profesionalizacion"@) as int),
        digitos_centimos(b.base.total_asignaciones as int),
        digitos_centimos(b.movimientos.cap_banco as int),
        digitos_centimos(b.movimientos.anticipo as int),
        digitos_centimos(b.movimientos.fcap_banco as int),
        digitos_centimos(b.movimientos.dif_asi_anti as int),
        digitos_centimos(b.movimientos.anticipor as int),
        digitos_centimos(b.movimientos.dep_adicional as int),
        digitos_centimos(b.movimientos.dep_garantia as int),
        b.patterns@,
    ]
}

/// Construye la fila exportada de un beneficiario.
pub fn fila_nomina(b: &Beneficiario) -> (r: Vec<String>)
    ensures
        vista_campos(r@) == espec_fila(b@),
{
    let mut r: Vec<String> = Vec::new();
    r.push(b.cedula.clone());
    r.push(b.nombres.clone());
    r.push(b.apellidos.clone());
    r.push(texto_o_vacio(&b.sexo));
    r.push(texto_o_vacio(&b.edo_civil));
    r.push(texto_u64(b.base.n_hijos as u64));
    r.push(texto_u64(b.componente_id as u64));
    r.push(texto_u64(b.base.grado_id as u64));
    r.push(texto_o_vacio(&b.categoria));
    r.push(texto_u64(b.status_id as u64));
    r.push(texto_u64(b.status as u64));
    r.push(texto_u64(b.st_no_ascenso as u64));
    r.push(fecha_preferida(&b.base.fecha_ingreso, &b.f_ingreso_sistema));
    r.push(fecha_preferida(&b.base.f_ult_ascenso, &b.f_ult_ascenso));
    r.push(fecha_preferida(&b.base.f_retiro, &b.f_retiro));
    r.push(texto_u64(b.base.anio_reconocido as u64));
    r.push(texto_u64(b.base.mes_reconocido as u64));
    r.push(texto_u64(b.base.dia_reconocido as u64));
    r.push(texto_u64(b.base.antiguedad as u64));
    r.push(texto_u64(b.base.antiguedad_grado as u64));
    r.push(texto_centimos(b.base.sueldo_base));
    r.push(texto_centimos(crate::memoria::buscar_calculo(&b.base.calculos, "prima_tiemposervicio")));
    r.push(texto_centimos(crate::memoria::buscar_calculo(&b.base.calculos, "prima_hijos")));
    r.push(
        texto_centimos(crate::memoria::buscar_calculo(&b.base.calculos, "prima_profesionalizacion")),
    );
    r.push(texto_centimos(b.base.total_asignaciones));
    r.push(texto_centimos(b.movimientos.cap_banco));
    r.push(texto_centimos(b.movimientos.anticipo));
    r.push(texto_centimos(b.movimientos.fcap_banco));
    r.push(texto_centimos(b.movimientos.dif_asi_anti));
    r.push(texto_centimos(b.movimientos.anticipor));
    r.push(texto_centimos(b.movimientos.dep_adicional));
    r.push(texto_centimos(b.movimientos.dep_garantia));
    r.push(b.patterns.clone());
    proof {
        assert(vista_campos(r@) =~= espec_fila(b@));
    }
    r
}

/// Los bytes de la tabla exportada: la cabecera y una linea por
/// beneficiario, en orden.
pub open spec fn espec_csv(bens: Seq<VistaBeneficiario>) -> Seq<u8>
    decreases bens.len(),
{
    if bens.len() == 0 {
        linea_csv(espec_encabezado())
    } else {
        espec_csv(bens.drop_last()) + linea_csv(espec_fila(bens.last()))
    }
}

/// Mensaje con el que se anota una exportacion terminada.
pub open spec fn mensaje_exportacion() -> Seq<char> {
    "Archivo CSV generado correctamente."@
}

/// Exporta la nomina fusionada como tabla CSV en memoria y anota el
/// termino de la exportacion.
pub fn exportar_nomina_csv(beneficiarios: &Vec<Beneficiario>, bitacora: &mut Bitacora) -> (r: Vec<
    u8,
>)
    ensures
        r@ == espec_csv(vistas_beneficiarios(beneficiarios@)),
        final(bitacora)@ == tras_escritura(old(bitacora)@, "INFO"@, "EXPORT"@, mensaje_exportacion()),
{
    let ghost vistas = vistas_beneficiarios(beneficiarios@);
    let cabecera = encabezado();
    let mut bytes = codificar_linea_csv(&cabecera);
    let mut i: usize = 0;
    proof {
        assert(espec_csv(vistas.subrange(0, 0)) == linea_csv(espec_encabezado()));
    }
    while i < beneficiarios.len()
        invariant
            i <= beneficiarios.len(),
            vistas == vistas_beneficiarios(beneficiarios@),
            vistas.len() == beneficiarios@.len(),
            bytes@ == espec_csv(vistas.subrange(0, i as int)),
        decreases beneficiarios.len() - i,
    {
        let fila = fila_nomina(&beneficiarios[i]);
        let mut linea = codificar_linea_csv(&fila);
        bytes.append(&mut linea);
        proof {
            let ahora = vistas.subrange(0, i + 1 as int);
            assert(ahora.drop_last() =~= vistas.subrange(0, i as int));
            assert(ahora.last() == vistas[i as int]);
        }
        i = i + 1;
    }
    proof {
        assert(vistas.subrange(0, vistas.len() as int) =~= vistas);
    }
    log_info(bitacora, "EXPORT", "Archivo CSV generado correctamente.");
    bytes
}

} // verus!
