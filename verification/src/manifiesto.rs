//! Manifiesto de ejecucion: nombre del ciclo, metadatos y configuracion
//! de cada carga. La lectura desde archivo queda fuera; aqui vive el
//! manifiesto por defecto con sus filtros de seguridad.

use vstd::prelude::*;
use crate::fecha::Fecha;
use crate::texto::{digitos, digitos_entero, texto_i64, texto_u64};

verus! {

/// Configuracion de una carga: filtro, limite y parametros extra.
#[derive(Debug, PartialEq, Eq)]
pub struct CargaConfig {
    pub sql_filter: Option<String>,
    pub limit: Option<u32>,
    pub parametros_extra: Option<String>,
}

impl Clone for CargaConfig {
    fn clone(&self) -> (r: Self)
        ensures
            r == *self,
    {
        CargaConfig {
            sql_filter: match &self.sql_filter {
                Some(s) => Some(s.clone()),
                None => None,
            },
            limit: match self.limit {
                Some(v) => Some(v),
                None => None,
            },
            parametros_extra: match &self.parametros_extra {
                Some(s) => Some(s.clone()),
                None => None,
            },
        }
    }
}

impl Default for CargaConfig {
    fn default() -> (r: Self)
        ensures
            r.sql_filter is None,
            r.limit is None,
            r.parametros_extra is None,
    {
        CargaConfig { sql_filter: None, limit: None, parametros_extra: None }
    }
}

/// Manifiesto de una corrida.
#[derive(Debug, PartialEq, Eq)]
pub struct Manifiesto {
    pub nombre: String,
    pub ciclo: String,
    pub descripcion: String,
    pub autor: String,
    pub fecha: String,
    pub version: String,
    pub parametros_globales: Vec<(String, String)>,
    pub cargas: Vec<(String, CargaConfig)>,
}

/// Autor por defecto de un manifiesto.
pub fn default_autor() -> (r: String)
    ensures
        r@ == "Sistema"@,
{
    String::from_str("Sistema")
}

/// Version por defecto de un manifiesto.
pub fn default_version() -> (r: String)
    ensures
        r@ == "1.0.0"@,
{
    String::from_str("1.0.0")
}

/// Numero en dos cifras, con cero a la izquierda bajo diez.
pub open spec fn dos_cifras(n: int) -> Seq<char> {
    if 0 <= n < 10 {
        seq!['0'] + digitos(n as nat)
    } else {
        digitos_entero(n)
    }
}

/// Una fecha escrita "AAAA-MM-DD".
pub open spec fn espec_texto_fecha(f: Fecha) -> Seq<char> {
    digitos_entero(f.anio as int) + seq!['-'] + dos_cifras(f.mes as int) + seq!['-'] + dos_cifras(
        f.dia as int,
    )
}

/// Escribe una fecha como "AAAA-MM-DD".
pub fn texto_fecha(f: Fecha) -> (r: String)
    ensures
        r@ == espec_texto_fecha(f),
{
    let mut r = texto_i64(f.anio as i64);
    crate::texto::empujar_caracter(&mut r, '-');
    if f.mes < 10 {
        crate::texto::empujar_caracter(&mut r, '0');
    }
    let mes = texto_u64(f.mes as u64);
    r.append(mes.as_str());
    crate::texto::empujar_caracter(&mut r, '-');
    if f.dia < 10 {
        crate::texto::empujar_caracter(&mut r, '0');
    }
    let dia = texto_u64(f.dia as u64);
    r.append(dia.as_str());
    proof {
        assert(r@ =~= espec_texto_fecha(f));
    }
    r
}

/// Fecha por defecto de un manifiesto: el dia de hoy escrito "AAAA-MM-DD".
pub fn default_fecha() -> (r: String)
    ensures
        exists|f: Fecha| r@ == espec_texto_fecha(f),
{
    let hoy = crate::calc::fecha_hoy();
    let r = texto_fecha(hoy);
    proof {
        assert(r@ == espec_texto_fecha(hoy));
    }
    r
}

/// Una entrada de cargas con ese nombre de funcion, ese filtro, y sin
/// limite ni parametros extra.
pub open spec fn es_carga(c: (String, CargaConfig), nombre: Seq<char>, filtro: Seq<char>) -> bool {
    &&& c.0@ == nombre
    &&& c.1.sql_filter is Some
    &&& c.1.sql_filter.unwrap()@ == filtro
    &&& c.1.limit is None
    &&& c.1.parametros_extra is None
}

impl Manifiesto {
    /// El manifiesto por defecto, salvo su fecha: nombre, ciclo y filtros
    /// de seguridad fijos (directiva 81, activos 201).
    pub open spec fn es_mock(m: Manifiesto) -> bool {
        &&& m.nombre@ == "Ejecución Default (Segura)"@
        &&& m.ciclo@ == "DEFAULT_2026"@
        &&& m.descripcion@
            == "Ejecución automática con filtros de seguridad (Directiva 81 / Activos)"@
        &&& m.autor@ == "Sistema (Default)"@
        &&& m.version@ == "1.0.0"@
        &&& m.parametros_globales@ == Seq::<(String, String)>::empty()
        &&& m.cargas@.len() == 5
        &&& es_carga(m.cargas@[0], "IPSFA_CPrimasFunciones"@, "f.oidd = 81"@)
        &&& es_carga(
            m.cargas@[1],
            "IPSFA_CDirectiva"@,
            "dd.directiva_sueldo_id = 81 and dd.sueldo_base > 0"@,
        )
        &&& es_carga(m.cargas@[2], "IPSFA_CConceptos"@, "directiva_sueldo_id = 81"@)
        &&& es_carga(m.cargas@[3], "IPSFA_CBase"@, "status_id = 201"@)
        &&& es_carga(m.cargas@[4], "IPSFA_CBeneficiarios"@, "bnf.status_id = 201"@)
    }

    /// Construye el manifiesto por defecto, con la fecha de hoy.
    pub fn default_mock() -> (r: Manifiesto)
        ensures
            Manifiesto::es_mock(r),
            exists|f: Fecha| r.fecha@ == espec_texto_fecha(f),
    {
        let mut cargas: Vec<(String, CargaConfig)> = Vec::new();
        cargas.push(
            (
                String::from_str("IPSFA_CPrimasFunciones"),
                CargaConfig {
                    sql_filter: Some(String::from_str("f.oidd = 81")),
                    limit: None,
                    parametros_extra: None,
                },
            ),
        );
        cargas.push(
            (
                String::from_str("IPSFA_CDirectiva"),
                CargaConfig {
                    sql_filter: Some(
                        String::from_str("dd.directiva_sueldo_id = 81 and dd.sueldo_base > 0"),
                    ),
                    limit: None,
                    parametros_extra: None,
                },
            ),
        );
        cargas.push(
            (
                String::from_str("IPSFA_CConceptos"),
                CargaConfig {
                    sql_filter: Some(String::from_str("directiva_sueldo_id = 81")),
                    limit: None,
                    parametros_extra: None,
                },
            ),
        );
        cargas.push(
            (
                String::from_str("IPSFA_CBase"),
                CargaConfig {
                    sql_filter: Some(String::from_str("status_id = 201")),
                    limit: None,
                    parametros_extra: None,
                },
            ),
        );
        cargas.push(
            (
                String::from_str("IPSFA_CBeneficiarios"),
                CargaConfig {
                    sql_filter: Some(String::from_str("bnf.status_id = 201")),
                    limit: None,
                    parametros_extra: None,
                },
            ),
        );
        let r = Manifiesto {
            nombre: String::from_str("Ejecución Default (Segura)"),
            ciclo: String::from_str("DEFAULT_2026"),
            descripcion: String::from_str(
                "Ejecución automática con filtros de seguridad (Directiva 81 / Activos)",
            ),
            autor: String::from_str("Sistema (Default)"),
            fecha: default_fecha(),
            version: String::from_str("1.0.0"),
            parametros_globales: Vec::new(),
            cargas,
        };
        proof {
            assert(r.parametros_globales@ =~= Seq::<(String, String)>::empty());
        }
        r
    }
}

impl Default for Manifiesto {
    fn default() -> (r: Self)
        ensures
            Manifiesto::es_mock(r),
    {
        Manifiesto::default_mock()
    }
}

} // verus!
