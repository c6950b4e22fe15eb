//! Fechas civiles como valores planos: analisis de texto "AAAA-MM-DD",
//! validez calendarica y numero de dias transcurridos.

use vstd::prelude::*;

verus! {

/// Una fecha civil descompuesta en sus partes.
#[derive(Clone, Copy, PartialEq, Eq, Structural, Debug)]
pub struct Fecha {
    pub anio: i32,
    pub mes: u32,
    pub dia: u32,
}

pub open spec fn es_bisiesto(anio: int) -> bool {
    anio % 4 == 0 && (anio % 100 != 0 || anio % 400 == 0)
}

pub open spec fn dias_del_mes(anio: int, mes: int) -> int {
    if mes == 2 {
        if es_bisiesto(anio) {
            29
        } else {
            28
        }
    } else if mes == 4 || mes == 6 || mes == 9 || mes == 11 {
        30
    } else {
        31
    }
}

impl Fecha {
    /// Fecha bien formada: dentro del calendario y con anio de cuatro cifras.
    pub open spec fn bien_formada(self) -> bool {
        &&& 1 <= self.anio <= 9999
        &&& 1 <= self.mes <= 12
        &&& 1 <= self.dia <= dias_del_mes(self.anio as int, self.mes as int)
    }
}

/// Comprueba en tiempo de ejecucion que una fecha este bien formada.
pub fn fecha_bien_formada(f: &Fecha) -> (r: bool)
    ensures
        r == f.bien_formada(),
{
    if !(1 <= f.anio && f.anio <= 9999 && 1 <= f.mes && f.mes <= 12 && 1 <= f.dia) {
        return false;
    }
    let tope: u32 = if f.mes == 2 {
        let a = f.anio;
        if a % 4 == 0 && (a % 100 != 0 || a % 400 == 0) {
            29
        } else {
            28
        }
    } else if f.mes == 4 || f.mes == 6 || f.mes == 9 || f.mes == 11 {
        30
    } else {
        31
    };
    f.dia <= tope
}

/// Dias transcurridos desde la epoca civil (1970-01-01) hasta la fecha.
pub open spec fn dias_civiles(f: Fecha) -> int
    recommends
        f.bien_formada(),
{
    let a = f.anio as int;
    let m = f.mes as int;
    let d = f.dia as int;
    let y = if m <= 2 {
        a - 1
    } else {
        a
    };
    let era = y / 400;
    let yoe = y - era * 400;
    let mp = if m > 2 {
        m - 3
    } else {
        m + 9
    };
    let doy = (153 * mp + 2) / 5 + d - 1;
    let doe = yoe * 365 + yoe / 4 - yoe / 100 + doy;
    era * 146097 + doe - 719468
}

/// Calcula los dias civiles de una fecha bien formada.
pub fn numero_dias(f: &Fecha) -> (r: i64)
    requires
        f.bien_formada(),
    ensures
        r == dias_civiles(*f),
{
    let a = f.anio as u64;
    let m = f.mes as u64;
    let d = f.dia as u64;
    let y: u64 = if m <= 2 {
        a - 1
    } else {
        a
    };
    let era: u64 = y / 400;
    let yoe: u64 = y - era * 400;
    let mp: u64 = if m > 2 {
        m - 3
    } else {
        m + 9
    };
    let doy: u64 = (153 * mp + 2) / 5 + d - 1;
    let doe: u64 = yoe * 365 + yoe / 4 - yoe / 100 + doy;
    (era * 146097 + doe) as i64 - 719468
}

pub open spec fn es_digito(c: char) -> bool {
    '0' <= c && c <= '9'
}

pub open spec fn valor_digito(c: char) -> int {
    c as int - '0' as int
}

/// El dia empieza en `d0` y llena el resto del texto con una o dos cifras.
pub open spec fn formato_dia(s: Seq<char>, d0: int) -> bool {
    if s.len() == d0 + 1 {
        es_digito(s[d0])
    } else if s.len() == d0 + 2 {
        es_digito(s[d0]) && es_digito(s[d0 + 1])
    } else {
        false
    }
}

/// El texto tiene la forma "AAAA-MM-DD": anio de cuatro cifras, mes y dia
/// de una o dos cifras.
pub open spec fn formato_fecha(s: Seq<char>) -> bool {
    &&& s.len() >= 8
    &&& es_digito(s[0])
    &&& es_digito(s[1])
    &&& es_digito(s[2])
    &&& es_digito(s[3])
    &&& s[4] == '-'
    &&& es_digito(s[5])
    &&& if s[6] == '-' {
        formato_dia(s, 7)
    } else {
        es_digito(s[6]) && s[7] == '-' && formato_dia(s, 8)
    }
}

/// Indice donde empieza el dia: tras el segundo guion.
pub open spec fn inicio_dia(s: Seq<char>) -> int
    recommends
        formato_fecha(s),
{
    if s[6] == '-' {
        7int
    } else {
        8int
    }
}

pub open spec fn fecha_del_formato(s: Seq<char>) -> Fecha
    recommends
        formato_fecha(s),
{
    let mes = if s[6] == '-' {
        valor_digito(s[5])
    } else {
        valor_digito(s[5]) * 10 + valor_digito(s[6])
    };
    let d0 = inicio_dia(s);
    let dia = if s.len() == d0 + 1 {
        valor_digito(s[d0])
    } else {
        valor_digito(s[d0]) * 10 + valor_digito(s[d0 + 1])
    };
    Fecha {
        anio: (valor_digito(s[0]) * 1000 + valor_digito(s[1]) * 100 + valor_digito(s[2]) * 10
            + valor_digito(s[3])) as i32,
        mes: mes as u32,
        dia: dia as u32,
    }
}

/// Resultado del analisis de un texto de fecha: la fecha, solo si el texto
/// tiene la forma "AAAA-MM-DD" y cae dentro del calendario.
pub open spec fn fecha_de_texto(s: Seq<char>) -> Option<Fecha> {
    if formato_fecha(s) && fecha_del_formato(s).bien_formada() {
        Some(fecha_del_formato(s))
    } else {
        None
    }
}

/// Prefijo del texto hasta la primera 'T' (separador ISO fecha-hora), o el
/// texto entero si no la hay.
pub open spec fn prefijo_hasta_t(s: Seq<char>) -> Seq<char>
    decreases s.len(),
{
    if s.len() == 0 {
        s
    } else if s[0] == 'T' {
        Seq::empty()
    } else {
        seq![s[0]] + prefijo_hasta_t(s.drop_first())
    }
}

proof fn lema_prefijo_hasta_t(s: Seq<char>, i: int)
    requires
        0 <= i <= s.len(),
        forall|j: int| 0 <= j < i ==> s[j] != 'T',
        i < s.len() ==> s[i] == 'T',
    ensures
        prefijo_hasta_t(s) == s.subrange(0, i),
    decreases s.len(),
{
    if s.len() == 0 {
        assert(prefijo_hasta_t(s) =~= s.subrange(0, i));
    } else if s[0] == 'T' {
        assert(i == 0);
        assert(prefijo_hasta_t(s) =~= s.subrange(0, 0));
    } else {
        assert(i >= 1);
        lema_prefijo_hasta_t(s.drop_first(), i - 1);
        assert(s.drop_first().subrange(0, i - 1) =~= s.subrange(1, i));
        assert(seq![s[0]] + s.subrange(1, i) =~= s.subrange(0, i));
    }
}

fn digito_en(s: &str, i: usize) -> (r: Option<u32>)
    requires
        i < s@.len(),
    ensures
        match r {
            Some(v) => es_digito(s@[i as int]) && v == valor_digito(s@[i as int]),
            None => !es_digito(s@[i as int]),
        },
{
    let c = s.get_char(i);
    if '0' <= c && c <= '9' {
        Some(c as u32 - '0' as u32)
    } else {
        None
    }
}

fn dia_en(cuerpo: &str, d0: usize) -> (r: Option<u32>)
    requires
        d0 < cuerpo@.len() <= d0 + 2,
    ensures
        match r {
            Some(v) => formato_dia(cuerpo@, d0 as int) && v == (if cuerpo@.len() == d0 + 1 {
                valor_digito(cuerpo@[d0 as int])
            } else {
                valor_digito(cuerpo@[d0 as int]) * 10 + valor_digito(cuerpo@[d0 + 1])
            }),
            None => !formato_dia(cuerpo@, d0 as int),
        },
{
    let largo = cuerpo.unicode_len();
    match digito_en(cuerpo, d0) {
        Some(c0) => {
            if largo == d0 + 1 {
                Some(c0)
            } else {
                match digito_en(cuerpo, d0 + 1) {
                    Some(c1) => Some(c0 * 10 + c1),
                    None => None,
                }
            }
        },
        None => None,
    }
}

/// Analiza un texto de fecha "AAAA-MM-DD" (anio de cuatro cifras, mes y
/// dia de una o dos), descartando una parte horaria ISO que siga a una
/// 'T'.
pub fn parsear_fecha(texto: &str) -> (r: Option<Fecha>)
    ensures
        r == fecha_de_texto(prefijo_hasta_t(texto@)),
{
    let largo = texto.unicode_len();
    let mut corte: usize = 0;
    while corte < largo && texto.get_char(corte) != 'T'
        invariant
            0 <= corte <= largo,
            largo == texto@.len(),
            forall|j: int| 0 <= j < corte ==> texto@[j] != 'T',
        decreases largo - corte,
    {
        corte = corte + 1;
    }
    proof {
        lema_prefijo_hasta_t(texto@, corte as int);
    }
    let cuerpo = texto.substring_char(0, corte);
    let ghost s = prefijo_hasta_t(texto@);
    if corte < 8 || corte > 10 {
        return None;
    }
    let a0 = digito_en(cuerpo, 0);
    let a1 = digito_en(cuerpo, 1);
    let a2 = digito_en(cuerpo, 2);
    let a3 = digito_en(cuerpo, 3);
    let m0 = digito_en(cuerpo, 5);
    if cuerpo.get_char(4) != '-' {
        return None;
    }
    let (anio, mes0) = match (a0, a1, a2, a3, m0) {
        (Some(a0), Some(a1), Some(a2), Some(a3), Some(m0)) => {
            (a0 * 1000 + a1 * 100 + a2 * 10 + a3, m0)
        },
        _ => {
            return None;
        },
    };
    let (mes, inicio) = if cuerpo.get_char(6) == '-' {
        (mes0, 7usize)
    } else {
        match digito_en(cuerpo, 6) {
            Some(m1) => {
                if corte > 7 && cuerpo.get_char(7) == '-' {
                    (mes0 * 10 + m1, 8usize)
                } else {
                    return None;
                }
            },
            None => {
                return None;
            },
        }
    };
    if corte <= inicio || corte > inicio + 2 {
        return None;
    }
    match dia_en(cuerpo, inicio) {
        Some(dia) => {
            let f = Fecha { anio: anio as i32, mes, dia };
            assert(formato_fecha(s));
            assert(f == fecha_del_formato(s));
            if fecha_bien_formada(&f) {
                Some(f)
            } else {
                None
            }
        },
        None => None,
    }
}

} // verus!
