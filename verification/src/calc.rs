//! Calculo previo por registro: tiempo de servicio con la regla heredada de
//! meses de treinta dias, y asignacion del sueldo base segun la Directiva.

use vstd::prelude::*;
use crate::fecha::{
    dias_civiles, fecha_bien_formada, fecha_de_texto, numero_dias, prefijo_hasta_t,
    Fecha,
};
use crate::memoria::{Base, Directiva, VistaBase};

verus! {

/// Tiempo de servicio descompuesto, mas los anios enteros para calculos
/// numericos y la antiguedad en el grado.
#[derive(Debug, Clone, Copy, PartialEq, Eq, Structural)]
pub struct TiempoServicio {
    pub anos: u32,
    pub meses: u32,
    pub dias: u32,
    pub antiguedad: u32,
    pub antiguedad_grados: u32,
}

pub open spec fn recorte_u32(v: int) -> u32 {
    if v < 0 {
        0u32
    } else if v > u32::MAX {
        u32::MAX
    } else {
        v as u32
    }
}

fn recortar_u32(v: i64) -> (r: u32)
    ensures
        r == recorte_u32(v as int),
{
    if v < 0 {
        0
    } else if v > u32::MAX as i64 {
        u32::MAX
    } else {
        v as u32
    }
}

/// Resta calendarica heredada entre dos fechas, con prestamo de treinta
/// dias por mes, mas la antiguedad en el grado medida en dias civiles.
pub open spec fn espec_resta_fechas(f_inicio: Fecha, f_fin: Fecha, f_grado: Fecha)
    -> TiempoServicio {
    let dias0 = f_fin.dia as int - f_inicio.dia as int;
    let meses0 = f_fin.mes as int - f_inicio.mes as int;
    let anos0 = f_fin.anio as int - f_inicio.anio as int;
    let presta_dias = dias0 < 0;
    let dias1 = if presta_dias {
        dias0 + 30
    } else {
        dias0
    };
    let meses1 = if presta_dias {
        meses0 - 1
    } else {
        meses0
    };
    let presta_meses = meses1 < 0;
    let meses2 = if presta_meses {
        meses1 + 12
    } else {
        meses1
    };
    let anos1 = if presta_meses {
        anos0 - 1
    } else {
        anos0
    };
    let antiguedad = anos1 + if 30 * meses2 + dias1 >= 360 {
        1int
    } else {
        0int
    };
    let grado_anos = if f_fin.bien_formada() && f_grado.bien_formada() {
        let diferencia = dias_civiles(f_fin) - dias_civiles(f_grado);
        if diferencia <= 0 {
            0u32
        } else {
            recorte_u32(diferencia * 4 / 1461)
        }
    } else {
        0u32
    };
    TiempoServicio {
        anos: recorte_u32(anos1),
        meses: recorte_u32(meses2),
        dias: recorte_u32(dias1),
        antiguedad: recorte_u32(antiguedad),
        antiguedad_grados: grado_anos,
    }
}

/// Tiempo transcurrido entre `f_inicio` y `f_fin`, y antiguedad en el grado
/// desde `f_grado` hasta `f_fin`.
pub fn restar_fechas(f_inicio: Fecha, f_fin: Fecha, f_grado: Fecha) -> (t: TiempoServicio)
    ensures
        t == espec_resta_fechas(f_inicio, f_fin, f_grado),
{
    let mut dias: i64 = f_fin.dia as i64 - f_inicio.dia as i64;
    let mut meses: i64 = f_fin.mes as i64 - f_inicio.mes as i64;
    let mut anos: i64 = f_fin.anio as i64 - f_inicio.anio as i64;
    if dias < 0 {
        dias = dias + 30;
        meses = meses - 1;
    }
    if meses < 0 {
        meses = meses + 12;
        anos = anos - 1;
    }
    let antiguedad: i64 = anos + if 30 * meses + dias >= 360 {
        1
    } else {
        0
    };
    let grado_anos: u32 = if fecha_bien_formada(&f_fin) && fecha_bien_formada(&f_grado) {
        let diferencia = numero_dias(&f_fin) - numero_dias(&f_grado);
        if diferencia <= 0 {
            0
        } else {
            recortar_u32(diferencia * 4 / 1461)
        }
    } else {
        0
    };
    TiempoServicio {
        anos: recortar_u32(anos),
        meses: recortar_u32(meses),
        dias: recortar_u32(dias),
        antiguedad: recortar_u32(antiguedad),
        antiguedad_grados: grado_anos,
    }
}

/// Fecha tomada de un texto opcional, o la fecha dada cuando falta o no se
/// puede analizar.
pub open spec fn espec_fecha_o(texto: Option<String>, hoy: Fecha) -> Fecha {
    match texto {
        Some(s) => if s@.len() == 0 {
            hoy
        } else {
            match fecha_de_texto(prefijo_hasta_t(s@)) {
                Some(f) => f,
                None => hoy,
            }
        },
        None => hoy,
    }
}

/// Analiza un texto de fecha opcional; si falta, esta vacio o no se puede
/// analizar, devuelve la fecha dada.
pub fn parsear_fecha_o_hoy(texto: Option<&String>, hoy: Fecha) -> (r: Fecha)
    ensures
        r == espec_fecha_o(
            match texto {
                Some(s) => Some(*s),
                None => None,
            },
            hoy,
        ),
{
    match texto {
        Some(s) => {
            if s.as_str().is_empty() {
                hoy
            } else {
                match crate::fecha::parsear_fecha(s.as_str()) {
                    Some(f) => f,
                    None => hoy,
                }
            }
        },
        None => hoy,
    }
}

/// La fecha de ingreso corrida hacia atras por el servicio reconocido, con
/// la regla heredada de treinta dias por mes.
pub open spec fn espec_fecha_reconocida(f_ingreso: Fecha, b: VistaBase) -> Fecha {
    let y0 = f_ingreso.anio as int - b.anio_reconocido as int;
    let m0 = f_ingreso.mes as int - b.mes_reconocido as int;
    let d0 = f_ingreso.dia as int - b.dia_reconocido as int;
    let presta_dias = d0 < 1;
    let d1 = if presta_dias {
        d0 + 30
    } else {
        d0
    };
    let m1 = if presta_dias {
        m0 - 1
    } else {
        m0
    };
    let presta_meses = m1 < 1;
    let m2 = if presta_meses {
        m1 + 12
    } else {
        m1
    };
    let y1 = if presta_meses {
        y0 - 1
    } else {
        y0
    };
    let d2 = if d1 < 1 {
        1int
    } else if d1 > 30 {
        30int
    } else {
        d1
    };
    let m3 = if m2 < 1 {
        1int
    } else if m2 > 12 {
        12int
    } else {
        m2
    };
    let y2 = if y1 < i32::MIN {
        i32::MIN as int
    } else if y1 > i32::MAX {
        i32::MAX as int
    } else {
        y1
    };
    Fecha { anio: y2 as i32, mes: m3 as u32, dia: d2 as u32 }
}

/// Tiempo de servicio de un registro Base respecto de la fecha `hoy`.
pub open spec fn espec_tiempo_servicio(b: VistaBase, hoy: Fecha) -> TiempoServicio {
    let f_retiro = espec_fecha_o(b.f_retiro, hoy);
    let ingreso_analizado = match b.fecha_ingreso {
        Some(s) => fecha_de_texto(prefijo_hasta_t(s@)),
        None => None,
    };
    let f_ingreso_defecto = match ingreso_analizado {
        Some(f) => f,
        None => hoy,
    };
    let ascenso_analizado = match b.f_ult_ascenso {
        Some(s) => fecha_de_texto(prefijo_hasta_t(s@)),
        None => None,
    };
    let f_ascenso = match ascenso_analizado {
        Some(f) => f,
        None => f_ingreso_defecto,
    };
    let con_reconocimiento = b.anio_reconocido > 0 || b.mes_reconocido > 0 || b.dia_reconocido
        > 0;
    if con_reconocimiento && ingreso_analizado is Some {
        let reconocida = espec_fecha_reconocida(ingreso_analizado.unwrap(), b);
        if reconocida.bien_formada() {
            espec_resta_fechas(reconocida, f_retiro, f_ascenso)
        } else {
            espec_resta_fechas(f_ingreso_defecto, f_retiro, f_ascenso)
        }
    } else {
        espec_resta_fechas(f_ingreso_defecto, f_retiro, f_ascenso)
    }
}

/// Calcula el tiempo de servicio de un registro tomando `hoy` como fecha de
/// referencia para toda fecha ausente o ilegible.
pub fn calcular_tiempo_servicio_en(base: &Base, hoy: Fecha) -> (t: TiempoServicio)
    ensures
        t == espec_tiempo_servicio(base@, hoy),
{
    let f_retiro = parsear_fecha_o_hoy(base.f_retiro.as_ref(), hoy);
    let ingreso_analizado: Option<Fecha> = match base.fecha_ingreso.as_ref() {
        Some(s) => crate::fecha::parsear_fecha(s.as_str()),
        None => None,
    };
    let f_ingreso_defecto = match ingreso_analizado {
        Some(f) => f,
        None => hoy,
    };
    let ascenso_analizado: Option<Fecha> = match base.f_ult_ascenso.as_ref() {
        Some(s) => crate::fecha::parsear_fecha(s.as_str()),
        None => None,
    };
    let f_ascenso = match ascenso_analizado {
        Some(f) => f,
        None => f_ingreso_defecto,
    };
    let con_reconocimiento = base.anio_reconocido > 0 || base.mes_reconocido > 0
        || base.dia_reconocido > 0;
    if con_reconocimiento && ingreso_analizado.is_some() {
        let f_ingreso = ingreso_analizado.unwrap();
        let mut y: i64 = f_ingreso.anio as i64 - base.anio_reconocido as i64;
        let mut m: i64 = f_ingreso.mes as i64 - base.mes_reconocido as i64;
        let mut d: i64 = f_ingreso.dia as i64 - base.dia_reconocido as i64;
        if d < 1 {
            m = m - 1;
            d = d + 30;
        }
        if m < 1 {
            y = y - 1;
            m = m + 12;
        }
        let d_seguro: u32 = if d < 1 {
            1
        } else if d > 30 {
            30
        } else {
            d as u32
        };
        let m_seguro: u32 = if m < 1 {
            1
        } else if m > 12 {
            12
        } else {
            m as u32
        };
        let y_seguro: i32 = if y < i32::MIN as i64 {
            i32::MIN
        } else if y > i32::MAX as i64 {
            i32::MAX
        } else {
            y as i32
        };
        let reconocida = Fecha { anio: y_seguro, mes: m_seguro, dia: d_seguro };
        if fecha_bien_formada(&reconocida) {
            restar_fechas(reconocida, f_retiro, f_ascenso)
        } else {
            restar_fechas(f_ingreso_defecto, f_retiro, f_ascenso)
        }
    } else {
        restar_fechas(f_ingreso_defecto, f_retiro, f_ascenso)
    }
}

/// Indice de la fila de mayor antiguedad que no excede los anios de
/// servicio, entre las primeras `i` filas del grado; ante empate gana la
/// fila posterior.
pub open spec fn mejor_en_rango(d: Seq<Directiva>, grado: u32, anos: u32, i: int) -> Option<int>
    decreases i,
{
    if i <= 0 {
        None
    } else {
        let previo = mejor_en_rango(d, grado, anos, i - 1);
        let fila = d[i - 1];
        if fila.grado_id == grado && fila.antiguedad <= anos && (previo is None || d[previo.unwrap()].antiguedad
            <= fila.antiguedad) {
            Some(i - 1)
        } else {
            previo
        }
    }
}

/// Indice de la fila de menor antiguedad del grado entre las primeras `i`
/// filas; ante empate gana la fila anterior.
pub open spec fn minimo_del_grado(d: Seq<Directiva>, grado: u32, i: int) -> Option<int>
    decreases i,
{
    if i <= 0 {
        None
    } else {
        let previo = minimo_del_grado(d, grado, i - 1);
        let fila = d[i - 1];
        if fila.grado_id == grado && (previo is None || fila.antiguedad < d[previo.unwrap()].antiguedad) {
            Some(i - 1)
        } else {
            previo
        }
    }
}

/// Sueldo que la Directiva asigna a un grado con ciertos anios de servicio:
/// la fila de mayor umbral que no excede los anios, o la de menor umbral
/// del grado cuando ninguna aplica.
pub open spec fn eleccion_sueldo(d: Seq<Directiva>, grado: u32, anos: u32) -> Option<i64> {
    match mejor_en_rango(d, grado, anos, d.len() as int) {
        Some(i) => Some(d[i].sueldo_base),
        None => match minimo_del_grado(d, grado, d.len() as int) {
            Some(i) => Some(d[i].sueldo_base),
            None => None,
        },
    }
}

pub open spec fn hay_grado(d: Seq<Directiva>, grado: u32) -> bool {
    exists|i: int| 0 <= i < d.len() && d[i].grado_id == grado
}

pub open spec fn hay_rango(d: Seq<Directiva>, grado: u32, anos: u32) -> bool {
    exists|i: int| 0 <= i < d.len() && d[i].grado_id == grado && d[i].antiguedad <= anos
}

proof fn lema_mejor_en_rango(d: Seq<Directiva>, grado: u32, anos: u32, i: int)
    requires
        0 <= i <= d.len(),
    ensures
        match mejor_en_rango(d, grado, anos, i) {
            Some(k) => {
                &&& 0 <= k < i
                &&& d[k].grado_id == grado
                &&& d[k].antiguedad <= anos
                &&& forall|j: int|
                    0 <= j < i && d[j].grado_id == grado && d[j].antiguedad <= anos
                        ==> d[j].antiguedad <= d[k].antiguedad
            },
            None => forall|j: int|
                0 <= j < i ==> !(d[j].grado_id == grado && d[j].antiguedad <= anos),
        },
    decreases i,
{
    if i > 0 {
        lema_mejor_en_rango(d, grado, anos, i - 1);
    }
}

proof fn lema_minimo_del_grado(d: Seq<Directiva>, grado: u32, i: int)
    requires
        0 <= i <= d.len(),
    ensures
        match minimo_del_grado(d, grado, i) {
            Some(k) => {
                &&& 0 <= k < i
                &&& d[k].grado_id == grado
                &&& forall|j: int|
                    0 <= j < i && d[j].grado_id == grado ==> d[k].antiguedad <= d[j].antiguedad
            },
            None => forall|j: int| 0 <= j < i ==> d[j].grado_id != grado,
        },
    decreases i,
{
    if i > 0 {
        lema_minimo_del_grado(d, grado, i - 1);
    }
}

/// Busca el sueldo base en la Directiva segun grado y anios de servicio.
///
/// Se promete ademas la caracterizacion completa de la eleccion: hay
/// resultado exactamente cuando el grado aparece en la Directiva; si alguna
/// fila del grado tiene umbral menor o igual a los anios de servicio, el
/// sueldo es el de una fila de umbral maximo entre ellas; si ninguna lo
/// tiene, el de una fila de umbral minimo del grado.
pub fn obtener_sueldo_base(grado_id: u32, anos_servicio: u32, directivas: &Vec<Directiva>) -> (r:
    Option<i64>)
    ensures
        r == eleccion_sueldo(directivas@, grado_id, anos_servicio),
        r is Some <==> hay_grado(directivas@, grado_id),
        hay_rango(directivas@, grado_id, anos_servicio) ==> exists|i: int|
            {
                &&& 0 <= i < directivas@.len()
                &&& directivas@[i].grado_id == grado_id
                &&& directivas@[i].antiguedad <= anos_servicio
                &&& r == Some(directivas@[i].sueldo_base)
                &&& forall|j: int|
                    0 <= j < directivas@.len() && directivas@[j].grado_id == grado_id
                        && directivas@[j].antiguedad <= anos_servicio
                        ==> directivas@[j].antiguedad <= directivas@[i].antiguedad
            },
        hay_grado(directivas@, grado_id) && !hay_rango(directivas@, grado_id, anos_servicio)
            ==> exists|i: int|
            {
                &&& 0 <= i < directivas@.len()
                &&& directivas@[i].grado_id == grado_id
                &&& r == Some(directivas@[i].sueldo_base)
                &&& forall|j: int|
                    0 <= j < directivas@.len() && directivas@[j].grado_id == grado_id
                        ==> directivas@[i].antiguedad <= directivas@[j].antiguedad
            },
{
    let ghost d = directivas@;
    let mut en_rango: Option<usize> = None;
    let mut del_grado: Option<usize> = None;
    let mut i: usize = 0;
    while i < directivas.len()
        invariant
            i <= directivas.len(),
            d == directivas@,
            match en_rango {
                Some(k) => k < i && Some(k as int) == mejor_en_rango(d, grado_id, anos_servicio,
                    i as int,
                ),
                None => mejor_en_rango(d, grado_id, anos_servicio, i as int) is None,
            },
            match del_grado {
                Some(k) => k < i && Some(k as int) == minimo_del_grado(d, grado_id, i as int),
                None => minimo_del_grado(d, grado_id, i as int) is None,
            },
        decreases directivas.len() - i,
    {
        let fila = &directivas[i];
        if fila.grado_id == grado_id && fila.antiguedad <= anos_servicio {
            let reemplaza = match en_rango {
                Some(k) => directivas[k].antiguedad <= fila.antiguedad,
                None => true,
            };
            if reemplaza {
                en_rango = Some(i);
            }
        }
        if fila.grado_id == grado_id {
            let reemplaza = match del_grado {
                Some(k) => fila.antiguedad < directivas[k].antiguedad,
                None => true,
            };
            if reemplaza {
                del_grado = Some(i);
            }
        }
        i = i + 1;
    }
    proof {
        lema_mejor_en_rango(d, grado_id, anos_servicio, d.len() as int);
        lema_minimo_del_grado(d, grado_id, d.len() as int);
    }
    match en_rango {
        Some(k) => Some(directivas[k].sueldo_base),
        None => match del_grado {
            Some(k) => Some(directivas[k].sueldo_base),
            None => None,
        },
    }
}

/// Registro tras el preprocesamiento: tiempo de servicio calculado y sueldo
/// base asignado cuando la Directiva conoce el grado.
pub open spec fn espec_registro_procesado(b: VistaBase, d: Seq<Directiva>, hoy: Fecha)
    -> VistaBase {
    let t = espec_tiempo_servicio(b, hoy);
    let sueldo = match eleccion_sueldo(d, b.grado_id, t.anos) {
        Some(s) => s,
        None => b.sueldo_base,
    };
    VistaBase {
        antiguedad: t.antiguedad,
        antiguedad_grado: t.antiguedad_grados,
        sueldo_base: sueldo,
        ..b
    }
}

/// Preprocesa un registro Base respecto de la fecha `hoy`: calcula el
/// tiempo de servicio y asigna el sueldo base segun la Directiva.
pub fn procesar_registro_base_en(base: &mut Base, directivas: &Vec<Directiva>, hoy: Fecha)
    ensures
        final(base)@ == espec_registro_procesado(old(base)@, directivas@, hoy),
{
    let tiempo = calcular_tiempo_servicio_en(base, hoy);
    base.antiguedad = tiempo.antiguedad;
    base.antiguedad_grado = tiempo.antiguedad_grados;
    match obtener_sueldo_base(base.grado_id, tiempo.anos, directivas) {
        Some(sueldo) => {
            base.sueldo_base = sueldo;
        },
        None => {},
    }
}

/// La fecha civil de hoy segun el reloj local.
///
/// Apoya en chrono::Local::now y NaiveDate: el resultado depende del reloj,
/// asi que no se afirma nada de el; quien lo recibe comprueba la fecha.
#[verifier::external_body]
pub fn fecha_hoy() -> Fecha {
    let hoy = chrono::Local::now().date_naive();
    Fecha {
        anio: chrono::Datelike::year(&hoy),
        mes: chrono::Datelike::month(&hoy),
        dia: chrono::Datelike::day(&hoy),
    }
}

/// Calcula el tiempo de servicio tomando el dia de hoy como referencia.
pub fn calcular_tiempo_servicio(base: &Base) -> (t: TiempoServicio)
    ensures
        exists|hoy: Fecha| t == espec_tiempo_servicio(base@, hoy),
{
    let hoy = fecha_hoy();
    let t = calcular_tiempo_servicio_en(base, hoy);
    proof {
        assert(t == espec_tiempo_servicio(base@, hoy));
    }
    t
}

/// Preprocesa un registro Base tomando el dia de hoy como referencia.
pub fn procesar_registro_base(base: &mut Base, directivas: &Vec<Directiva>)
    ensures
        exists|hoy: Fecha| final(base)@ == espec_registro_procesado(old(base)@, directivas@, hoy),
{
    let hoy = fecha_hoy();
    procesar_registro_base_en(base, directivas, hoy);
}

} // verus!
