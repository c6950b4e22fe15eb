//! Ingesta de lotes y fusion: acumula los lotes decodificados de un flujo
//! (un lote ilegible se cuenta, se anota una sola vez y se salta), procesa
//! el conjunto de personal con el motor de calculo, y fusiona personal,
//! resultados y movimientos en los beneficiarios finales.

use vstd::prelude::*;
use crate::calc::{espec_registro_procesado, procesar_registro_base_en};
use crate::fecha::Fecha;
use crate::logger::{log_error, log_warn, tras_escritura, Bitacora, VistaBitacora};
use crate::memoria::{
    vistas_bases, vistas_beneficiarios, Base, Beneficiario, Calculo, Directiva, Movimiento,
    VistaBase, VistaBeneficiario,
};
use crate::motor::{lote_hasta, salidas_coinciden, SentinelEngine};
use crate::texto::{texto_u64, textos_iguales};

verus! {

/// Un lote recibido del canal: o bien sus filas ya decodificadas, o bien
/// la marca de que no se pudo decodificar.
pub enum Lote<T> {
    Decodificado(Vec<T>),
    Invalido,
}

/// Las filas de los lotes decodificados, en orden de llegada.
pub open spec fn filas_validas<T>(lotes: Seq<Lote<T>>) -> Seq<T>
    decreases lotes.len(),
{
    if lotes.len() == 0 {
        Seq::empty()
    } else {
        (match lotes[0] {
            Lote::Decodificado(v) => v@,
            Lote::Invalido => Seq::empty(),
        }) + filas_validas(lotes.drop_first())
    }
}

/// Cuantos lotes no se pudieron decodificar.
pub open spec fn cuenta_invalidos<T>(lotes: Seq<Lote<T>>) -> int
    decreases lotes.len(),
{
    if lotes.len() == 0 {
        0
    } else {
        (if lotes[0] is Invalido {
            1int
        } else {
            0int
        }) + cuenta_invalidos(lotes.drop_first())
    }
}

proof fn lema_cuenta_invalidos_cota<T>(lotes: Seq<Lote<T>>)
    ensures
        0 <= cuenta_invalidos(lotes) <= lotes.len(),
    decreases lotes.len(),
{
    if lotes.len() > 0 {
        lema_cuenta_invalidos_cota(lotes.drop_first());
    }
}

/// Mensaje con el que se anota, una sola vez, un lote ilegible.
pub open spec fn mensaje_lote_invalido(nombre: Seq<char>) -> Seq<char> {
    "Error decodificando lote en '"@ + nombre + "'"@
}

/// Mensaje con el que se advierte un flujo que termino sin filas.
pub open spec fn mensaje_sin_registros(nombre: Seq<char>) -> Seq<char> {
    "Servicio '"@ + nombre + "' devolvio 0 registros"@
}

/// La bitacora tras la ingesta de un flujo: un solo aviso de error si
/// algun lote fue ilegible, y una advertencia si no quedo ninguna fila.
pub open spec fn bitacora_ingesta<T>(
    b: VistaBitacora,
    lotes: Seq<Lote<T>>,
    nombre: Seq<char>,
) -> VistaBitacora {
    let b1 = if cuenta_invalidos(lotes) > 0 {
        tras_escritura(b, "ERROR"@, "JSON"@, mensaje_lote_invalido(nombre))
    } else {
        b
    };
    if filas_validas(lotes).len() == 0 {
        tras_escritura(b1, "WARN"@, "DATA"@, mensaje_sin_registros(nombre))
    } else {
        b1
    }
}

fn mensaje_con_nombre(prefijo: &str, nombre: &str, sufijo: &str) -> (r: String)
    ensures
        r@ == prefijo@ + nombre@ + sufijo@,
{
    let mut m = String::from_str(prefijo);
    m.append(nombre);
    m.append(sufijo);
    m
}

/// Acumula las filas de los lotes decodificados de un flujo ya drenado.
/// Un lote ilegible no es fatal: se cuenta, se anota una sola vez por
/// flujo, y el resto sigue. Un flujo que termina sin filas deja una
/// advertencia. Devuelve las filas y la cuenta de lotes ilegibles.
pub fn ingerir_lotes<T>(lotes: Vec<Lote<T>>, nombre: &str, bitacora: &mut Bitacora) -> (r: (
    Vec<T>,
    u64,
))
    ensures
        r.0@ == filas_validas(lotes@),
        r.1 == cuenta_invalidos(lotes@),
        final(bitacora)@ == bitacora_ingesta(old(bitacora)@, lotes@, nombre@),
{
    let ghost lotes0 = lotes@;
    let ghost b0 = bitacora@;
    let mut restantes = lotes;
    let total = restantes.len();
    let mut filas: Vec<T> = Vec::new();
    let mut invalidos: u64 = 0;
    proof {
        lema_cuenta_invalidos_cota(lotes0);
        assert(filas@ + filas_validas(restantes@) =~= filas_validas(lotes0));
    }
    while restantes.len() > 0
        invariant
            filas@ + filas_validas(restantes@) == filas_validas(lotes0),
            invalidos + cuenta_invalidos(restantes@) == cuenta_invalidos(lotes0),
            0 <= cuenta_invalidos(restantes@) <= restantes@.len(),
            cuenta_invalidos(lotes0) <= total <= usize::MAX,
            bitacora@ == if invalidos > 0 {
                tras_escritura(b0, "ERROR"@, "JSON"@, mensaje_lote_invalido(nombre@))
            } else {
                b0
            },
        decreases restantes.len(),
    {
        let ghost antes = restantes@;
        let lote = restantes.remove(0);
        proof {
            assert(restantes@ =~= antes.drop_first());
            lema_cuenta_invalidos_cota(restantes@);
        }
        match lote {
            Lote::Decodificado(mut v) => {
                let ghost filas_antes = filas@;
                let ghost v0 = v@;
                filas.append(&mut v);
                proof {
                    assert(filas@ =~= filas_antes + v0);
                    assert(filas@ + filas_validas(restantes@) =~= filas_validas(lotes0));
                }
            },
            Lote::Invalido => {
                if invalidos == 0 {
                    let mensaje = mensaje_con_nombre(
                        "Error decodificando lote en '",
                        nombre,
                        "'",
                    );
                    log_error(bitacora, "JSON", mensaje.as_str());
                }
                invalidos = invalidos + 1;
            },
        }
    }
    proof {
        assert(filas_validas(restantes@) =~= Seq::<T>::empty());
        assert(filas@ =~= filas_validas(lotes0));
    }
    if filas.len() == 0 {
        let mensaje = mensaje_con_nombre("Servicio '", nombre, "' devolvio 0 registros");
        log_warn(bitacora, "DATA", mensaje.as_str());
    }
    (filas, invalidos)
}

/// Suma con tope: el resultado queda dentro del rango de i64.
pub open spec fn sat_add(a: int, b: int) -> i64 {
    if a + b > i64::MAX {
        i64::MAX
    } else if a + b < i64::MIN {
        i64::MIN
    } else {
        (a + b) as i64
    }
}

fn sumar_sat(a: i64, b: i64) -> (r: i64)
    ensures
        r == sat_add(a as int, b as int),
{
    match a.checked_add(b) {
        Some(v) => v,
        None => if b > 0 {
            i64::MAX
        } else {
            i64::MIN
        },
    }
}

/// Suma con tope de una lista de valores.
pub open spec fn suma_sat(valores: Seq<i64>) -> i64
    decreases valores.len(),
{
    if valores.len() == 0 {
        0
    } else {
        sat_add(suma_sat(valores.drop_last()) as int, valores.last() as int)
    }
}

/// Los valores de una lista de calculos.
pub open spec fn valores_de(calculos: Seq<Calculo>) -> Seq<i64> {
    calculos.map_values(|c: Calculo| c.valor)
}

fn suma_valores(calculos: &Vec<Calculo>) -> (r: i64)
    ensures
        r == suma_sat(valores_de(calculos@)),
{
    let mut r: i64 = 0;
    let mut i: usize = 0;
    proof {
        assert(valores_de(calculos@.subrange(0, 0)) =~= Seq::<i64>::empty());
    }
    while i < calculos.len()
        invariant
            i <= calculos.len(),
            r == suma_sat(valores_de(calculos@.subrange(0, i as int))),
        decreases calculos.len() - i,
    {
        r = sumar_sat(r, calculos[i].valor);
        proof {
            let antes = valores_de(calculos@.subrange(0, i as int));
            let ahora = valores_de(calculos@.subrange(0, i + 1 as int));
            assert(ahora.drop_last() =~= antes);
            assert(ahora.last() == calculos@[i as int].valor);
        }
        i = i + 1;
    }
    proof {
        assert(calculos@.subrange(0, calculos@.len() as int) =~= calculos@);
    }
    r
}

/// Resultados que el motor dejo para una clave de enlace: los de la ultima
/// salida con esa clave, si la hay.
pub open spec fn espec_resultado_para(
    salidas: Seq<(String, Seq<Calculo>)>,
    clave: Seq<char>,
) -> Option<Seq<Calculo>>
    decreases salidas.len(),
{
    if salidas.len() == 0 {
        None
    } else if salidas.last().0@ == clave {
        Some(salidas.last().1)
    } else {
        espec_resultado_para(salidas.drop_last(), clave)
    }
}

fn buscar_resultados(
    salidas: &Vec<(String, Vec<Calculo>)>,
    clave: &String,
    Ghost(s): Ghost<Seq<(String, Seq<Calculo>)>>,
) -> (r: Option<usize>)
    requires
        salidas_coinciden(salidas@, s),
    ensures
        match r {
            Some(i) => 0 <= i < salidas@.len() && espec_resultado_para(s, clave@) == Some(
                salidas@[i as int].1@,
            ),
            None => espec_resultado_para(s, clave@) is None,
        },
{
    let mut i: usize = salidas.len();
    proof {
        assert(s.subrange(0, s.len() as int) =~= s);
    }
    while i > 0
        invariant
            i <= salidas@.len(),
            salidas@.len() == s.len(),
            salidas_coinciden(salidas@, s),
            espec_resultado_para(s, clave@) == espec_resultado_para(
                s.subrange(0, i as int),
                clave@,
            ),
        decreases i,
    {
        proof {
            assert(s.subrange(0, i as int).last() == s[i - 1]);
            assert(s.subrange(0, i as int).drop_last() =~= s.subrange(0, i - 1 as int));
        }
        if textos_iguales(salidas[i - 1].0.as_str(), clave.as_str()) {
            return Some(i - 1);
        }
        i = i - 1;
    }
    proof {
        assert(s.subrange(0, 0) =~= Seq::<(String, Seq<Calculo>)>::empty());
    }
    None
}

/// Un registro Base tras volcarle los resultados del motor: sus calculos y
/// el total de asignaciones (sueldo mas primas, con tope); queda igual si
/// el motor no dejo salida para su clave.
pub open spec fn espec_base_fusionada(
    b: VistaBase,
    salidas: Seq<(String, Seq<Calculo>)>,
) -> VistaBase {
    match espec_resultado_para(salidas, b.patterns@) {
        Some(rs) => VistaBase {
            calculos: rs,
            total_asignaciones: sat_add(b.sueldo_base as int, suma_sat(valores_de(rs)) as int),
            ..b
        },
        None => b,
    }
}

/// Anomalia de integridad: sueldo base positivo con primas sumadas en cero.
pub open spec fn es_anomalia(b: VistaBase, salidas: Seq<(String, Seq<Calculo>)>) -> bool {
    match espec_resultado_para(salidas, b.patterns@) {
        Some(rs) => b.sueldo_base > 0 && suma_sat(valores_de(rs)) == 0,
        None => false,
    }
}

/// Cuantos registros del lote presentan la anomalia de integridad.
pub open spec fn cuenta_anomalias(bs: Seq<VistaBase>, salidas: Seq<(String, Seq<Calculo>)>) -> int
    decreases bs.len(),
{
    if bs.len() == 0 {
        0
    } else {
        cuenta_anomalias(bs.drop_last(), salidas) + if es_anomalia(bs.last(), salidas) {
            1int
        } else {
            0int
        }
    }
}

proof fn lema_cuenta_anomalias_cota(bs: Seq<VistaBase>, salidas: Seq<(String, Seq<Calculo>)>)
    ensures
        0 <= cuenta_anomalias(bs, salidas) <= bs.len(),
    decreases bs.len(),
{
    if bs.len() > 0 {
        lema_cuenta_anomalias_cota(bs.drop_last(), salidas);
    }
}

/// Mensaje con el que se advierte la cuenta de anomalias de integridad.
pub open spec fn mensaje_anomalias(n: int) -> Seq<char>
    recommends
        n >= 0,
{
    "Atencion: "@ + crate::texto::digitos(n as nat)
        + " registros tienen sueldo base pero cero en primas calculadas"@
}

fn mensaje_cuenta(prefijo: &str, n: u64, sufijo: &str) -> (r: String)
    ensures
        r@ == prefijo@ + crate::texto::digitos(n as nat) + sufijo@,
{
    let mut m = String::from_str(prefijo);
    let cifras = texto_u64(n);
    m.append(cifras.as_str());
    m.append(sufijo);
    m
}

/// Los registros del lote tras el preprocesamiento por registro.
pub open spec fn espec_preprocesadas(
    filas: Seq<Base>,
    directivas: Seq<Directiva>,
    hoy: Fecha,
) -> Seq<VistaBase> {
    filas.map_values(|b: Base| espec_registro_procesado(b@, directivas, hoy))
}

/// Carga el conjunto de personal a partir de sus lotes ya drenados:
/// acumula las filas validas, preprocesa cada registro (tiempo de servicio
/// y sueldo base, respecto de `hoy`), corre el motor de calculo sobre el
/// conjunto entero, vuelca los resultados sobre cada registro por su clave
/// de enlace, y advierte cuantos registros quedaron con sueldo positivo y
/// primas en cero.
#[verifier::rlimit(60)]
pub fn procesar_base(
    lotes: Vec<Lote<Base>>,
    directivas: &Vec<Directiva>,
    motor: &mut SentinelEngine,
    hoy: Fecha,
    nombre: &str,
    bitacora: &mut Bitacora,
) -> (r: Vec<Base>)
    ensures
        ({
            let pre = espec_preprocesadas(filas_validas(lotes@), directivas@, hoy);
            let b1 = bitacora_ingesta(old(bitacora)@, lotes@, nombre@);
            let lote = lote_hasta(old(motor).vista(), b1, pre, pre.len() as int);
            let anomalias = cuenta_anomalias(pre, lote.salidas);
            &&& vistas_bases(r@) == pre.map_values(
                |b: VistaBase| espec_base_fusionada(b, lote.salidas),
            )
            &&& final(motor).vista() == lote.formulas
            &&& final(bitacora)@ == (if anomalias > 0 {
                tras_escritura(lote.bitacora, "WARN"@, "CALCULO"@, mensaje_anomalias(anomalias))
            } else {
                lote.bitacora
            })
        }),
{
    let ghost pre = espec_preprocesadas(filas_validas(lotes@), directivas@, hoy);
    let (mut filas, _invalidos) = ingerir_lotes(lotes, nombre, bitacora);
    let ghost filas0 = filas@;
    let mut i: usize = 0;
    while i < filas.len()
        invariant
            i <= filas.len(),
            filas@.len() == filas0.len(),
            pre == espec_preprocesadas(filas0, directivas@, hoy),
            forall|j: int| 0 <= j < i ==> (#[trigger] filas@[j])@ == pre[j],
            forall|j: int| i <= j < filas@.len() ==> filas@[j] == filas0[j],
        decreases filas.len() - i,
    {
        procesar_registro_base_en(&mut filas[i], directivas, hoy);
        i = i + 1;
    }
    proof {
        assert(vistas_bases(filas@) =~= pre);
    }
    let ghost formulas_antes = motor.vista();
    let ghost bitacora_antes = bitacora@;
    let salidas = motor.calcular_nomina(&filas, bitacora);
    let ghost lote = lote_hasta(formulas_antes, bitacora_antes, pre, pre.len() as int);
    let ghost s = lote.salidas;
    let mut anomalias: u64 = 0;
    let mut k: usize = 0;
    proof {
        lema_cuenta_anomalias_cota(pre, s);
        assert(cuenta_anomalias(pre.subrange(0, 0), s) == 0);
    }
    while k < filas.len()
        invariant
            k <= filas.len(),
            filas@.len() == pre.len(),
            salidas_coinciden(salidas@, s),
            forall|j: int|
                0 <= j < k ==> (#[trigger] filas@[j])@ == espec_base_fusionada(pre[j], s),
            forall|j: int| k <= j < filas@.len() ==> (#[trigger] filas@[j])@ == pre[j],
            anomalias == cuenta_anomalias(pre.subrange(0, k as int), s),
            cuenta_anomalias(pre.subrange(0, k as int), s) <= k,
        decreases filas.len() - k,
    {
        let encontrado = buscar_resultados(&salidas, &filas[k].patterns, Ghost(s));
        proof {
            let ahora = pre.subrange(0, k + 1 as int);
            assert(ahora.drop_last() =~= pre.subrange(0, k as int));
            assert(ahora.last() == pre[k as int]);
        }
        match encontrado {
            Some(idx) => {
                let rs = crate::memoria::clonar_calculos(&salidas[idx].1);
                let suma = suma_valores(&rs);
                let total = sumar_sat(filas[k].sueldo_base, suma);
                if filas[k].sueldo_base > 0 && suma == 0 {
                    anomalias = anomalias + 1;
                }
                filas[k].calculos = rs;
                filas[k].total_asignaciones = total;
            },
            None => {},
        }
        k = k + 1;
    }
    proof {
        assert(pre.subrange(0, pre.len() as int) =~= pre);
        assert(vistas_bases(filas@) =~= pre.map_values(
            |b: VistaBase| espec_base_fusionada(b, s),
        ));
    }
    if anomalias > 0 {
        let mensaje = mensaje_cuenta(
            "Atencion: ",
            anomalias,
            " registros tienen sueldo base pero cero en primas calculadas",
        );
        log_warn(bitacora, "CALCULO", mensaje.as_str());
    }
    filas
}

/// Estado del flujo de un conjunto de datos.
#[derive(Debug, Clone, Copy, PartialEq, Eq, Structural)]
pub enum EstadoFlujo {
    Inactivo,
    Conectando,
    Transmitiendo { lotes: u64 },
    Drenando { pendientes: u64 },
    Completo,
    Fallido,
}

/// Suceso observado por el flujo de un conjunto de datos.
#[derive(Debug, Clone, Copy, PartialEq, Eq, Structural)]
pub enum EventoFlujo {
    Abrir,
    CanalAbierto,
    FalloCanal,
    LoteRecibido,
    LoteInvalido,
    FalloTransporte,
    FinTransmision { pendientes: u64 },
    TareaTerminada,
}

/// Transicion del flujo: Inactivo -> Conectando -> Transmitiendo ->
/// Drenando -> Completo, con Fallido solo desde Conectando (el canal no
/// abre) o Transmitiendo (falla el transporte). Un lote ilegible deja el
/// flujo en Transmitiendo. Un suceso que no corresponde al estado lo deja
/// tal cual.
pub open spec fn avanza(e: EstadoFlujo, ev: EventoFlujo) -> EstadoFlujo {
    match (e, ev) {
        (EstadoFlujo::Inactivo, EventoFlujo::Abrir) => EstadoFlujo::Conectando,
        (EstadoFlujo::Conectando, EventoFlujo::CanalAbierto) => EstadoFlujo::Transmitiendo {
            lotes: 0,
        },
        (EstadoFlujo::Conectando, EventoFlujo::FalloCanal) => EstadoFlujo::Fallido,
        (EstadoFlujo::Transmitiendo { lotes }, EventoFlujo::LoteRecibido) => {
            EstadoFlujo::Transmitiendo {
                lotes: if lotes < u64::MAX {
                    (lotes + 1) as u64
                } else {
                    lotes
                },
            }
        },
        (EstadoFlujo::Transmitiendo { lotes }, EventoFlujo::LoteInvalido) => {
            EstadoFlujo::Transmitiendo { lotes }
        },
        (EstadoFlujo::Transmitiendo { lotes }, EventoFlujo::FalloTransporte) => {
            EstadoFlujo::Fallido
        },
        (EstadoFlujo::Transmitiendo { lotes }, EventoFlujo::FinTransmision { pendientes }) => {
            if pendientes == 0 {
                EstadoFlujo::Completo
            } else {
                EstadoFlujo::Drenando { pendientes }
            }
        },
        (EstadoFlujo::Drenando { pendientes }, EventoFlujo::TareaTerminada) => {
            if pendientes <= 1 {
                EstadoFlujo::Completo
            } else {
                EstadoFlujo::Drenando { pendientes: (pendientes - 1) as u64 }
            }
        },
        (otro, _) => otro,
    }
}

/// Avanza el estado del flujo ante un suceso.
pub fn avanzar_flujo(e: EstadoFlujo, ev: EventoFlujo) -> (r: EstadoFlujo)
    ensures
        r == avanza(e, ev),
{
    match (e, ev) {
        (EstadoFlujo::Inactivo, EventoFlujo::Abrir) => EstadoFlujo::Conectando,
        (EstadoFlujo::Conectando, EventoFlujo::CanalAbierto) => EstadoFlujo::Transmitiendo {
            lotes: 0,
        },
        (EstadoFlujo::Conectando, EventoFlujo::FalloCanal) => EstadoFlujo::Fallido,
        (EstadoFlujo::Transmitiendo { lotes }, EventoFlujo::LoteRecibido) => {
            EstadoFlujo::Transmitiendo {
                lotes: if lotes < u64::MAX {
                    lotes + 1
                } else {
                    lotes
                },
            }
        },
        (EstadoFlujo::Transmitiendo { lotes }, EventoFlujo::LoteInvalido) => {
            EstadoFlujo::Transmitiendo { lotes }
        },
        (EstadoFlujo::Transmitiendo { lotes: _ }, EventoFlujo::FalloTransporte) => {
            EstadoFlujo::Fallido
        },
        (EstadoFlujo::Transmitiendo { lotes: _ }, EventoFlujo::FinTransmision { pendientes }) => {
            if pendientes == 0 {
                EstadoFlujo::Completo
            } else {
                EstadoFlujo::Drenando { pendientes }
            }
        },
        (EstadoFlujo::Drenando { pendientes }, EventoFlujo::TareaTerminada) => {
            if pendientes <= 1 {
                EstadoFlujo::Completo
            } else {
                EstadoFlujo::Drenando { pendientes: pendientes - 1 }
            }
        },
        (otro, _) => otro,
    }
}

/// Indice de registros Base por clave de enlace: ante claves repetidas
/// vale la primera escritura.
pub open spec fn indice_bases(bases: Seq<VistaBase>) -> Map<Seq<char>, VistaBase>
    decreases bases.len(),
{
    if bases.len() == 0 {
        Map::empty()
    } else {
        indice_bases(bases.drop_first()).insert(bases[0].patterns@, bases[0])
    }
}

/// Indice de movimientos por cedula: ante cedulas repetidas vale el ultimo
/// recibido.
pub open spec fn indice_movimientos(movs: Seq<Movimiento>) -> Map<Seq<char>, Movimiento>
    decreases movs.len(),
{
    if movs.len() == 0 {
        Map::empty()
    } else {
        indice_movimientos(movs.drop_last()).insert(movs.last().cedula@, movs.last())
    }
}

proof fn lema_indice_bases(bases: Seq<VistaBase>, clave: Seq<char>, i: int)
    requires
        0 <= i <= bases.len(),
        forall|j: int| 0 <= j < i ==> (#[trigger] bases[j]).patterns@ != clave,
        i < bases.len() ==> bases[i].patterns@ == clave,
    ensures
        i < bases.len() ==> indice_bases(bases).contains_key(clave) && indice_bases(bases)[clave]
            == bases[i],
        i == bases.len() ==> !indice_bases(bases).contains_key(clave),
    decreases bases.len(),
{
    if bases.len() > 0 {
        if bases[0].patterns@ == clave {
            assert(i == 0);
        } else {
            lema_indice_bases(bases.drop_first(), clave, i - 1);
        }
    }
}

proof fn lema_indice_movimientos(movs: Seq<Movimiento>, clave: Seq<char>, i: int)
    requires
        0 <= i <= movs.len(),
        forall|j: int| i <= j < movs.len() ==> (#[trigger] movs[j]).cedula@ != clave,
        i > 0 ==> movs[i - 1].cedula@ == clave,
    ensures
        i > 0 ==> indice_movimientos(movs).contains_key(clave) && indice_movimientos(movs)[clave]
            == movs[i - 1],
        i == 0 ==> !indice_movimientos(movs).contains_key(clave),
    decreases movs.len(),
{
    if movs.len() > 0 {
        if movs.last().cedula@ == clave {
            assert(i == movs.len());
        } else {
            lema_indice_movimientos(movs.drop_last(), clave, i);
        }
    }
}

fn buscar_primera_base(bases: &Vec<Base>, clave: &String) -> (r: Option<usize>)
    ensures
        match r {
            Some(i) => 0 <= i < bases@.len() && indice_bases(vistas_bases(bases@)).contains_key(
                clave@,
            ) && indice_bases(vistas_bases(bases@))[clave@] == bases@[i as int]@,
            None => !indice_bases(vistas_bases(bases@)).contains_key(clave@),
        },
{
    let ghost vistas = vistas_bases(bases@);
    let mut i: usize = 0;
    while i < bases.len()
        invariant
            i <= bases.len(),
            vistas == vistas_bases(bases@),
            forall|j: int| 0 <= j < i ==> (#[trigger] vistas[j]).patterns@ != clave@,
        decreases bases.len() - i,
    {
        if textos_iguales(bases[i].patterns.as_str(), clave.as_str()) {
            proof {
                lema_indice_bases(vistas, clave@, i as int);
            }
            return Some(i);
        }
        i = i + 1;
    }
    proof {
        lema_indice_bases(vistas, clave@, vistas.len() as int);
    }
    None
}

fn buscar_ultimo_movimiento(movs: &Vec<Movimiento>, clave: &String) -> (r: Option<usize>)
    ensures
        match r {
            Some(i) => 0 <= i < movs@.len() && indice_movimientos(movs@).contains_key(clave@)
                && indice_movimientos(movs@)[clave@] == movs@[i as int],
            None => !indice_movimientos(movs@).contains_key(clave@),
        },
{
    let mut i: usize = movs.len();
    while i > 0
        invariant
            i <= movs@.len(),
            forall|j: int| i <= j < movs@.len() ==> (#[trigger] movs@[j]).cedula@ != clave@,
        decreases i,
    {
        if textos_iguales(movs[i - 1].cedula.as_str(), clave.as_str()) {
            proof {
                lema_indice_movimientos(movs@, clave@, i as int);
            }
            return Some(i - 1);
        }
        i = i - 1;
    }
    proof {
        lema_indice_movimientos(movs@, clave@, 0);
    }
    None
}

/// Un beneficiario fusionado: su registro Base copiado del indice si su
/// clave de enlace aparece alli (si no, conserva el que traia, el valor
/// por defecto), y su movimiento, el ultimo recibido para su cedula.
pub open spec fn espec_beneficiario_fusionado(
    v: VistaBeneficiario,
    ib: Map<Seq<char>, VistaBase>,
    im: Map<Seq<char>, Movimiento>,
) -> VistaBeneficiario {
    let v1 = if ib.contains_key(v.patterns@) {
        VistaBeneficiario { base: ib[v.patterns@], ..v }
    } else {
        v
    };
    if im.contains_key(v.cedula@) {
        VistaBeneficiario { movimientos: im[v.cedula@], ..v1 }
    } else {
        v1
    }
}

/// Huerfano: beneficiario cuya clave de enlace no aparece en el indice de
/// registros Base.
pub open spec fn es_huerfano(v: VistaBeneficiario, ib: Map<Seq<char>, VistaBase>) -> bool {
    !ib.contains_key(v.patterns@)
}

/// Cuantos beneficiarios del lote son huerfanos.
pub open spec fn cuenta_huerfanos(
    items: Seq<VistaBeneficiario>,
    ib: Map<Seq<char>, VistaBase>,
) -> int
    decreases items.len(),
{
    if items.len() == 0 {
        0
    } else {
        cuenta_huerfanos(items.drop_last(), ib) + if es_huerfano(items.last(), ib) {
            1int
        } else {
            0int
        }
    }
}

proof fn lema_cuenta_huerfanos_cota(items: Seq<VistaBeneficiario>, ib: Map<Seq<char>, VistaBase>)
    ensures
        0 <= cuenta_huerfanos(items, ib) <= items.len(),
    decreases items.len(),
{
    if items.len() > 0 {
        lema_cuenta_huerfanos_cota(items.drop_last(), ib);
    }
}

/// Mensaje con el que se advierte la cuenta de huerfanos.
pub open spec fn mensaje_huerfanos(n: int) -> Seq<char>
    recommends
        n >= 0,
{
    "Detectados "@ + crate::texto::digitos(n as nat)
        + " beneficiarios sin registro Base asociado"@
}

/// Fusiona cada beneficiario con su registro Base (por clave de enlace,
/// primera escritura ante claves repetidas) y con su ultimo movimiento
/// (por cedula). Quien no tiene registro Base es huerfano: conserva el
/// registro por defecto, se cuenta, y la cuenta se advierte una sola vez
/// al final. Devuelve los beneficiarios fusionados y la cuenta de
/// huerfanos.
pub fn fusionar_beneficiarios(
    items: Vec<Beneficiario>,
    bases: &Vec<Base>,
    movimientos: &Vec<Movimiento>,
    bitacora: &mut Bitacora,
) -> (r: (Vec<Beneficiario>, u64))
    ensures
        ({
            let ib = indice_bases(vistas_bases(bases@));
            let im = indice_movimientos(movimientos@);
            let vistas = vistas_beneficiarios(items@);
            &&& r.0@.len() == items@.len()
            &&& forall|i: int|
                0 <= i < items@.len() ==> (#[trigger] r.0@[i])@ == espec_beneficiario_fusionado(
                    vistas[i],
                    ib,
                    im,
                )
            &&& r.1 == cuenta_huerfanos(vistas, ib)
            &&& final(bitacora)@ == (if cuenta_huerfanos(vistas, ib) > 0 {
                tras_escritura(
                    old(bitacora)@,
                    "WARN"@,
                    "INTEGRIDAD"@,
                    mensaje_huerfanos(cuenta_huerfanos(vistas, ib)),
                )
            } else {
                old(bitacora)@
            })
        }),
{
    let ghost ib = indice_bases(vistas_bases(bases@));
    let ghost im = indice_movimientos(movimientos@);
    let ghost vistas = vistas_beneficiarios(items@);
    let mut filas = items;
    let mut huerfanos: u64 = 0;
    let mut i: usize = 0;
    proof {
        lema_cuenta_huerfanos_cota(vistas, ib);
        assert(cuenta_huerfanos(vistas.subrange(0, 0), ib) == 0);
    }
    while i < filas.len()
        invariant
            i <= filas.len(),
            filas@.len() == vistas.len(),
            ib == indice_bases(vistas_bases(bases@)),
            im == indice_movimientos(movimientos@),
            forall|j: int|
                0 <= j < i ==> (#[trigger] filas@[j])@ == espec_beneficiario_fusionado(
                    vistas[j],
                    ib,
                    im,
                ),
            forall|j: int| i <= j < filas@.len() ==> (#[trigger] filas@[j])@ == vistas[j],
            huerfanos == cuenta_huerfanos(vistas.subrange(0, i as int), ib),
            cuenta_huerfanos(vistas.subrange(0, i as int), ib) <= i,
        decreases filas.len() - i,
    {
        proof {
            let ahora = vistas.subrange(0, i + 1 as int);
            assert(ahora.drop_last() =~= vistas.subrange(0, i as int));
            assert(ahora.last() == vistas[i as int]);
        }
        let encontrado = buscar_primera_base(bases, &filas[i].patterns);
        match encontrado {
            Some(k) => {
                filas[i].base = bases[k].clone();
            },
            None => {
                huerfanos = huerfanos + 1;
            },
        }
        let movimiento = buscar_ultimo_movimiento(movimientos, &filas[i].cedula);
        match movimiento {
            Some(k) => {
                filas[i].movimientos = movimientos[k].clone();
            },
            None => {},
        }
        i = i + 1;
    }
    proof {
        assert(vistas.subrange(0, vistas.len() as int) =~= vistas);
    }
    if huerfanos > 0 {
        let mensaje = mensaje_cuenta(
            "Detectados ",
            huerfanos,
            " beneficiarios sin registro Base asociado",
        );
        log_warn(bitacora, "INTEGRIDAD", mensaje.as_str());
    }
    (filas, huerfanos)
}

/// Ley de cuenta de huerfanos: los huerfanos son exactamente los
/// beneficiarios sin clave en el indice, asi que su cuenta es el total
/// menos los emparejados.
pub open spec fn cuenta_emparejados(
    items: Seq<VistaBeneficiario>,
    ib: Map<Seq<char>, VistaBase>,
) -> int
    decreases items.len(),
{
    if items.len() == 0 {
        0
    } else {
        cuenta_emparejados(items.drop_last(), ib) + if es_huerfano(items.last(), ib) {
            0int
        } else {
            1int
        }
    }
}

/// De N beneficiarios contra un indice que empareja M de ellos quedan
/// exactamente N - M huerfanos.
pub proof fn lema_huerfanos(items: Seq<VistaBeneficiario>, ib: Map<Seq<char>, VistaBase>)
    ensures
        cuenta_huerfanos(items, ib) + cuenta_emparejados(items, ib) == items.len(),
        0 <= cuenta_huerfanos(items, ib) <= items.len(),
    decreases items.len(),
{
    if items.len() > 0 {
        lema_huerfanos(items.drop_last(), ib);
    }
}

/// Ley de idempotencia de la fusion: la fusion es una funcion de sus
/// entradas inmutables, asi que dos corridas sobre el mismo personal y los
/// mismos movimientos producen colecciones identicas, beneficiario por
/// beneficiario.
pub proof fn lema_fusion_idempotente(
    r1: Seq<VistaBeneficiario>,
    r2: Seq<VistaBeneficiario>,
    items: Seq<VistaBeneficiario>,
    ib: Map<Seq<char>, VistaBase>,
    im: Map<Seq<char>, Movimiento>,
)
    requires
        r1.len() == items.len(),
        r2.len() == items.len(),
        forall|i: int|
            0 <= i < items.len() ==> (#[trigger] r1[i]) == espec_beneficiario_fusionado(
                items[i],
                ib,
                im,
            ),
        forall|i: int|
            0 <= i < items.len() ==> (#[trigger] r2[i]) == espec_beneficiario_fusionado(
                items[i],
                ib,
                im,
            ),
    ensures
        r1 == r2,
{
    assert(r1 =~= r2);
}

/// A Fallido solo se llega desde Conectando, por fallo al abrir el canal,
/// o desde Transmitiendo, por fallo del transporte; un lote ilegible deja
/// el flujo en Transmitiendo.
pub proof fn lema_fallo_solo_en_transito(e: EstadoFlujo, ev: EventoFlujo)
    ensures
        avanza(e, ev) is Fallido && !(e is Fallido) ==> (e is Conectando && ev is FalloCanal) || (
        e is Transmitiendo && ev is FalloTransporte),
        e is Transmitiendo && ev is LoteInvalido ==> avanza(e, ev) is Transmitiendo,
{
}

} // verus!
