//! Telemetria de la corrida: metricas de operaciones en memoria y el
//! reporte final como texto. Quien orquesta mide los tiempos y vuelca el
//! reporte donde quiera.

use vstd::prelude::*;
use crate::texto::digitos;

verus! {

/// Una metrica registrada: operacion, duracion y volumen.
#[derive(Debug, PartialEq)]
pub struct Metrica {
    pub categoria: String,
    pub nombre: String,
    pub duracion_ms: u64,
    pub registros: u64,
    pub detalle: String,
}

/// Imagen en especificacion de una metrica.
pub struct VistaMetrica {
    pub categoria: Seq<char>,
    pub nombre: Seq<char>,
    pub duracion_ms: u64,
    pub registros: u64,
    pub detalle: Seq<char>,
}

impl View for Metrica {
    type V = VistaMetrica;

    open spec fn view(&self) -> VistaMetrica {
        VistaMetrica {
            categoria: self.categoria@,
            nombre: self.nombre@,
            duracion_ms: self.duracion_ms,
            registros: self.registros,
            detalle: self.detalle@,
        }
    }
}

/// El registrador de metricas de la corrida.
#[derive(Debug, PartialEq)]
pub struct Sensores {
    pub activo: bool,
    pub metricas: Vec<Metrica>,
}

/// Imagen en especificacion del registrador.
pub struct VistaSensores {
    pub activo: bool,
    pub metricas: Seq<VistaMetrica>,
}

impl View for Sensores {
    type V = VistaSensores;

    open spec fn view(&self) -> VistaSensores {
        VistaSensores {
            activo: self.activo,
            metricas: self.metricas@.map_values(|m: Metrica| m@),
        }
    }
}

impl Sensores {
    /// Crea el registrador de una corrida.
    pub fn nuevos(activo: bool) -> (r: Sensores)
        ensures
            r@.activo == activo,
            r@.metricas == Seq::<VistaMetrica>::empty(),
    {
        let r = Sensores { activo, metricas: Vec::new() };
        proof {
            assert(r@.metricas =~= Seq::<VistaMetrica>::empty());
        }
        r
    }
}

/// La telemetria esta habilitada.
pub fn is_enabled(s: &Sensores) -> (r: bool)
    ensures
        r == s@.activo,
{
    s.activo
}

/// Registra una metrica; sin efecto si la telemetria esta inhabilitada.
pub fn record(
    s: &mut Sensores,
    categoria: &str,
    nombre: &str,
    duracion_ms: u64,
    registros: u64,
    detalle: &str,
)
    ensures
        final(s)@.activo == old(s)@.activo,
        final(s)@.metricas == if old(s)@.activo {
            old(s)@.metricas.push(
                VistaMetrica {
                    categoria: categoria@,
                    nombre: nombre@,
                    duracion_ms,
                    registros,
                    detalle: detalle@,
                },
            )
        } else {
            old(s)@.metricas
        },
{
    if !s.activo {
        return ;
    }
    s.metricas.push(
        Metrica {
            categoria: String::from_str(categoria),
            nombre: String::from_str(nombre),
            duracion_ms,
            registros,
            detalle: String::from_str(detalle),
        },
    );
    proof {
        assert(s@.metricas =~= old(s)@.metricas.push(
            VistaMetrica {
                categoria: categoria@,
                nombre: nombre@,
                duracion_ms,
                registros,
                detalle: detalle@,
            },
        ));
    }
}

/// Suma con tope de duraciones, en milisegundos.
pub open spec fn suma_duraciones(ms: Seq<VistaMetrica>) -> u64
    decreases ms.len(),
{
    if ms.len() == 0 {
        0u64
    } else {
        let parcial = suma_duraciones(ms.drop_last());
        if parcial + ms.last().duracion_ms > u64::MAX {
            u64::MAX
        } else {
            (parcial + ms.last().duracion_ms) as u64
        }
    }
}

/// Estatus de una operacion: OK si trajo registros, FALLO si no.
pub open spec fn estado_metrica(m: VistaMetrica) -> Seq<char> {
    if m.registros > 0 {
        "OK"@
    } else {
        "FALLO"@
    }
}

/// Una linea del reporte: operacion, categoria, estatus, duracion,
/// registros y detalle, separados por barras.
pub open spec fn linea_reporte(m: VistaMetrica) -> Seq<char> {
    m.nombre + " | "@ + m.categoria + " | "@ + estado_metrica(m) + " | "@ + digitos(
        m.duracion_ms as nat,
    ) + " ms | "@ + digitos(m.registros as nat) + " registros | "@ + m.detalle + "\n"@
}

/// Indice de la operacion mas lenta entre las primeras `i` metricas; ante
/// empate gana la registrada primero.
pub open spec fn mas_lenta_en(ms: Seq<VistaMetrica>, i: int) -> Option<int>
    decreases i,
{
    if i <= 0 {
        None
    } else {
        let previo = mas_lenta_en(ms, i - 1);
        if previo is None || ms[i - 1].duracion_ms > ms[previo.unwrap()].duracion_ms {
            Some(i - 1)
        } else {
            previo
        }
    }
}

/// Linea de resumen con la operacion mas lenta, o un guion si no hubo
/// ninguna metrica.
pub open spec fn linea_mas_lenta(ms: Seq<VistaMetrica>) -> Seq<char> {
    match mas_lenta_en(ms, ms.len() as int) {
        Some(i) => "Operacion mas lenta: "@ + ms[i].nombre + " ("@ + digitos(
            ms[i].duracion_ms as nat,
        ) + " ms)\n"@,
        None => "Operacion mas lenta: - (0 ms)\n"@,
    }
}

/// Las lineas del reporte, una por metrica, en orden de registro.
pub open spec fn lineas_reporte(ms: Seq<VistaMetrica>) -> Seq<char>
    decreases ms.len(),
{
    if ms.len() == 0 {
        Seq::empty()
    } else {
        lineas_reporte(ms.drop_last()) + linea_reporte(ms.last())
    }
}

/// El reporte completo: cabecera, una linea por metrica con su estatus,
/// el total acumulado en milisegundos y la operacion mas lenta.
pub open spec fn espec_reporte(s: VistaSensores) -> Seq<char> {
    "SANDRA SENTINEL - REPORTE DE TELEMETRIA\n"@ + lineas_reporte(s.metricas)
        + "Tiempo total acumulado: "@ + digitos(suma_duraciones(s.metricas) as nat) + " ms\n"@
        + linea_mas_lenta(s.metricas)
}

/// Genera el texto del reporte final de telemetria; con la telemetria
/// inhabilitada no hay reporte: el texto queda vacio y quien orquesta no
/// escribe nada.
#[verifier::rlimit(60)]
pub fn generate_report(s: &Sensores) -> (r: String)
    ensures
        s@.activo ==> r@ == espec_reporte(s@),
        !s@.activo ==> r@ == Seq::<char>::empty(),
{
    if !s.activo {
        return String::new();
    }
    let mut cuerpo = String::from_str("SANDRA SENTINEL - REPORTE DE TELEMETRIA\n");
    let mut total: u64 = 0;
    let mut lenta: Option<usize> = None;
    let mut i: usize = 0;
    proof {
        assert(lineas_reporte(s@.metricas.subrange(0, 0)) =~= Seq::<char>::empty());
        assert(suma_duraciones(s@.metricas.subrange(0, 0)) == 0);
    }
    while i < s.metricas.len()
        invariant
            i <= s.metricas.len(),
            s@.metricas.len() == s.metricas@.len(),
            cuerpo@ == "SANDRA SENTINEL - REPORTE DE TELEMETRIA\n"@ + lineas_reporte(
                s@.metricas.subrange(0, i as int),
            ),
            total == suma_duraciones(s@.metricas.subrange(0, i as int)),
            match lenta {
                Some(k) => k < i && Some(k as int) == mas_lenta_en(s@.metricas, i as int),
                None => mas_lenta_en(s@.metricas, i as int) is None,
            },
        decreases s.metricas.len() - i,
    {
        let m = &s.metricas[i];
        cuerpo.append(m.nombre.as_str());
        cuerpo.append(" | ");
        cuerpo.append(m.categoria.as_str());
        cuerpo.append(" | ");
        if m.registros > 0 {
            cuerpo.append("OK");
        } else {
            cuerpo.append("FALLO");
        }
        cuerpo.append(" | ");
        let duracion = crate::texto::texto_u64(m.duracion_ms);
        cuerpo.append(duracion.as_str());
        cuerpo.append(" ms | ");
        let registros = crate::texto::texto_u64(m.registros);
        cuerpo.append(registros.as_str());
        cuerpo.append(" registros | ");
        cuerpo.append(m.detalle.as_str());
        cuerpo.append("\n");
        total = total.saturating_add(m.duracion_ms);
        let reemplaza = match lenta {
            Some(k) => s.metricas[i].duracion_ms > s.metricas[k].duracion_ms,
            None => true,
        };
        if reemplaza {
            lenta = Some(i);
        }
        proof {
            let ahora = s@.metricas.subrange(0, i + 1 as int);
            assert(ahora.drop_last() =~= s@.metricas.subrange(0, i as int));
            assert(ahora.last() == s@.metricas[i as int]);
            assert(cuerpo@ =~= "SANDRA SENTINEL - REPORTE DE TELEMETRIA\n"@ + lineas_reporte(
                ahora,
            ));
        }
        i = i + 1;
    }
    proof {
        assert(s@.metricas.subrange(0, s@.metricas.len() as int) =~= s@.metricas);
    }
    cuerpo.append("Tiempo total acumulado: ");
    let total_texto = crate::texto::texto_u64(total);
    cuerpo.append(total_texto.as_str());
    cuerpo.append(" ms\n");
    match lenta {
        Some(k) => {
            cuerpo.append("Operacion mas lenta: ");
            cuerpo.append(s.metricas[k].nombre.as_str());
            cuerpo.append(" (");
            let pico = crate::texto::texto_u64(s.metricas[k].duracion_ms);
            cuerpo.append(pico.as_str());
            cuerpo.append(" ms)\n");
        },
        None => {
            cuerpo.append("Operacion mas lenta: - (0 ms)\n");
        },
    }
    proof {
        assert(cuerpo@ =~= espec_reporte(s@));
    }
    cuerpo
}

} // verus!
