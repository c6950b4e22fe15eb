use sandra_core::cargador::{
    avanzar_flujo, fusionar_beneficiarios, ingerir_lotes, procesar_base, EstadoFlujo, EventoFlujo,
    Lote,
};
use sandra_core::fecha::Fecha;
use sandra_core::logger::Bitacora;
use sandra_core::memoria::{buscar_calculo, Base, Beneficiario, Directiva, Movimiento, PrimaFuncion};
use sandra_core::motor::SentinelEngine;

fn base_con(patterns: &str, grado_id: u32) -> Base {
    let mut b = Base::default();
    b.patterns = String::from(patterns);
    b.grado_id = grado_id;
    b
}

fn beneficiario_con(cedula: &str, patterns: &str) -> Beneficiario {
    let mut b = Beneficiario::default();
    b.cedula = String::from(cedula);
    b.patterns = String::from(patterns);
    b
}

fn movimiento_con(cedula: &str, cap_banco: i64) -> Movimiento {
    let mut m = Movimiento::default();
    m.cedula = String::from(cedula);
    m.cap_banco = cap_banco;
    m
}

#[test]
fn ingesta_salta_el_lote_ilegible_y_lo_anota_una_vez() {
    // Diez lotes, el tercero ilegible: quedan las filas de los otros nueve
    // y exactamente un aviso de error de decodificacion.
    let mut lotes: Vec<Lote<u32>> = Vec::new();
    for i in 0..10u32 {
        if i == 2 {
            lotes.push(Lote::Invalido);
        } else {
            lotes.push(Lote::Decodificado(vec![i]));
        }
    }
    let mut bitacora = Bitacora::nueva(true);
    let (filas, invalidos) = ingerir_lotes(lotes, "IPSFA_CBase", &mut bitacora);
    assert_eq!(filas, vec![0, 1, 3, 4, 5, 6, 7, 8, 9]);
    assert_eq!(invalidos, 1);
    let errores: Vec<_> = bitacora
        .entradas
        .iter()
        .filter(|e| e.nivel == "ERROR" && e.categoria == "JSON")
        .collect();
    assert_eq!(errores.len(), 1);
    assert_eq!(errores[0].mensaje, "Error decodificando lote en 'IPSFA_CBase'");
}

#[test]
fn ingesta_vacia_advierte() {
    let lotes: Vec<Lote<u32>> = vec![Lote::Decodificado(Vec::new())];
    let mut bitacora = Bitacora::nueva(true);
    let (filas, invalidos) = ingerir_lotes(lotes, "IPSFA_CMovimientos", &mut bitacora);
    assert!(filas.is_empty());
    assert_eq!(invalidos, 0);
    assert_eq!(bitacora.entradas.len(), 1);
    assert_eq!(bitacora.entradas[0].nivel, "WARN");
    assert_eq!(
        bitacora.entradas[0].mensaje,
        "Servicio 'IPSFA_CMovimientos' devolvio 0 registros"
    );
}

#[test]
fn procesa_el_personal_de_punta_a_punta() {
    let directivas = vec![Directiva {
        grado_id: 1,
        grado: String::from("SARGENTO"),
        antiguedad: 0,
        sueldo_base: 200_00,
        unidad_tributaria: 0,
        anio: 2026,
    }];
    let mut bitacora = Bitacora::nueva(true);
    let mut motor = SentinelEngine::new(
        vec![PrimaFuncion {
            codigo: String::from("prima_hijos"),
            nombre: String::from("Prima por hijos"),
            formula: String::from("numero_hijos * 500"),
        }],
        &mut bitacora,
    );
    let mut fila = base_con("p1", 1);
    fila.fecha_ingreso = Some(String::from("2010-01-01"));
    fila.n_hijos = 2;
    let lotes = vec![Lote::Decodificado(vec![fila])];
    let hoy = Fecha { anio: 2020, mes: 1, dia: 1 };
    let resultado = procesar_base(lotes, &directivas, &mut motor, hoy, "IPSFA_CBase", &mut bitacora);
    assert_eq!(resultado.len(), 1);
    assert_eq!(resultado[0].sueldo_base, 200_00);
    assert_eq!(resultado[0].antiguedad, 10);
    assert_eq!(buscar_calculo(&resultado[0].calculos, "prima_hijos"), 1000);
    assert_eq!(resultado[0].total_asignaciones, 200_00 + 1000);
}

#[test]
fn personal_con_primas_en_cero_deja_advertencia() {
    let directivas = vec![Directiva {
        grado_id: 1,
        grado: String::from("SARGENTO"),
        antiguedad: 0,
        sueldo_base: 200_00,
        unidad_tributaria: 0,
        anio: 2026,
    }];
    let mut bitacora = Bitacora::nueva(true);
    let mut motor = SentinelEngine::new(
        vec![PrimaFuncion {
            codigo: String::from("PRIMA"),
            nombre: String::from("Prima nula"),
            formula: String::from("0"),
        }],
        &mut bitacora,
    );
    let mut fila = base_con("p1", 1);
    fila.fecha_ingreso = Some(String::from("2010-01-01"));
    let lotes = vec![Lote::Decodificado(vec![fila])];
    let hoy = Fecha { anio: 2020, mes: 1, dia: 1 };
    let _ = procesar_base(lotes, &directivas, &mut motor, hoy, "IPSFA_CBase", &mut bitacora);
    let avisos: Vec<_> = bitacora
        .entradas
        .iter()
        .filter(|e| e.categoria == "CALCULO")
        .collect();
    assert_eq!(avisos.len(), 1);
    assert_eq!(
        avisos[0].mensaje,
        "Atencion: 1 registros tienen sueldo base pero cero en primas calculadas"
    );
}

#[test]
fn fusion_cuenta_los_huerfanos() {
    // Tres beneficiarios contra un indice que empareja dos claves: queda
    // exactamente un huerfano y la advertencia lo cuenta.
    let bases = vec![base_con("p1", 1), base_con("p2", 2)];
    let movimientos: Vec<Movimiento> = Vec::new();
    let items = vec![
        beneficiario_con("c1", "p1"),
        beneficiario_con("c2", "p2"),
        beneficiario_con("c3", "p9"),
    ];
    let mut bitacora = Bitacora::nueva(true);
    let (fusionados, huerfanos) =
        fusionar_beneficiarios(items, &bases, &movimientos, &mut bitacora);
    assert_eq!(huerfanos, 1);
    assert_eq!(fusionados[0].base.grado_id, 1);
    assert_eq!(fusionados[1].base.grado_id, 2);
    assert_eq!(fusionados[2].base.grado_id, 0);
    assert_eq!(bitacora.entradas.len(), 1);
    assert_eq!(
        bitacora.entradas[0].mensaje,
        "Detectados 1 beneficiarios sin registro Base asociado"
    );
}

#[test]
fn fusion_toma_el_ultimo_movimiento_por_cedula() {
    let bases = vec![base_con("p1", 1)];
    let movimientos = vec![movimiento_con("c1", 100), movimiento_con("c1", 250)];
    let items = vec![beneficiario_con("c1", "p1")];
    let mut bitacora = Bitacora::nueva(false);
    let (fusionados, huerfanos) =
        fusionar_beneficiarios(items, &bases, &movimientos, &mut bitacora);
    assert_eq!(huerfanos, 0);
    assert_eq!(fusionados[0].movimientos.cap_banco, 250);
}

#[test]
fn fusion_primera_escritura_gana_con_claves_repetidas() {
    let bases = vec![base_con("p1", 7), base_con("p1", 8)];
    let movimientos: Vec<Movimiento> = Vec::new();
    let items = vec![beneficiario_con("c1", "p1")];
    let mut bitacora = Bitacora::nueva(false);
    let (fusionados, _) = fusionar_beneficiarios(items, &bases, &movimientos, &mut bitacora);
    assert_eq!(fusionados[0].base.grado_id, 7);
}

#[test]
fn fusion_dos_veces_da_colecciones_identicas() {
    // La fusion es funcion de sus entradas inmutables: dos corridas sobre
    // el mismo personal y los mismos movimientos coinciden elemento a
    // elemento.
    let bases = vec![base_con("p1", 1), base_con("p2", 2)];
    let movimientos = vec![movimiento_con("c1", 100)];
    let armar = || {
        vec![
            beneficiario_con("c1", "p1"),
            beneficiario_con("c2", "p2"),
            beneficiario_con("c3", "px"),
        ]
    };
    let mut b1 = Bitacora::nueva(false);
    let mut b2 = Bitacora::nueva(false);
    let (r1, h1) = fusionar_beneficiarios(armar(), &bases, &movimientos, &mut b1);
    let (r2, h2) = fusionar_beneficiarios(armar(), &bases, &movimientos, &mut b2);
    assert_eq!(h1, h2);
    assert_eq!(r1, r2);
}

#[test]
fn flujo_camino_feliz() {
    let mut e = EstadoFlujo::Inactivo;
    e = avanzar_flujo(e, EventoFlujo::Abrir);
    assert_eq!(e, EstadoFlujo::Conectando);
    e = avanzar_flujo(e, EventoFlujo::CanalAbierto);
    assert_eq!(e, EstadoFlujo::Transmitiendo { lotes: 0 });
    e = avanzar_flujo(e, EventoFlujo::LoteRecibido);
    e = avanzar_flujo(e, EventoFlujo::LoteInvalido);
    assert_eq!(e, EstadoFlujo::Transmitiendo { lotes: 1 });
    e = avanzar_flujo(e, EventoFlujo::FinTransmision { pendientes: 2 });
    assert_eq!(e, EstadoFlujo::Drenando { pendientes: 2 });
    e = avanzar_flujo(e, EventoFlujo::TareaTerminada);
    e = avanzar_flujo(e, EventoFlujo::TareaTerminada);
    assert_eq!(e, EstadoFlujo::Completo);
}

#[test]
fn flujo_fallos_terminales() {
    assert_eq!(
        avanzar_flujo(EstadoFlujo::Conectando, EventoFlujo::FalloCanal),
        EstadoFlujo::Fallido
    );
    assert_eq!(
        avanzar_flujo(EstadoFlujo::Transmitiendo { lotes: 4 }, EventoFlujo::FalloTransporte),
        EstadoFlujo::Fallido
    );
    // Un lote ilegible nunca lleva a Fallido.
    assert_eq!(
        avanzar_flujo(EstadoFlujo::Transmitiendo { lotes: 4 }, EventoFlujo::LoteInvalido),
        EstadoFlujo::Transmitiendo { lotes: 4 }
    );
}

#[test]
fn ingesta_todo_invalido_avisa_error_y_vacio() {
    let lotes: Vec<Lote<u32>> = vec![Lote::Invalido, Lote::Invalido];
    let mut bitacora = Bitacora::nueva(true);
    let (filas, invalidos) = ingerir_lotes(lotes, "IPSFA_CConceptos", &mut bitacora);
    assert!(filas.is_empty());
    assert_eq!(invalidos, 2);
    assert_eq!(bitacora.entradas.len(), 2);
    assert_eq!(bitacora.entradas[0].nivel, "ERROR");
    assert_eq!(bitacora.entradas[1].nivel, "WARN");
}

#[test]
fn fusion_con_clave_vacia_en_ambos_lados_empareja() {
    // El indice guarda la clave tal cual, tambien la vacia: un beneficiario
    // con clave vacia empareja con un registro Base de clave vacia.
    let bases = vec![base_con("", 5)];
    let movimientos: Vec<Movimiento> = Vec::new();
    let items = vec![beneficiario_con("c1", "")];
    let mut bitacora = Bitacora::nueva(false);
    let (fusionados, huerfanos) =
        fusionar_beneficiarios(items, &bases, &movimientos, &mut bitacora);
    assert_eq!(huerfanos, 0);
    assert_eq!(fusionados[0].base.grado_id, 5);
}

#[test]
fn motor_sin_catalogo_no_anota_resultados() {
    let mut bitacora = Bitacora::nueva(true);
    let mut motor = SentinelEngine::new(Vec::new(), &mut bitacora);
    let salidas = motor.calcular_nomina(&vec![base_con("p1", 1)], &mut bitacora);
    assert_eq!(salidas.len(), 1);
    assert_eq!(salidas[0].0, "p1");
    assert!(salidas[0].1.is_empty());
}

#[test]
fn motor_sin_registros_no_produce_salidas() {
    let mut bitacora = Bitacora::nueva(true);
    let mut motor = SentinelEngine::new(
        vec![PrimaFuncion {
            codigo: String::from("A"),
            nombre: String::from("A"),
            formula: String::from("1+1"),
        }],
        &mut bitacora,
    );
    let salidas = motor.calcular_nomina(&Vec::new(), &mut bitacora);
    assert!(salidas.is_empty());
}
