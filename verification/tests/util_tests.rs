use sandra_core::archivo::texto_sidecar;
use sandra_core::beneficiario::{Beneficiario, Estatus, EstadoCivil, HojaDeTiempo, HojaFinanciera, Sexo};
use sandra_core::componente::Componente;
use sandra_core::config::Config;
use sandra_core::fecha::Fecha;
use sandra_core::grado::Grado;
use sandra_core::logger::{is_enabled, log_error, log_info, log_warn, Bitacora};
use sandra_core::manifiesto::Manifiesto;
use sandra_core::seguridad::md5_string;
use sandra_core::telemetria::{generate_report, record, Sensores};
use sandra_core::texto::{clean_special_chars, pad_left, pad_right, texto_centimos};

#[test]
fn relleno_a_la_izquierda() {
    assert_eq!(pad_left("7", 3, '0'), "007");
    assert_eq!(pad_left("1234", 3, '0'), "1234");
    assert_eq!(pad_left("", 2, 'x'), "xx");
}

#[test]
fn relleno_a_la_derecha() {
    assert_eq!(pad_right("ab", 4, '.'), "ab..");
    assert_eq!(pad_right("abcd", 3, '.'), "abcd");
}

#[test]
fn limpieza_de_caracteres_especiales() {
    assert_eq!(clean_special_chars("abc-123_ OK"), "abc-123_ OK");
    assert_eq!(clean_special_chars("héllo, wörld!"), "hllo wrld");
    assert_eq!(clean_special_chars("a\tb\nc"), "a\tb\nc");
    // El espacio en blanco Unicode sobrevive, como cualquier \s.
    assert_eq!(clean_special_chars("a\u{a0}b\u{2003}c"), "a\u{a0}b\u{2003}c");
}

#[test]
fn centimos_con_dos_decimales() {
    assert_eq!(texto_centimos(0), "0.00");
    assert_eq!(texto_centimos(12345), "123.45");
    assert_eq!(texto_centimos(7), "0.07");
    assert_eq!(texto_centimos(-50), "-0.50");
    assert_eq!(texto_centimos(-12300), "-123.00");
}

#[test]
fn resumen_md5_conocido() {
    assert_eq!(md5_string("abc"), "900150983cd24fb0d6963f7d28e17f72");
    assert_eq!(md5_string(""), "d41d8cd98f00b204e9800998ecf8427e");
}

#[test]
fn bitacora_filtra_info_de_carga() {
    let mut b = Bitacora::nueva(true);
    assert!(is_enabled(&b));
    log_info(&mut b, "CARGA", "ruido");
    assert!(b.entradas.is_empty());
    log_info(&mut b, "EXPORT", "esto queda");
    log_warn(&mut b, "DATA", "ojo");
    log_error(&mut b, "JSON", "fallo");
    assert_eq!(b.entradas.len(), 3);
    assert_eq!(b.entradas[0].nivel, "INFO");
    assert_eq!(b.entradas[1].nivel, "WARN");
    assert_eq!(b.entradas[2].nivel, "ERROR");
}

#[test]
fn bitacora_inhabilitada_no_anota() {
    let mut b = Bitacora::nueva(false);
    log_error(&mut b, "JSON", "fallo");
    assert!(b.entradas.is_empty());
}

#[test]
fn telemetria_registra_y_reporta() {
    let mut s = Sensores::nuevos(true);
    record(&mut s, "CARGA", "IPSFA_CBase", 120, 5000, "Lotes: 3");
    record(&mut s, "EXPORT", "CSV", 30, 5000, "1.2 MB");
    record(&mut s, "CARGA", "Vacia", 5, 0, "sin filas");
    let reporte = generate_report(&s);
    assert_eq!(
        reporte,
        "SANDRA SENTINEL - REPORTE DE TELEMETRIA\n\
         IPSFA_CBase | CARGA | OK | 120 ms | 5000 registros | Lotes: 3\n\
         CSV | EXPORT | OK | 30 ms | 5000 registros | 1.2 MB\n\
         Vacia | CARGA | FALLO | 5 ms | 0 registros | sin filas\n\
         Tiempo total acumulado: 155 ms\n\
         Operacion mas lenta: IPSFA_CBase (120 ms)\n"
    );
}

#[test]
fn telemetria_sin_metricas_reporta_resumen_vacio() {
    let s = Sensores::nuevos(true);
    let reporte = generate_report(&s);
    assert_eq!(
        reporte,
        "SANDRA SENTINEL - REPORTE DE TELEMETRIA\n\
         Tiempo total acumulado: 0 ms\n\
         Operacion mas lenta: - (0 ms)\n"
    );
}

#[test]
fn telemetria_inhabilitada_no_registra() {
    let mut s = Sensores::nuevos(false);
    record(&mut s, "CARGA", "IPSFA_CBase", 120, 5000, "Lotes: 3");
    assert!(s.metricas.is_empty());
    // Inhabilitada, no hay reporte alguno.
    assert_eq!(generate_report(&s), "");
}

#[test]
fn url_de_conexion() {
    let c = Config {
        sentinel_host: String::from("[::1]"),
        sentinel_port: String::from("50051"),
        version: String::from("0.1.0"),
        autor: String::from("equipo"),
        description: String::from("nucleo"),
        format_file: String::from("json"),
    };
    assert_eq!(c.get_url(), "http://[::1]:50051");
}

#[test]
fn sidecar_de_metadatos() {
    assert_eq!(
        texto_sidecar("equipo", "nomina.csv"),
        "{ \"author\": \"equipo\", \"file\": \"nomina.csv\" }"
    );
}

#[test]
fn manifiesto_por_defecto() {
    let m = Manifiesto::default_mock();
    assert_eq!(m.nombre, "Ejecución Default (Segura)");
    assert_eq!(m.ciclo, "DEFAULT_2026");
    assert_eq!(m.version, "1.0.0");
    assert_eq!(m.cargas.len(), 5);
    assert_eq!(m.cargas[3].0, "IPSFA_CBase");
    assert_eq!(m.cargas[3].1.sql_filter.as_deref(), Some("status_id = 201"));
    // La fecha por defecto viene como AAAA-MM-DD.
    assert_eq!(m.fecha.len(), 10);
    assert_eq!(m.fecha.as_bytes()[4], b'-');
    assert_eq!(m.fecha.as_bytes()[7], b'-');
}

#[test]
fn descripcion_de_componentes() {
    assert_eq!(Componente::Ejercito.description(), "Ejército Bolivariano");
    assert_eq!(Componente::Milicia.description(), "Milicia Bolivariana");
    assert_eq!(Componente::GuardiaNacional.codigo(), 4);
}

fn beneficiario_modelo(estatus: Estatus) -> Beneficiario {
    let fecha = Fecha { anio: 2010, mes: 1, dia: 1 };
    Beneficiario {
        id: String::from("1"),
        cedula: String::from("V-1"),
        nombres: String::from("Ana"),
        apellidos: String::from("Perez"),
        sexo: Sexo::Ff,
        estado_civil: EstadoCivil::Soltero,
        numero_hijos: 1,
        componente: Componente::Armada,
        grado: Grado {
            id: 1,
            codigo: String::from("SG"),
            nombre: String::from("SARGENTO"),
            componente: Componente::Armada,
        },
        estatus,
        estatus_descripcion: None,
        st_no_ascenso: false,
        st_profesionalizacion: true,
        tiempo: HojaDeTiempo {
            fecha_ingreso: fecha,
            fecha_ingreso_sistema: fecha,
            fecha_ultimo_ascenso: fecha,
            fecha_retiro: None,
            fecha_retiro_efectiva: None,
            fecha_reincorporacion: None,
            anos_reconocidos: 0,
            meses_reconocidos: 0,
            dias_reconocidos: 0,
            tiempo_servicio: 10,
            antiguedad_grado: 4,
        },
        financiera: HojaFinanciera {
            numero_cuenta: String::from("0102"),
            sueldo_base: 100_00,
            sueldo_global: 0,
            sueldo_integral: 0,
            aguinaldos: 0,
            vacaciones: 0,
            prima_t_servicio: 0,
            prima_no_ascenso: 0,
            prima_especial: 0,
            prima_profesionalizacion: 0,
            asignacion_antiguedad: 0,
            no_depositado_banco: 0,
        },
        usuario_creador: String::from("sistema"),
        fecha_creacion: fecha,
        usuario_modificacion: None,
        fecha_ultima_modificacion: None,
        observacion: None,
        motivo_paralizacion: None,
    }
}

#[test]
fn nombre_completo_y_nomina() {
    let activo = beneficiario_modelo(Estatus::Activo);
    assert_eq!(activo.nombre_completo(), "Ana Perez");
    assert!(activo.en_nomina());
    assert!(beneficiario_modelo(Estatus::Paralizado).en_nomina());
    assert!(!beneficiario_modelo(Estatus::Retirado).en_nomina());
    assert_eq!(Estatus::Paralizado.codigo(), 206);
    assert_eq!(Estatus::Activo.codigo(), 201);
}
