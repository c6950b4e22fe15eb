use sandra_core::calc::{
    calcular_tiempo_servicio_en, obtener_sueldo_base, procesar_registro_base_en, restar_fechas,
};
use sandra_core::fecha::{numero_dias, parsear_fecha, Fecha};
use sandra_core::memoria::{Base, Directiva};

fn directiva(grado_id: u32, antiguedad: u32, sueldo_base: i64) -> Directiva {
    Directiva {
        grado_id,
        grado: String::from("PRUEBA"),
        antiguedad,
        sueldo_base,
        unidad_tributaria: 0,
        anio: 2026,
    }
}

fn tabla_ejemplo() -> Vec<Directiva> {
    vec![directiva(1, 0, 100_00), directiva(1, 5, 150_00), directiva(1, 10, 200_00)]
}

#[test]
fn sueldo_umbral_intermedio() {
    // Entre los umbrales 5 y 10, gana el mayor que no excede los anios.
    assert_eq!(obtener_sueldo_base(1, 7, &tabla_ejemplo()), Some(150_00));
}

#[test]
fn sueldo_umbral_cero() {
    assert_eq!(obtener_sueldo_base(1, 0, &tabla_ejemplo()), Some(100_00));
}

#[test]
fn sueldo_umbral_superior() {
    assert_eq!(obtener_sueldo_base(1, 12, &tabla_ejemplo()), Some(200_00));
}

#[test]
fn sueldo_grado_desconocido() {
    assert_eq!(obtener_sueldo_base(2, 7, &tabla_ejemplo()), None);
}

#[test]
fn sueldo_sin_umbral_aplicable_usa_el_minimo() {
    // Sin fila de umbral 0, anios por debajo del menor umbral caen en la
    // fila de umbral minimo del grado.
    let tabla = vec![directiva(1, 5, 150_00), directiva(1, 10, 200_00)];
    assert_eq!(obtener_sueldo_base(1, 3, &tabla), Some(150_00));
}

#[test]
fn parseo_fecha_simple() {
    assert_eq!(parsear_fecha("2010-05-03"), Some(Fecha { anio: 2010, mes: 5, dia: 3 }));
}

#[test]
fn parseo_fecha_con_hora_iso() {
    assert_eq!(
        parsear_fecha("2010-05-03T10:00:00Z"),
        Some(Fecha { anio: 2010, mes: 5, dia: 3 })
    );
}

#[test]
fn parseo_fecha_mes_invalido() {
    assert_eq!(parsear_fecha("2010-13-01"), None);
}

#[test]
fn parseo_fecha_bisiesta() {
    assert_eq!(parsear_fecha("2011-02-29"), None);
    assert_eq!(parsear_fecha("2012-02-29"), Some(Fecha { anio: 2012, mes: 2, dia: 29 }));
}

#[test]
fn parseo_fecha_basura() {
    assert_eq!(parsear_fecha(""), None);
    assert_eq!(parsear_fecha("03/05/2010"), None);
}

#[test]
fn dias_civiles_epoca() {
    assert_eq!(numero_dias(&Fecha { anio: 1970, mes: 1, dia: 1 }), 0);
    assert_eq!(numero_dias(&Fecha { anio: 1970, mes: 1, dia: 2 }), 1);
    assert_eq!(numero_dias(&Fecha { anio: 2000, mes: 3, dia: 1 }), 11017);
}

#[test]
fn resta_de_fechas_con_prestamo() {
    let t = restar_fechas(
        Fecha { anio: 2000, mes: 1, dia: 15 },
        Fecha { anio: 2010, mes: 3, dia: 10 },
        Fecha { anio: 2005, mes: 1, dia: 1 },
    );
    assert_eq!(t.anos, 10);
    assert_eq!(t.meses, 1);
    assert_eq!(t.dias, 25);
    assert_eq!(t.antiguedad, 10);
    assert_eq!(t.antiguedad_grados, 5);
}

#[test]
fn tiempo_servicio_desde_registro() {
    let hoy = Fecha { anio: 2020, mes: 1, dia: 1 };
    let mut base = Base::default();
    base.fecha_ingreso = Some(String::from("2000-01-01"));
    let t = calcular_tiempo_servicio_en(&base, hoy);
    assert_eq!(t.anos, 20);
    assert_eq!(t.meses, 0);
    assert_eq!(t.dias, 0);
    assert_eq!(t.antiguedad, 20);
}

#[test]
fn tiempo_servicio_con_reconocimiento() {
    // Dos anios, tres meses y cinco dias reconocidos corren la fecha de
    // ingreso hacia atras con la regla de meses de treinta dias.
    let hoy = Fecha { anio: 2020, mes: 1, dia: 1 };
    let mut base = Base::default();
    base.fecha_ingreso = Some(String::from("2010-06-20"));
    base.anio_reconocido = 2;
    base.mes_reconocido = 3;
    base.dia_reconocido = 5;
    let t = calcular_tiempo_servicio_en(&base, hoy);
    // Fecha reconocida: 2008-03-15; hasta 2020-01-01: 11 anios, 9 meses,
    // 16 dias con el prestamo de 30 dias.
    assert_eq!(t.anos, 11);
    assert_eq!(t.meses, 9);
    assert_eq!(t.dias, 16);
}

#[test]
fn procesar_registro_asigna_sueldo_y_antiguedad() {
    let hoy = Fecha { anio: 2020, mes: 1, dia: 1 };
    let mut base = Base::default();
    base.grado_id = 1;
    base.fecha_ingreso = Some(String::from("2013-01-01"));
    procesar_registro_base_en(&mut base, &tabla_ejemplo(), hoy);
    assert_eq!(base.antiguedad, 7);
    assert_eq!(base.sueldo_base, 150_00);
}

#[test]
fn procesar_registro_sin_grado_no_toca_el_sueldo() {
    let hoy = Fecha { anio: 2020, mes: 1, dia: 1 };
    let mut base = Base::default();
    base.grado_id = 9;
    base.sueldo_base = 123_45;
    procesar_registro_base_en(&mut base, &tabla_ejemplo(), hoy);
    assert_eq!(base.sueldo_base, 123_45);
}

#[test]
fn sueldo_con_tabla_vacia() {
    assert_eq!(obtener_sueldo_base(1, 7, &Vec::new()), None);
}

#[test]
fn parseo_fecha_anio_cero() {
    assert_eq!(parsear_fecha("0000-01-01"), None);
}

#[test]
fn parseo_fecha_mes_y_dia_de_una_cifra() {
    assert_eq!(parsear_fecha("2024-1-5"), Some(Fecha { anio: 2024, mes: 1, dia: 5 }));
    assert_eq!(parsear_fecha("2024-1-15"), Some(Fecha { anio: 2024, mes: 1, dia: 15 }));
    assert_eq!(parsear_fecha("2024-12-5"), Some(Fecha { anio: 2024, mes: 12, dia: 5 }));
    assert_eq!(parsear_fecha("2024-1-005"), None);
    assert_eq!(parsear_fecha("24-1-5"), None);
}
