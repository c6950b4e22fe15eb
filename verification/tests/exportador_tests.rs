use sandra_core::exportador::exportar_nomina_csv;
use sandra_core::logger::Bitacora;
use sandra_core::memoria::{Base, Beneficiario, Calculo, Movimiento};

fn beneficiaria_de_prueba() -> Beneficiario {
    let mut base = Base::default();
    base.grado_id = 3;
    base.n_hijos = 2;
    base.fecha_ingreso = Some(String::from("2010-01-01"));
    base.sueldo_base = 200_00;
    base.total_asignaciones = 215_00;
    base.antiguedad = 10;
    base.antiguedad_grado = 4;
    base.calculos = vec![
        Calculo { codigo: String::from("prima_hijos"), valor: 10_00 },
        Calculo { codigo: String::from("prima_tiemposervicio"), valor: 5_00 },
    ];
    let mut mov = Movimiento::default();
    mov.cedula = String::from("V-9");
    mov.cap_banco = 42_50;
    let mut b = Beneficiario::default();
    b.cedula = String::from("V-9");
    b.nombres = String::from("Ana");
    b.apellidos = String::from("Perez");
    b.sexo = Some(String::from("F"));
    b.componente_id = 2;
    b.status_id = 201;
    b.patterns = String::from("p9");
    b.base = base;
    b.movimientos = mov;
    b
}

#[test]
fn exportacion_csv_de_una_beneficiaria() {
    let mut bitacora = Bitacora::nueva(true);
    let bytes = exportar_nomina_csv(&vec![beneficiaria_de_prueba()], &mut bitacora);
    let texto = String::from_utf8(bytes).unwrap();
    let lineas: Vec<&str> = texto.lines().collect();
    assert_eq!(lineas.len(), 2);
    assert_eq!(
        lineas[0],
        "cedula,nombres,apellidos,sexo,edo_civil,n_hijos (base),componente_id,\
         grado_id (base),categoria,status_id,status,st_no_ascenso,fecha_ingreso,\
         fecha_ultimo_ascenso,fecha_retiro,anio_reconocido,mes_reconocido,dia_reconocido,\
         antiguedad_total (decimal),antiguedad_grado (anos),sueldo_base,prima_antiguedad,\
         prima_hijos,prima_profesionalizacion,total_asignaciones_base,cap_banco,anticipo,\
         f_cap_banco,dif_asi_anti,anticipo_retroactivo,dep_adicional,dep_garantia,patterns"
    );
    assert_eq!(
        lineas[1],
        "V-9,Ana,Perez,F,,2,2,3,,201,0,0,2010-01-01,,,0,0,0,10,4,200.00,5.00,10.00,0.00,\
         215.00,42.50,0.00,0.00,0.00,0.00,0.00,0.00,p9"
    );
    assert_eq!(bitacora.entradas.len(), 1);
    assert_eq!(bitacora.entradas[0].categoria, "EXPORT");
}

#[test]
fn exportacion_csv_sin_filas_deja_solo_la_cabecera() {
    let mut bitacora = Bitacora::nueva(false);
    let bytes = exportar_nomina_csv(&Vec::new(), &mut bitacora);
    let texto = String::from_utf8(bytes).unwrap();
    assert_eq!(texto.lines().count(), 1);
    assert!(texto.starts_with("cedula,"));
    assert!(bitacora.entradas.is_empty());
}

#[test]
fn exportacion_csv_entrecomilla_campos_con_coma() {
    let mut b = Beneficiario::default();
    b.cedula = String::from("V-1");
    b.nombres = String::from("Ana,Maria");
    let mut bitacora = Bitacora::nueva(false);
    let bytes = exportar_nomina_csv(&vec![b], &mut bitacora);
    let texto = String::from_utf8(bytes).unwrap();
    assert!(texto.contains("V-1,\"Ana,Maria\","));
}
