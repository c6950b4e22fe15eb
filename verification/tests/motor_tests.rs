use sandra_core::logger::Bitacora;
use sandra_core::memoria::{buscar_calculo, Base, PrimaFuncion};
use sandra_core::motor::SentinelEngine;

fn prima(codigo: &str, formula: &str) -> PrimaFuncion {
    PrimaFuncion {
        codigo: String::from(codigo),
        nombre: String::from(codigo),
        formula: String::from(formula),
    }
}

fn registro(patterns: &str, sueldo_base: i64, n_hijos: u32) -> Base {
    let mut b = Base::default();
    b.patterns = String::from(patterns);
    b.sueldo_base = sueldo_base;
    b.n_hijos = n_hijos;
    b
}

#[test]
fn compila_y_recorta_el_catalogo() {
    let mut bitacora = Bitacora::nueva(true);
    let motor = SentinelEngine::new(vec![prima("A", "  1+1;; ")], &mut bitacora);
    assert_eq!(motor.formulas().len(), 1);
    assert_eq!(motor.formulas()[0].codigo_rhai, "1+1");
    assert!(motor.formulas()[0].activo);
    assert!(bitacora.entradas.is_empty());
}

#[test]
fn formula_que_no_compila_queda_fuera() {
    let mut bitacora = Bitacora::nueva(true);
    let motor = SentinelEngine::new(
        vec![prima("MALA", "1 +*/ 2"), prima("BUENA", "2+2")],
        &mut bitacora,
    );
    assert_eq!(motor.formulas().len(), 1);
    assert_eq!(motor.formulas()[0].codigo, "BUENA");
    assert_eq!(bitacora.entradas.len(), 1);
    assert_eq!(bitacora.entradas[0].nivel, "ERROR");
    assert_eq!(bitacora.entradas[0].categoria, "FORMULA");
    assert_eq!(
        bitacora.entradas[0].mensaje,
        "Formula 'MALA' descartada: no compila"
    );
}

#[test]
fn orden_de_declaracion_encadena_resultados() {
    // Catalogo [A: "1+1", B: "A*2"]: en cada registro B vale el doble de A.
    let mut bitacora = Bitacora::nueva(true);
    let mut motor = SentinelEngine::new(
        vec![prima("A", "1+1"), prima("B", "A*2")],
        &mut bitacora,
    );
    let registros = vec![registro("p1", 100_00, 0), registro("p2", 200_00, 3)];
    let salidas = motor.calcular_nomina(&registros, &mut bitacora);
    assert_eq!(salidas.len(), 2);
    for (clave, resultados) in &salidas {
        assert!(clave == "p1" || clave == "p2");
        let a = buscar_calculo(resultados, "A");
        let b = buscar_calculo(resultados, "B");
        assert_eq!(a, 2);
        assert_eq!(b, 2 * a);
    }
}

#[test]
fn variables_del_registro_entran_al_ambito() {
    let mut bitacora = Bitacora::nueva(true);
    let mut motor = SentinelEngine::new(
        vec![prima("PH", "numero_hijos * 1000"), prima("PS", "sueldo_base / 2")],
        &mut bitacora,
    );
    let registros = vec![registro("p1", 300_00, 2)];
    let salidas = motor.calcular_nomina(&registros, &mut bitacora);
    assert_eq!(buscar_calculo(&salidas[0].1, "PH"), 2000);
    assert_eq!(buscar_calculo(&salidas[0].1, "PS"), 150_00);
}

#[test]
fn resultado_flotante_se_trunca() {
    let mut bitacora = Bitacora::nueva(true);
    let mut motor = SentinelEngine::new(vec![prima("F", "2.5 + 0.9")], &mut bitacora);
    let salidas = motor.calcular_nomina(&vec![registro("p1", 0, 0)], &mut bitacora);
    assert_eq!(buscar_calculo(&salidas[0].1, "F"), 3);
}

#[test]
fn resultado_no_numerico_vale_cero() {
    let mut bitacora = Bitacora::nueva(true);
    let mut motor = SentinelEngine::new(vec![prima("T", "\"texto\"")], &mut bitacora);
    let salidas = motor.calcular_nomina(&vec![registro("p1", 0, 0)], &mut bitacora);
    assert_eq!(buscar_calculo(&salidas[0].1, "T"), 0);
}

#[test]
fn disyuntor_apaga_la_formula_tras_su_primer_fallo() {
    // La formula MALA falla en el primer registro: su resultado es cero en
    // ese registro y en todos los siguientes, y el fallo se anota una vez.
    let mut bitacora = Bitacora::nueva(true);
    let mut motor = SentinelEngine::new(
        vec![prima("MALA", "variable_inexistente + 1"), prima("BUENA", "7")],
        &mut bitacora,
    );
    let registros = vec![
        registro("p1", 100_00, 0),
        registro("p2", 200_00, 0),
        registro("p3", 300_00, 0),
    ];
    let salidas = motor.calcular_nomina(&registros, &mut bitacora);
    assert_eq!(salidas.len(), 3);
    for (_, resultados) in &salidas {
        assert_eq!(buscar_calculo(resultados, "MALA"), 0);
        assert_eq!(buscar_calculo(resultados, "BUENA"), 7);
    }
    // El primer registro anoto el cero; los demas la saltaron sin anotar.
    assert!(salidas[0].1.iter().any(|c| c.codigo == "MALA"));
    assert!(!salidas[1].1.iter().any(|c| c.codigo == "MALA"));
    assert!(!salidas[2].1.iter().any(|c| c.codigo == "MALA"));
    assert!(!motor.formulas()[0].activo);
    assert!(motor.formulas()[1].activo);
    let avisos: Vec<_> = bitacora
        .entradas
        .iter()
        .filter(|e| e.categoria == "FORMULA")
        .collect();
    assert_eq!(avisos.len(), 1);
    assert_eq!(
        avisos[0].mensaje,
        "Formula 'MALA' desactivada por error de evaluacion"
    );
}

#[test]
fn guion_desbocado_dispara_el_tope_de_operaciones() {
    // El motor fijo tiene tope de operaciones: un bucle infinito termina
    // en error determinista y dispara el disyuntor como cualquier fallo.
    let mut bitacora = Bitacora::nueva(true);
    let mut motor = SentinelEngine::new(
        vec![prima("BUCLE", "loop { }"), prima("BUENA", "9")],
        &mut bitacora,
    );
    let salidas = motor.calcular_nomina(&vec![registro("p1", 0, 0)], &mut bitacora);
    assert_eq!(buscar_calculo(&salidas[0].1, "BUCLE"), 0);
    assert_eq!(buscar_calculo(&salidas[0].1, "BUENA"), 9);
    assert!(!motor.formulas()[0].activo);
}

#[test]
fn el_motor_no_expone_el_reloj() {
    // El paquete de tiempo no esta registrado: una formula que intenta
    // leer el reloj falla en vez de devolver un valor que cambia.
    let mut bitacora = Bitacora::nueva(true);
    let mut motor = SentinelEngine::new(vec![prima("T", "timestamp()")], &mut bitacora);
    let salidas = motor.calcular_nomina(&vec![registro("p1", 0, 0)], &mut bitacora);
    assert_eq!(buscar_calculo(&salidas[0].1, "T"), 0);
    assert!(!motor.formulas()[0].activo);
}
