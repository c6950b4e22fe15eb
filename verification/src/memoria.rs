//! Memoria de trabajo del nucleo: filas de referencia (Directiva,
//! PrimaFuncion, Concepto), registros de personal (Base), movimientos
//! financieros y la entidad fusionada (Beneficiario).
//!
//! Todo monto monetario se guarda como entero en centimos.

use vstd::prelude::*;

verus! {

/// Fila de la directiva de sueldos: (grado, antiguedad minima) -> sueldo.
#[derive(Debug, PartialEq)]
pub struct Directiva {
    pub grado_id: u32,
    pub grado: String,
    /// Anios de servicio minimos para que aplique la fila.
    pub antiguedad: u32,
    /// Sueldo base en centimos.
    pub sueldo_base: i64,
    /// Unidad tributaria en centimos.
    pub unidad_tributaria: i64,
    pub anio: u32,
}

/// Definicion de formula del catalogo: el codigo es clave unica y nombre de
/// la variable de salida.
#[derive(Debug, PartialEq)]
pub struct PrimaFuncion {
    pub codigo: String,
    pub nombre: String,
    pub formula: String,
}

/// Concepto de nomina asociado a una persona.
#[derive(Debug, PartialEq)]
pub struct Concepto {
    pub cedula: String,
    pub nombre: String,
    pub formula: String,
    pub tipo: String,
    pub valor: i64,
    pub sueldo_base: i64,
}

/// Resultado de una formula para un registro: codigo y valor en centimos.
#[derive(Debug, PartialEq)]
pub struct Calculo {
    pub codigo: String,
    pub valor: i64,
}

/// Imagenes de una lista de registros Base.
pub open spec fn vistas_bases(s: Seq<Base>) -> Seq<VistaBase> {
    s.map_values(|b: Base| b@)
}

/// Imagenes de una lista de beneficiarios.
pub open spec fn vistas_beneficiarios(s: Seq<Beneficiario>) -> Seq<VistaBeneficiario> {
    s.map_values(|x: Beneficiario| x@)
}

/// Valor que una lista de calculos da a un codigo: el del ultimo calculo
/// con ese codigo, o cero si no hay ninguno (resultado implicito de una
/// formula saltada o ausente).
pub open spec fn valor_calculo(calculos: Seq<Calculo>, codigo: Seq<char>) -> i64
    decreases calculos.len(),
{
    if calculos.len() == 0 {
        0
    } else if calculos.last().codigo@ == codigo {
        calculos.last().valor
    } else {
        valor_calculo(calculos.drop_last(), codigo)
    }
}

/// Busca el valor de un codigo en una lista de calculos; cero si falta.
pub fn buscar_calculo(calculos: &Vec<Calculo>, codigo: &str) -> (r: i64)
    ensures
        r == valor_calculo(calculos@, codigo@),
{
    let mut i: usize = calculos.len();
    proof {
        assert(calculos@.subrange(0, calculos@.len() as int) =~= calculos@);
    }
    while i > 0
        invariant
            i <= calculos.len(),
            valor_calculo(calculos@, codigo@) == valor_calculo(
                calculos@.subrange(0, i as int),
                codigo@,
            ),
        decreases i,
    {
        proof {
            assert(calculos@.subrange(0, i as int).last() == calculos@[i - 1]);
            assert(calculos@.subrange(0, i as int).drop_last() =~= calculos@.subrange(
                0,
                i - 1 as int,
            ));
        }
        if crate::texto::textos_iguales(calculos[i - 1].codigo.as_str(), codigo) {
            return calculos[i - 1].valor;
        }
        i = i - 1;
    }
    proof {
        assert(calculos@.subrange(0, 0) =~= Seq::<Calculo>::empty());
    }
    0
}

/// Registro de personal. Se muta una vez en el preprocesamiento de tiempo
/// de servicio y sueldo, y una vez al volcar los resultados de formulas.
#[derive(Debug, PartialEq)]
pub struct Base {
    pub grado_id: u32,
    pub componente_id: u32,
    pub n_hijos: u32,
    pub fecha_ingreso: Option<String>,
    pub f_ult_ascenso: Option<String>,
    pub anio_reconocido: u32,
    pub mes_reconocido: u32,
    pub dia_reconocido: u32,
    pub st_no_ascenso: u32,
    pub st_profesion: String,
    pub patterns: String,
    pub f_retiro: Option<String>,
    pub sueldo_base: i64,
    pub prima_antiguedad: i64,
    pub prima_hijos: i64,
    pub total_asignaciones: i64,
    pub antiguedad: u32,
    pub antiguedad_grado: u32,
    pub calculos: Vec<Calculo>,
}

/// Imagen en especificacion de un registro Base: los vectores pasan a
/// sucesiones, el resto queda como valor.
pub struct VistaBase {
    pub grado_id: u32,
    pub componente_id: u32,
    pub n_hijos: u32,
    pub fecha_ingreso: Option<String>,
    pub f_ult_ascenso: Option<String>,
    pub anio_reconocido: u32,
    pub mes_reconocido: u32,
    pub dia_reconocido: u32,
    pub st_no_ascenso: u32,
    pub st_profesion: String,
    pub patterns: String,
    pub f_retiro: Option<String>,
    pub sueldo_base: i64,
    pub prima_antiguedad: i64,
    pub prima_hijos: i64,
    pub total_asignaciones: i64,
    pub antiguedad: u32,
    pub antiguedad_grado: u32,
    pub calculos: Seq<Calculo>,
}

impl View for Base {
    type V = VistaBase;

    open spec fn view(&self) -> VistaBase {
        VistaBase {
            grado_id: self.grado_id,
            componente_id: self.componente_id,
            n_hijos: self.n_hijos,
            fecha_ingreso: self.fecha_ingreso,
            f_ult_ascenso: self.f_ult_ascenso,
            anio_reconocido: self.anio_reconocido,
            mes_reconocido: self.mes_reconocido,
            dia_reconocido: self.dia_reconocido,
            st_no_ascenso: self.st_no_ascenso,
            st_profesion: self.st_profesion,
            patterns: self.patterns,
            f_retiro: self.f_retiro,
            sueldo_base: self.sueldo_base,
            prima_antiguedad: self.prima_antiguedad,
            prima_hijos: self.prima_hijos,
            total_asignaciones: self.total_asignaciones,
            antiguedad: self.antiguedad,
            antiguedad_grado: self.antiguedad_grado,
            calculos: self.calculos@,
        }
    }
}

/// Movimiento financiero de una persona, por cedula. Montos en centimos.
#[derive(Debug, PartialEq)]
pub struct Movimiento {
    pub cedula: String,
    pub cap_banco: i64,
    pub anticipo: i64,
    pub fcap_banco: i64,
    pub dif_asi_anti: i64,
    pub anticipor: i64,
    pub dep_adicional: i64,
    pub dep_garantia: i64,
    pub ultima_modificacion: Option<String>,
}

/// Entidad final fusionada: identidad, su registro Base (o uno por defecto
/// si es huerfana) y su ultimo movimiento (o uno por defecto).
#[derive(Debug, PartialEq)]
pub struct Beneficiario {
    pub cedula: String,
    pub nombres: String,
    pub apellidos: String,
    pub componente_id: u32,
    pub f_ingreso_sistema: Option<String>,
    pub f_ult_ascenso: Option<String>,
    pub f_retiro: Option<String>,
    pub f_retiro_efectiva: Option<String>,
    pub edo_civil: Option<String>,
    pub sexo: Option<String>,
    pub status_id: u32,
    pub st_no_ascenso: u32,
    pub categoria: Option<String>,
    pub status: u32,
    pub numero_cuenta: String,
    pub f_creacion: Option<String>,
    pub usr_creacion: Option<String>,
    pub f_ult_modificacion: Option<String>,
    pub usr_modificacion: Option<String>,
    pub observ_ult_modificacion: Option<String>,
    pub motivo_paralizacion: Option<String>,
    pub f_reincorporacion: Option<String>,
    pub patterns: String,
    pub base: Base,
    pub movimientos: Movimiento,
    pub asignaciones: Vec<Concepto>,
    pub deducciones: Vec<Movimiento>,
}

/// Imagen en especificacion de un Beneficiario.
pub struct VistaBeneficiario {
    pub cedula: String,
    pub nombres: String,
    pub apellidos: String,
    pub componente_id: u32,
    pub f_ingreso_sistema: Option<String>,
    pub f_ult_ascenso: Option<String>,
    pub f_retiro: Option<String>,
    pub f_retiro_efectiva: Option<String>,
    pub edo_civil: Option<String>,
    pub sexo: Option<String>,
    pub status_id: u32,
    pub st_no_ascenso: u32,
    pub categoria: Option<String>,
    pub status: u32,
    pub numero_cuenta: String,
    pub f_creacion: Option<String>,
    pub usr_creacion: Option<String>,
    pub f_ult_modificacion: Option<String>,
    pub usr_modificacion: Option<String>,
    pub observ_ult_modificacion: Option<String>,
    pub motivo_paralizacion: Option<String>,
    pub f_reincorporacion: Option<String>,
    pub patterns: String,
    pub base: VistaBase,
    pub movimientos: Movimiento,
    pub asignaciones: Seq<Concepto>,
    pub deducciones: Seq<Movimiento>,
}

impl View for Beneficiario {
    type V = VistaBeneficiario;

    open spec fn view(&self) -> VistaBeneficiario {
        VistaBeneficiario {
            cedula: self.cedula,
            nombres: self.nombres,
            apellidos: self.apellidos,
            componente_id: self.componente_id,
            f_ingreso_sistema: self.f_ingreso_sistema,
            f_ult_ascenso: self.f_ult_ascenso,
            f_retiro: self.f_retiro,
            f_retiro_efectiva: self.f_retiro_efectiva,
            edo_civil: self.edo_civil,
            sexo: self.sexo,
            status_id: self.status_id,
            st_no_ascenso: self.st_no_ascenso,
            categoria: self.categoria,
            status: self.status,
            numero_cuenta: self.numero_cuenta,
            f_creacion: self.f_creacion,
            usr_creacion: self.usr_creacion,
            f_ult_modificacion: self.f_ult_modificacion,
            usr_modificacion: self.usr_modificacion,
            observ_ult_modificacion: self.observ_ult_modificacion,
            motivo_paralizacion: self.motivo_paralizacion,
            f_reincorporacion: self.f_reincorporacion,
            patterns: self.patterns,
            base: self.base@,
            movimientos: self.movimientos,
            asignaciones: self.asignaciones@,
            deducciones: self.deducciones@,
        }
    }
}

fn clonar_opcion(o: &Option<String>) -> (r: Option<String>)
    ensures
        r == *o,
{
    match o {
        Some(s) => Some(s.clone()),
        None => None,
    }
}

impl Clone for Directiva {
    fn clone(&self) -> (r: Self)
        ensures
            r == *self,
    {
        Directiva {
            grado_id: self.grado_id,
            grado: self.grado.clone(),
            antiguedad: self.antiguedad,
            sueldo_base: self.sueldo_base,
            unidad_tributaria: self.unidad_tributaria,
            anio: self.anio,
        }
    }
}

impl Clone for PrimaFuncion {
    fn clone(&self) -> (r: Self)
        ensures
            r == *self,
    {
        PrimaFuncion {
            codigo: self.codigo.clone(),
            nombre: self.nombre.clone(),
            formula: self.formula.clone(),
        }
    }
}

impl Clone for Concepto {
    fn clone(&self) -> (r: Self)
        ensures
            r == *self,
    {
        Concepto {
            cedula: self.cedula.clone(),
            nombre: self.nombre.clone(),
            formula: self.formula.clone(),
            tipo: self.tipo.clone(),
            valor: self.valor,
            sueldo_base: self.sueldo_base,
        }
    }
}

impl Clone for Calculo {
    fn clone(&self) -> (r: Self)
        ensures
            r == *self,
    {
        Calculo { codigo: self.codigo.clone(), valor: self.valor }
    }
}

impl Clone for Movimiento {
    fn clone(&self) -> (r: Self)
        ensures
            r == *self,
    {
        Movimiento {
            cedula: self.cedula.clone(),
            cap_banco: self.cap_banco,
            anticipo: self.anticipo,
            fcap_banco: self.fcap_banco,
            dif_asi_anti: self.dif_asi_anti,
            anticipor: self.anticipor,
            dep_adicional: self.dep_adicional,
            dep_garantia: self.dep_garantia,
            ultima_modificacion: clonar_opcion(&self.ultima_modificacion),
        }
    }
}

pub(crate) fn clonar_calculos(v: &Vec<Calculo>) -> (r: Vec<Calculo>)
    ensures
        r@ == v@,
{
    let mut r: Vec<Calculo> = Vec::new();
    let mut i: usize = 0;
    while i < v.len()
        invariant
            i <= v.len(),
            r@ =~= v@.subrange(0, i as int),
        decreases v.len() - i,
    {
        r.push(v[i].clone());
        i = i + 1;
    }
    proof {
        assert(v@.subrange(0, v@.len() as int) =~= v@);
    }
    r
}

fn clonar_conceptos(v: &Vec<Concepto>) -> (r: Vec<Concepto>)
    ensures
        r@ == v@,
{
    let mut r: Vec<Concepto> = Vec::new();
    let mut i: usize = 0;
    while i < v.len()
        invariant
            i <= v.len(),
            r@ =~= v@.subrange(0, i as int),
        decreases v.len() - i,
    {
        r.push(v[i].clone());
        i = i + 1;
    }
    proof {
        assert(v@.subrange(0, v@.len() as int) =~= v@);
    }
    r
}

fn clonar_movimientos(v: &Vec<Movimiento>) -> (r: Vec<Movimiento>)
    ensures
        r@ == v@,
{
    let mut r: Vec<Movimiento> = Vec::new();
    let mut i: usize = 0;
    while i < v.len()
        invariant
            i <= v.len(),
            r@ =~= v@.subrange(0, i as int),
        decreases v.len() - i,
    {
        r.push(v[i].clone());
        i = i + 1;
    }
    proof {
        assert(v@.subrange(0, v@.len() as int) =~= v@);
    }
    r
}

impl Clone for Base {
    fn clone(&self) -> (r: Self)
        ensures
            r@ == self@,
    {
        Base {
            grado_id: self.grado_id,
            componente_id: self.componente_id,
            n_hijos: self.n_hijos,
            fecha_ingreso: clonar_opcion(&self.fecha_ingreso),
            f_ult_ascenso: clonar_opcion(&self.f_ult_ascenso),
            anio_reconocido: self.anio_reconocido,
            mes_reconocido: self.mes_reconocido,
            dia_reconocido: self.dia_reconocido,
            st_no_ascenso: self.st_no_ascenso,
            st_profesion: self.st_profesion.clone(),
            patterns: self.patterns.clone(),
            f_retiro: clonar_opcion(&self.f_retiro),
            sueldo_base: self.sueldo_base,
            prima_antiguedad: self.prima_antiguedad,
            prima_hijos: self.prima_hijos,
            total_asignaciones: self.total_asignaciones,
            antiguedad: self.antiguedad,
            antiguedad_grado: self.antiguedad_grado,
            calculos: clonar_calculos(&self.calculos),
        }
    }
}

impl Clone for Beneficiario {
    fn clone(&self) -> (r: Self)
        ensures
            r@ == self@,
    {
        Beneficiario {
            cedula: self.cedula.clone(),
            nombres: self.nombres.clone(),
            apellidos: self.apellidos.clone(),
            componente_id: self.componente_id,
            f_ingreso_sistema: clonar_opcion(&self.f_ingreso_sistema),
            f_ult_ascenso: clonar_opcion(&self.f_ult_ascenso),
            f_retiro: clonar_opcion(&self.f_retiro),
            f_retiro_efectiva: clonar_opcion(&self.f_retiro_efectiva),
            edo_civil: clonar_opcion(&self.edo_civil),
            sexo: clonar_opcion(&self.sexo),
            status_id: self.status_id,
            st_no_ascenso: self.st_no_ascenso,
            categoria: clonar_opcion(&self.categoria),
            status: self.status,
            numero_cuenta: self.numero_cuenta.clone(),
            f_creacion: clonar_opcion(&self.f_creacion),
            usr_creacion: clonar_opcion(&self.usr_creacion),
            f_ult_modificacion: clonar_opcion(&self.f_ult_modificacion),
            usr_modificacion: clonar_opcion(&self.usr_modificacion),
            observ_ult_modificacion: clonar_opcion(&self.observ_ult_modificacion),
            motivo_paralizacion: clonar_opcion(&self.motivo_paralizacion),
            f_reincorporacion: clonar_opcion(&self.f_reincorporacion),
            patterns: self.patterns.clone(),
            base: self.base.clone(),
            movimientos: self.movimientos.clone(),
            asignaciones: clonar_conceptos(&self.asignaciones),
            deducciones: clonar_movimientos(&self.deducciones),
        }
    }
}

impl Movimiento {
    /// Movimiento vacio: cedula en blanco y todo monto en cero.
    pub open spec fn es_defecto(m: Movimiento) -> bool {
        &&& m.cedula@ == Seq::<char>::empty()
        &&& m.cap_banco == 0
        &&& m.anticipo == 0
        &&& m.fcap_banco == 0
        &&& m.dif_asi_anti == 0
        &&& m.anticipor == 0
        &&& m.dep_adicional == 0
        &&& m.dep_garantia == 0
        &&& m.ultima_modificacion is None
    }
}

impl Default for Movimiento {
    fn default() -> (r: Self)
        ensures
            Movimiento::es_defecto(r),
    {
        Movimiento {
            cedula: String::new(),
            cap_banco: 0,
            anticipo: 0,
            fcap_banco: 0,
            dif_asi_anti: 0,
            anticipor: 0,
            dep_adicional: 0,
            dep_garantia: 0,
            ultima_modificacion: None,
        }
    }
}

impl Base {
    /// Registro Base vacio: identificadores en cero, textos en blanco y sin
    /// calculos.
    pub open spec fn es_defecto(b: VistaBase) -> bool {
        &&& b.grado_id == 0
        &&& b.componente_id == 0
        &&& b.n_hijos == 0
        &&& b.fecha_ingreso is None
        &&& b.f_ult_ascenso is None
        &&& b.anio_reconocido == 0
        &&& b.mes_reconocido == 0
        &&& b.dia_reconocido == 0
        &&& b.st_no_ascenso == 0
        &&& b.st_profesion@ == Seq::<char>::empty()
        &&& b.patterns@ == Seq::<char>::empty()
        &&& b.f_retiro is None
        &&& b.sueldo_base == 0
        &&& b.prima_antiguedad == 0
        &&& b.prima_hijos == 0
        &&& b.total_asignaciones == 0
        &&& b.antiguedad == 0
        &&& b.antiguedad_grado == 0
        &&& b.calculos == Seq::<Calculo>::empty()
    }
}

impl Default for Base {
    fn default() -> (r: Self)
        ensures
            Base::es_defecto(r@),
    {
        Base {
            grado_id: 0,
            componente_id: 0,
            n_hijos: 0,
            fecha_ingreso: None,
            f_ult_ascenso: None,
            anio_reconocido: 0,
            mes_reconocido: 0,
            dia_reconocido: 0,
            st_no_ascenso: 0,
            st_profesion: String::new(),
            patterns: String::new(),
            f_retiro: None,
            sueldo_base: 0,
            prima_antiguedad: 0,
            prima_hijos: 0,
            total_asignaciones: 0,
            antiguedad: 0,
            antiguedad_grado: 0,
            calculos: Vec::new(),
        }
    }
}

impl Beneficiario {
    /// Beneficiario vacio: textos en blanco, Base y Movimiento por defecto.
    pub open spec fn es_defecto(b: VistaBeneficiario) -> bool {
        &&& b.cedula@ == Seq::<char>::empty()
        &&& b.nombres@ == Seq::<char>::empty()
        &&& b.apellidos@ == Seq::<char>::empty()
        &&& b.componente_id == 0
        &&& b.f_ingreso_sistema is None
        &&& b.f_ult_ascenso is None
        &&& b.f_retiro is None
        &&& b.f_retiro_efectiva is None
        &&& b.edo_civil is None
        &&& b.sexo is None
        &&& b.status_id == 0
        &&& b.st_no_ascenso == 0
        &&& b.categoria is None
        &&& b.status == 0
        &&& b.numero_cuenta@ == Seq::<char>::empty()
        &&& b.f_creacion is None
        &&& b.usr_creacion is None
        &&& b.f_ult_modificacion is None
        &&& b.usr_modificacion is None
        &&& b.observ_ult_modificacion is None
        &&& b.motivo_paralizacion is None
        &&& b.f_reincorporacion is None
        &&& b.patterns@ == Seq::<char>::empty()
        &&& Base::es_defecto(b.base)
        &&& Movimiento::es_defecto(b.movimientos)
        &&& b.asignaciones == Seq::<Concepto>::empty()
        &&& b.deducciones == Seq::<Movimiento>::empty()
    }
}

impl Default for Beneficiario {
    fn default() -> (r: Self)
        ensures
            Beneficiario::es_defecto(r@),
    {
        Beneficiario {
            cedula: String::new(),
            nombres: String::new(),
            apellidos: String::new(),
            componente_id: 0,
            f_ingreso_sistema: None,
            f_ult_ascenso: None,
            f_retiro: None,
            f_retiro_efectiva: None,
            edo_civil: None,
            sexo: None,
            status_id: 0,
            st_no_ascenso: 0,
            categoria: None,
            status: 0,
            numero_cuenta: String::new(),
            f_creacion: None,
            usr_creacion: None,
            f_ult_modificacion: None,
            usr_modificacion: None,
            observ_ult_modificacion: None,
            motivo_paralizacion: None,
            f_reincorporacion: None,
            patterns: String::new(),
            base: Base::default(),
            movimientos: Movimiento::default(),
            asignaciones: Vec::new(),
            deducciones: Vec::new(),
        }
    }
}

} // verus!
