//! Motor de evaluacion de expresiones: compila el catalogo de formulas una
//! vez por corrida y evalua la cadena completa sobre cada registro, en
//! orden de declaracion, con un disyuntor por formula que la apaga de
//! forma permanente tras su primer fallo de evaluacion.
//!
//! El motor rhai se construye siempre con la misma configuracion fija y
//! determinista (vease `crear_motor`), y el programa compilado de cada
//! formula queda sellado junto a su texto: `SentinelEngine::new` es el
//! unico constructor, asi que todo programa evaluado proviene de compilar
//! el texto que la formula declara.

use vstd::prelude::*;
use rhai::packages::Package;
use crate::logger::{log_error, tras_escritura, Bitacora, VistaBitacora};
use crate::memoria::{valor_calculo, vistas_bases, Base, Calculo, PrimaFuncion, VistaBase};

verus! {

#[verifier::external_type_specification]
#[verifier::external_body]
pub struct ExMotorRhai(rhai::Engine);

#[verifier::external_type_specification]
#[verifier::external_body]
pub struct ExProgramaRhai(rhai::AST);

/// Resultado de evaluar una formula en el motor de expresiones.
#[derive(Debug, Clone, Copy, PartialEq, Eq, Structural)]
pub enum ResultadoEval {
    /// Valor numerico, en centimos (un flotante llega truncado).
    Numero(i64),
    /// La evaluacion termino con un valor que no es numerico.
    NoNumerico,
    /// La evaluacion fallo, o excedio el tope de operaciones del motor.
    Fallo,
}

/// Nombre para el valor al que el motor fijo de este crate llega al
/// evaluar el texto de una formula bajo un ambito de variables enteras.
pub uninterp spec fn evalua(fuente: Seq<char>, ambito: Seq<(Seq<char>, i64)>) -> ResultadoEval;

/// Nombre para el exito o fracaso de compilacion de un texto de formula
/// bajo el motor fijo de este crate.
pub uninterp spec fn compila(fuente: Seq<char>) -> bool;

/// Una formula compilada del catalogo, con su bandera de disyuntor. El
/// programa compilado es privado: fuera de este modulo nadie puede armar
/// una FormulaFnx ni cambiarle el programa, de modo que `ast` es siempre
/// la compilacion de `codigo_rhai`.
pub struct FormulaFnx {
    pub codigo: String,
    pub nombre: String,
    pub codigo_rhai: String,
    ast: rhai::AST,
    pub activo: bool,
}

/// Imagen en especificacion de una formula: codigo, nombre, texto fuente y
/// disyuntor. El programa compilado no aparece: queda determinado por el
/// texto.
pub struct VistaFormula {
    pub codigo: String,
    pub nombre: String,
    pub fuente: Seq<char>,
    pub activo: bool,
}

impl FormulaFnx {
    /// Imagen en especificacion de la formula.
    pub closed spec fn vista(&self) -> VistaFormula {
        VistaFormula {
            codigo: self.codigo,
            nombre: self.nombre,
            fuente: self.codigo_rhai@,
            activo: self.activo,
        }
    }
}

/// Imagenes de una lista de formulas compiladas.
pub closed spec fn vistas_formulas(s: Seq<FormulaFnx>) -> Seq<VistaFormula> {
    s.map_values(|f: FormulaFnx| f.vista())
}

/// El motor de calculo: las formulas compiladas en orden de declaracion.
/// Sus campos son privados; `new` es el unico constructor.
pub struct SentinelEngine {
    engine: rhai::Engine,
    formulas: Vec<FormulaFnx>,
}

impl SentinelEngine {
    /// Imagen en especificacion del catalogo compilado, en orden.
    pub closed spec fn vista(&self) -> Seq<VistaFormula> {
        vistas_formulas(self.formulas@)
    }

    /// Las formulas compiladas, en orden de declaracion, para inspeccion.
    pub fn formulas(&self) -> (r: &Vec<FormulaFnx>)
        ensures
            vistas_formulas(r@) == self.vista(),
    {
        &self.formulas
    }
}

/// Construye el motor de expresiones con la configuracion fija del crate.
///
/// Apoya en rhai::Engine::new_raw mas los paquetes CorePackage (nucleo del
/// lenguaje, aritmetica, cadenas, iteradores), LogicPackage y
/// BasicMathPackage, y en Engine::set_max_operations. A proposito no se
/// registra el paquete de tiempo ni fuente alguna de azar, y el tope de
/// operaciones vuelve error (determinista) todo guion desbocado: con esta
/// configuracion, compilar y evaluar son funciones del texto y del ambito.
/// Nada se afirma del valor construido.
#[verifier::external_body]
fn crear_motor() -> rhai::Engine {
    let mut motor = rhai::Engine::new_raw();
    motor.set_max_operations(1_000_000);
    rhai::packages::CorePackage::new().register_into_engine(&mut motor);
    rhai::packages::LogicPackage::new().register_into_engine(&mut motor);
    rhai::packages::BasicMathPackage::new().register_into_engine(&mut motor);
    motor
}

/// Compila el texto de una formula; el error de compilacion llega como texto.
///
/// Apoya en rhai::Engine::compile: el analisis es determinista, asi que
/// sobre el motor fijo de `crear_motor` (el unico con el que se llama) que
/// un texto compile o no depende solo del texto, lo que `compila` nombra.
#[verifier::external_body]
fn compilar_formula(motor: &rhai::Engine, fuente: &str) -> (r: Result<rhai::AST, String>)
    ensures
        r is Ok <==> compila(fuente@),
{
    match motor.compile(fuente) {
        Ok(ast) => Ok(ast),
        Err(e) => Err(e.to_string()),
    }
}

pub open spec fn vista_ambito(s: Seq<(String, i64)>) -> Seq<(Seq<char>, i64)> {
    s.map_values(|p: (String, i64)| (p.0@, p.1))
}

/// Evalua el programa compilado de una formula bajo un ambito de variables
/// enteras.
///
/// Apoya en rhai::Engine::eval_ast_with_scope sobre el motor fijo de
/// `crear_motor`: sin reloj ni azar y con tope de operaciones, el
/// resultado es funcion del programa y del ambito; y como `ast` es privado
/// y `SentinelEngine::new` el unico constructor, el programa es la
/// compilacion de `codigo_rhai`, asi que el resultado es el del texto, lo
/// que `evalua` nombra. Un resultado entero o flotante llega como Numero
/// (el flotante truncado hacia cero); otro tipo, como NoNumerico; un error
/// de evaluacion o el tope de operaciones, como Fallo.
#[verifier::external_body]
fn evaluar_formula(motor: &rhai::Engine, formula: &FormulaFnx, ambito: &Vec<(String, i64)>) -> (r:
    ResultadoEval)
    ensures
        r == evalua(formula.codigo_rhai@, vista_ambito(ambito@)),
{
    let mut alcance = rhai::Scope::new();
    for (nombre, valor) in ambito.iter() {
        alcance.push(nombre.clone(), *valor);
    }
    match motor.eval_ast_with_scope::<rhai::Dynamic>(&mut alcance, &formula.ast) {
        Ok(v) => match (v.as_int(), v.as_float()) {
            (Ok(i), _) => ResultadoEval::Numero(i),
            (_, Ok(f)) => ResultadoEval::Numero(f as i64),
            _ => ResultadoEval::NoNumerico,
        },
        Err(_) => ResultadoEval::Fallo,
    }
}

/// Primer indice desde `i` cuyo caracter no es espacio en blanco, o el
/// largo.
pub open spec fn primer_no_espacio(s: Seq<char>, i: int) -> int
    decreases s.len() - i,
{
    if i < 0 || i >= s.len() {
        s.len() as int
    } else if crate::texto::es_espacio_en_blanco(s[i]) {
        primer_no_espacio(s, i + 1)
    } else {
        i
    }
}

/// Retrocede desde `i` mientras el caracter anterior cumpla el descarte,
/// sin bajar de `piso`.
pub open spec fn retroceso(s: Seq<char>, i: int, piso: int, punto_y_coma: bool) -> int
    decreases i - piso,
{
    if i <= piso {
        piso
    } else if (punto_y_coma && s[i - 1] == ';') || (!punto_y_coma && crate::texto::es_espacio_en_blanco(
        s[i - 1],
    )) {
        retroceso(s, i - 1, piso, punto_y_coma)
    } else {
        i
    }
}

/// El texto de una formula recortado: sin espacio en blanco en los
/// extremos y sin separadores de sentencia (';') al final.
pub open spec fn recortada(s: Seq<char>) -> Seq<char> {
    let a = primer_no_espacio(s, 0);
    let b = retroceso(s, s.len() as int, a, false);
    let c = retroceso(s, b, a, true);
    s.subrange(a, c)
}

/// Recorta el texto de una formula: espacio en blanco en ambos extremos y
/// separadores de sentencia al final.
pub fn recortar_formula(s: &str) -> (r: String)
    ensures
        r@ == recortada(s@),
{
    let largo = s.unicode_len();
    let mut a: usize = 0;
    while a < largo && crate::texto::caracter_espacio_en_blanco(s.get_char(a))
        invariant
            0 <= a <= largo,
            largo == s@.len(),
            primer_no_espacio(s@, 0) == primer_no_espacio(s@, a as int),
        decreases largo - a,
    {
        a = a + 1;
    }
    assert(primer_no_espacio(s@, 0) == a as int);
    let mut b: usize = largo;
    while b > a && crate::texto::caracter_espacio_en_blanco(s.get_char(b - 1))
        invariant
            a <= b <= largo,
            largo == s@.len(),
            retroceso(s@, largo as int, a as int, false) == retroceso(s@, b as int, a as int, false),
        decreases b,
    {
        b = b - 1;
    }
    assert(retroceso(s@, largo as int, a as int, false) == b as int);
    let mut c: usize = b;
    while c > a && s.get_char(c - 1) == ';'
        invariant
            a <= c <= b,
            b <= largo,
            largo == s@.len(),
            retroceso(s@, b as int, a as int, true) == retroceso(s@, c as int, a as int, true),
        decreases c,
    {
        c = c - 1;
    }
    assert(retroceso(s@, b as int, a as int, true) == c as int);
    let recorte = s.substring_char(a, c);
    String::from_str(recorte)
}

/// Las definiciones del catalogo cuyo texto recortado compila.
pub open spec fn catalogo_compilado(primas: Seq<PrimaFuncion>) -> Seq<PrimaFuncion> {
    primas.filter(|p: PrimaFuncion| compila(recortada(p.formula@)))
}

/// Una formula compilada corresponde a una definicion del catalogo: mismo
/// codigo y nombre, texto recortado, y disyuntor habilitado.
pub open spec fn corresponde(f: VistaFormula, p: PrimaFuncion) -> bool {
    &&& f.codigo == p.codigo
    &&& f.nombre == p.nombre
    &&& f.fuente == recortada(p.formula@)
    &&& f.activo
}

/// Mensaje con el que se anota una definicion que no compila.
pub open spec fn mensaje_no_compila(codigo: Seq<char>) -> Seq<char> {
    "Formula '"@ + codigo + "' descartada: no compila"@
}

/// La bitacora tras anotar las definiciones de las primeras `i` filas del
/// catalogo que no compilan.
pub open spec fn avisos_compilacion(b: VistaBitacora, primas: Seq<PrimaFuncion>, i: int)
    -> VistaBitacora
    decreases i,
{
    if i <= 0 {
        b
    } else {
        let previo = avisos_compilacion(b, primas, i - 1);
        let p = primas[i - 1];
        if compila(recortada(p.formula@)) {
            previo
        } else {
            tras_escritura(previo, "ERROR"@, "FORMULA"@, mensaje_no_compila(p.codigo@))
        }
    }
}

fn mensaje_formula(prefijo: &str, codigo: &String, sufijo: &str) -> (r: String)
    ensures
        r@ == prefijo@ + codigo@ + sufijo@,
{
    let mut m = String::from_str(prefijo);
    m.append(codigo.as_str());
    m.append(sufijo);
    m
}

impl SentinelEngine {
    /// Compila el catalogo de formulas, en su orden de declaracion. Una
    /// definicion que no compila se anota en la bitacora y queda fuera de
    /// la corrida; las demas entran con el disyuntor habilitado.
    pub fn new(primas: Vec<PrimaFuncion>, bitacora: &mut Bitacora) -> (r: SentinelEngine)
        ensures
            r.vista().len() == catalogo_compilado(primas@).len(),
            forall|i: int|
                0 <= i < r.vista().len() ==> corresponde(
                    r.vista()[i],
                    catalogo_compilado(primas@)[i],
                ),
            final(bitacora)@ == avisos_compilacion(old(bitacora)@, primas@, primas@.len() as int),
    {
        let engine = crear_motor();
        let mut formulas: Vec<FormulaFnx> = Vec::new();
        let mut i: usize = 0;
        while i < primas.len()
            invariant
                i <= primas.len(),
                vistas_formulas(formulas@).len() == catalogo_compilado(
                    primas@.subrange(0, i as int),
                ).len(),
                forall|j: int|
                    0 <= j < vistas_formulas(formulas@).len() ==> corresponde(
                        vistas_formulas(formulas@)[j],
                        catalogo_compilado(primas@.subrange(0, i as int))[j],
                    ),
                bitacora@ == avisos_compilacion(old(bitacora)@, primas@, i as int),
            decreases primas.len() - i,
        {
            let prima = &primas[i];
            let fuente = recortar_formula(prima.formula.as_str());
            let ghost prefijo = primas@.subrange(0, i as int);
            let ghost prefijo2 = primas@.subrange(0, i + 1 as int);
            let ghost vistas_antes = vistas_formulas(formulas@);
            proof {
                reveal(Seq::filter);
                assert(prefijo2.drop_last() =~= prefijo);
                assert(prefijo2.last() == primas@[i as int]);
            }
            match compilar_formula(&engine, fuente.as_str()) {
                Ok(ast) => {
                    let nueva = FormulaFnx {
                        codigo: prima.codigo.clone(),
                        nombre: prima.nombre.clone(),
                        codigo_rhai: fuente,
                        ast,
                        activo: true,
                    };
                    let ghost vista_nueva = nueva.vista();
                    formulas.push(nueva);
                    proof {
                        assert(vistas_formulas(formulas@) =~= vistas_antes.push(vista_nueva));
                    }
                },
                Err(_) => {
                    let mensaje = mensaje_formula(
                        "Formula '",
                        &prima.codigo,
                        "' descartada: no compila",
                    );
                    log_error(bitacora, "FORMULA", mensaje.as_str());
                },
            }
            i = i + 1;
        }
        proof {
            assert(primas@.subrange(0, primas@.len() as int) =~= primas@);
        }
        SentinelEngine { engine, formulas }
    }
}

/// Valor numerico con el que un resultado entra al ambito: el numero
/// mismo, o cero para un resultado no numerico o fallido.
pub open spec fn valor_de(r: ResultadoEval) -> i64 {
    match r {
        ResultadoEval::Numero(v) => v,
        ResultadoEval::NoNumerico => 0,
        ResultadoEval::Fallo => 0,
    }
}

/// Mensaje con el que se anota el disparo del disyuntor de una formula.
pub open spec fn mensaje_desactivada(codigo: Seq<char>) -> Seq<char> {
    "Formula '"@ + codigo + "' desactivada por error de evaluacion"@
}

/// Estado simbolico de la evaluacion de la cadena de formulas sobre un
/// registro: formulas con sus disyuntores, ambito de variables, resultados
/// acumulados y bitacora.
pub struct EstadoCadena {
    pub formulas: Seq<VistaFormula>,
    pub ambito: Seq<(Seq<char>, i64)>,
    pub resultados: Seq<Calculo>,
    pub bitacora: VistaBitacora,
}

/// Un paso de la cadena: la formula `j` se salta si su disyuntor esta
/// apagado; si no, se evalua, su valor entra al ambito y a los resultados,
/// y un fallo apaga su disyuntor y se anota una sola vez.
pub open spec fn paso_cadena(e: EstadoCadena, j: int) -> EstadoCadena
    recommends
        0 <= j < e.formulas.len(),
{
    let f = e.formulas[j];
    if !f.activo {
        e
    } else {
        let r = evalua(f.fuente, e.ambito);
        let valor = valor_de(r);
        let formulas2 = if r is Fallo {
            e.formulas.update(
                j,
                VistaFormula { codigo: f.codigo, nombre: f.nombre, fuente: f.fuente, activo: false },
            )
        } else {
            e.formulas
        };
        let bitacora2 = if r is Fallo {
            tras_escritura(e.bitacora, "ERROR"@, "FORMULA"@, mensaje_desactivada(f.codigo@))
        } else {
            e.bitacora
        };
        EstadoCadena {
            formulas: formulas2,
            ambito: e.ambito.push((f.codigo@, valor)),
            resultados: e.resultados.push(Calculo { codigo: f.codigo, valor }),
            bitacora: bitacora2,
        }
    }
}

/// Estado de la cadena tras aplicar las primeras `j` formulas.
pub open spec fn cadena_hasta(ini: EstadoCadena, j: int) -> EstadoCadena
    decreases j,
{
    if j <= 0 {
        ini
    } else {
        paso_cadena(cadena_hasta(ini, j - 1), j - 1)
    }
}

/// Ambito con el que empieza cada registro: sus campos numericos bajo los
/// nombres de variable que el contrato de formulas fija.
pub open spec fn ambito_inicial(b: VistaBase) -> Seq<(Seq<char>, i64)> {
    seq![
        ("sueldo_base"@, b.sueldo_base),
        ("antiguedad"@, b.antiguedad as i64),
        ("tiempo_servicio"@, b.antiguedad as i64),
        ("numero_hijos"@, b.n_hijos as i64),
        (
            "st_profesionalizacion"@,
            if b.st_profesion@.len() == 0 {
                0i64
            } else {
                1i64
            },
        ),
        ("no_ascenso"@, b.st_no_ascenso as i64),
        ("grado_id"@, b.grado_id as i64),
        ("antiguedad_grado"@, b.antiguedad_grado as i64),
    ]
}

/// Estado simbolico tras evaluar un prefijo del lote de registros.
pub struct EstadoLote {
    pub formulas: Seq<VistaFormula>,
    pub bitacora: VistaBitacora,
    pub salidas: Seq<(String, Seq<Calculo>)>,
}

/// Cadena con la que empieza un registro dentro del lote.
pub open spec fn inicio_cadena(l: EstadoLote, b: VistaBase) -> EstadoCadena {
    EstadoCadena {
        formulas: l.formulas,
        ambito: ambito_inicial(b),
        resultados: Seq::empty(),
        bitacora: l.bitacora,
    }
}

/// Estado del lote tras evaluar los primeros `k` registros, uno tras otro:
/// los disyuntores disparados por un registro siguen apagados en los
/// siguientes.
pub open spec fn lote_hasta(
    formulas0: Seq<VistaFormula>,
    bitacora0: VistaBitacora,
    registros: Seq<VistaBase>,
    k: int,
) -> EstadoLote
    decreases k,
{
    if k <= 0 {
        EstadoLote { formulas: formulas0, bitacora: bitacora0, salidas: Seq::empty() }
    } else {
        let previo = lote_hasta(formulas0, bitacora0, registros, k - 1);
        let reg = registros[k - 1];
        let fin = cadena_hasta(inicio_cadena(previo, reg), previo.formulas.len() as int);
        EstadoLote {
            formulas: fin.formulas,
            bitacora: fin.bitacora,
            salidas: previo.salidas.push((reg.patterns, fin.resultados)),
        }
    }
}

/// Las salidas ejecutables coinciden con las simbolicas, clave por clave y
/// resultado por resultado.
pub open spec fn salidas_coinciden(
    v: Seq<(String, Vec<Calculo>)>,
    s: Seq<(String, Seq<Calculo>)>,
) -> bool {
    &&& v.len() == s.len()
    &&& forall|i: int| 0 <= i < v.len() ==> (#[trigger] v[i]).0 == s[i].0 && v[i].1@ == s[i].1
}

impl SentinelEngine {
    fn llenar_scope(&self, base: &Base) -> (r: Vec<(String, i64)>)
        ensures
            vista_ambito(r@) == ambito_inicial(base@),
    {
        let mut r: Vec<(String, i64)> = Vec::new();
        r.push((String::from_str("sueldo_base"), base.sueldo_base));
        r.push((String::from_str("antiguedad"), base.antiguedad as i64));
        r.push((String::from_str("tiempo_servicio"), base.antiguedad as i64));
        r.push((String::from_str("numero_hijos"), base.n_hijos as i64));
        let profesion: i64 = if base.st_profesion.as_str().is_empty() {
            0
        } else {
            1
        };
        r.push((String::from_str("st_profesionalizacion"), profesion));
        r.push((String::from_str("no_ascenso"), base.st_no_ascenso as i64));
        r.push((String::from_str("grado_id"), base.grado_id as i64));
        r.push((String::from_str("antiguedad_grado"), base.antiguedad_grado as i64));
        proof {
            assert(vista_ambito(r@) =~= ambito_inicial(base@));
        }
        r
    }

    /// Evalua la cadena completa de formulas sobre cada registro del lote,
    /// registro tras registro y, dentro de cada registro, en el orden de
    /// declaracion del catalogo. Devuelve, por registro, su clave de
    /// enlace y sus resultados.
    pub fn calcular_nomina(&mut self, base: &Vec<Base>, bitacora: &mut Bitacora) -> (r: Vec<
        (String, Vec<Calculo>),
    >)
        ensures
            ({
                let fin = lote_hasta(
                    old(self).vista(),
                    old(bitacora)@,
                    vistas_bases(base@),
                    base@.len() as int,
                );
                &&& final(self).vista() == fin.formulas
                &&& final(bitacora)@ == fin.bitacora
                &&& salidas_coinciden(r@, fin.salidas)
            }),
    {
        let ghost formulas0 = self.vista();
        let ghost bitacora0 = bitacora@;
        let ghost registros = vistas_bases(base@);
        let mut salidas: Vec<(String, Vec<Calculo>)> = Vec::new();
        let n = base.len();
        let mut k: usize = 0;
        while k < n
            invariant
                k <= n,
                n == base@.len(),
                registros == vistas_bases(base@),
                ({
                    let lote = lote_hasta(formulas0, bitacora0, registros, k as int);
                    &&& self.vista() == lote.formulas
                    &&& bitacora@ == lote.bitacora
                    &&& salidas_coinciden(salidas@, lote.salidas)
                }),
            decreases n - k,
        {
            let ghost lote_previo = lote_hasta(formulas0, bitacora0, registros, k as int);
            let reg = &base[k];
            let mut ambito = self.llenar_scope(reg);
            let mut resultados: Vec<Calculo> = Vec::new();
            let ghost ini = inicio_cadena(lote_previo, reg@);
            let nf = self.formulas.len();
            let mut j: usize = 0;
            proof {
                assert(registros[k as int] == reg@);
                assert(cadena_hasta(ini, 0) == ini);
                assert(resultados@ =~= Seq::<Calculo>::empty());
            }
            while j < nf
                invariant
                    j <= nf,
                    nf == ini.formulas.len(),
                    self.formulas@.len() == nf,
                    ({
                        let paso = cadena_hasta(ini, j as int);
                        &&& self.vista() == paso.formulas
                        &&& vista_ambito(ambito@) == paso.ambito
                        &&& resultados@ == paso.resultados
                        &&& bitacora@ == paso.bitacora
                    }),
                decreases nf - j,
            {
                let ghost paso_previo = cadena_hasta(ini, j as int);
                proof {
                    assert(self.vista()[j as int] == self.formulas@[j as int].vista());
                }
                let activo = self.formulas[j].activo;
                if activo {
                    let r = evaluar_formula(&self.engine, &self.formulas[j], &ambito);
                    let valor: i64 = match r {
                        ResultadoEval::Numero(v) => v,
                        ResultadoEval::NoNumerico => 0,
                        ResultadoEval::Fallo => 0,
                    };
                    let codigo = self.formulas[j].codigo.clone();
                    if matches!(r, ResultadoEval::Fallo) {
                        self.formulas[j].activo = false;
                        let mensaje = mensaje_formula(
                            "Formula '",
                            &codigo,
                            "' desactivada por error de evaluacion",
                        );
                        proof {
                            assert(mensaje@ =~= mensaje_desactivada(codigo@));
                        }
                        log_error(bitacora, "FORMULA", mensaje.as_str());
                    }
                    ambito.push((codigo.clone(), valor));
                    resultados.push(Calculo { codigo, valor });
                    proof {
                        let siguiente = cadena_hasta(ini, j + 1 as int);
                        assert(siguiente == paso_cadena(paso_previo, j as int));
                        assert(vista_ambito(ambito@) =~= paso_previo.ambito.push(
                            (paso_previo.formulas[j as int].codigo@, valor),
                        ));
                        assert(self.vista() =~= siguiente.formulas);
                    }
                } else {
                    proof {
                        assert(cadena_hasta(ini, j + 1 as int) == paso_cadena(
                            paso_previo,
                            j as int,
                        ));
                    }
                }
                j = j + 1;
            }
            salidas.push((reg.patterns.clone(), resultados));
            proof {
                let lote_nuevo = lote_hasta(formulas0, bitacora0, registros, k + 1 as int);
                let fin = cadena_hasta(ini, ini.formulas.len() as int);
                assert(registros[k as int] == reg@);
                assert(lote_nuevo.salidas == lote_previo.salidas.push((reg.patterns, fin.resultados)));
                assert(salidas_coinciden(salidas@, lote_nuevo.salidas));
            }
            k = k + 1;
        }
        salidas
    }
}

/// Los codigos del catalogo compilado son distintos entre si.
pub open spec fn codigos_distintos(formulas: Seq<VistaFormula>) -> bool {
    forall|a: int, b: int|
        0 <= a < b < formulas.len() ==> (#[trigger] formulas[a].codigo@) != (#[trigger] formulas[b].codigo@)
}

/// Una evolucion de la cadena conserva cada formula salvo su disyuntor,
/// que solo puede apagarse.
pub open spec fn conserva_formulas(antes: Seq<VistaFormula>, despues: Seq<VistaFormula>) -> bool {
    &&& despues.len() == antes.len()
    &&& forall|m: int|
        0 <= m < antes.len() ==> {
            let a = antes[m];
            let d = #[trigger] despues[m];
            &&& d.codigo == a.codigo
            &&& d.nombre == a.nombre
            &&& d.fuente == a.fuente
            &&& (d.activo ==> a.activo)
        }
}

proof fn lema_cadena_conserva(ini: EstadoCadena, j: int)
    requires
        0 <= j <= ini.formulas.len(),
    ensures
        conserva_formulas(ini.formulas, cadena_hasta(ini, j).formulas),
        forall|m: int|
            j <= m < ini.formulas.len() ==> (#[trigger] cadena_hasta(ini, j).formulas[m])
                == ini.formulas[m],
    decreases j,
{
    if j > 0 {
        lema_cadena_conserva(ini, j - 1);
    }
}

proof fn lema_valor_push(calculos: Seq<Calculo>, c: Calculo, codigo: Seq<char>)
    ensures
        valor_calculo(calculos.push(c), codigo) == if c.codigo@ == codigo {
            c.valor
        } else {
            valor_calculo(calculos, codigo)
        },
{
    assert(calculos.push(c).drop_last() =~= calculos);
    assert(calculos.push(c).last() == c);
}

/// Desde un estado en que la formula `m` ya esta apagada, el resto de la
/// cadena la deja apagada y no le anota resultado.
proof fn lema_cadena_inactiva_desde(ini: EstadoCadena, m: int, t0: int, l: int)
    requires
        0 <= m < ini.formulas.len(),
        0 <= t0 <= l <= ini.formulas.len(),
        codigos_distintos(ini.formulas),
        !cadena_hasta(ini, t0).formulas[m].activo,
    ensures
        !cadena_hasta(ini, l).formulas[m].activo,
        valor_calculo(cadena_hasta(ini, l).resultados, ini.formulas[m].codigo@) == valor_calculo(
            cadena_hasta(ini, t0).resultados,
            ini.formulas[m].codigo@,
        ),
    decreases l - t0,
{
    if l > t0 {
        lema_cadena_inactiva_desde(ini, m, t0, l - 1);
        let previo = cadena_hasta(ini, l - 1);
        let i = l - 1;
        lema_cadena_conserva(ini, i);
        if previo.formulas[i].activo {
            assert(i != m);
            assert(previo.formulas[i].codigo == ini.formulas[i].codigo);
            let r = evalua(previo.formulas[i].fuente, previo.ambito);
            lema_valor_push(
                previo.resultados,
                Calculo { codigo: previo.formulas[i].codigo, valor: valor_de(r) },
                ini.formulas[m].codigo@,
            );
        }
    }
}

/// Si la formula `j` llega activa a su turno y su evaluacion falla, al
/// final de la cadena queda apagada y su resultado anotado es cero.
proof fn lema_cadena_dispara(ini: EstadoCadena, j: int, l: int)
    requires
        0 <= j < ini.formulas.len(),
        j < l <= ini.formulas.len(),
        codigos_distintos(ini.formulas),
        ini.formulas[j].activo,
        evalua(ini.formulas[j].fuente, cadena_hasta(ini, j).ambito) is Fallo,
    ensures
        !cadena_hasta(ini, l).formulas[j].activo,
        valor_calculo(cadena_hasta(ini, l).resultados, ini.formulas[j].codigo@) == 0,
{
    let antes = cadena_hasta(ini, j);
    lema_cadena_conserva(ini, j);
    assert(antes.formulas[j] == ini.formulas[j]);
    let despues = cadena_hasta(ini, j + 1);
    assert(despues == paso_cadena(antes, j));
    lema_valor_push(
        antes.resultados,
        Calculo { codigo: antes.formulas[j].codigo, valor: 0 },
        ini.formulas[j].codigo@,
    );
    assert(!despues.formulas[j].activo);
    assert(valor_calculo(despues.resultados, ini.formulas[j].codigo@) == 0);
    lema_cadena_inactiva_desde(ini, j, j + 1, l);
}

proof fn lema_ambito_crece(ini: EstadoCadena, t0: int, l: int, x: (Seq<char>, i64))
    requires
        0 <= t0 <= l <= ini.formulas.len(),
        cadena_hasta(ini, t0).ambito.contains(x),
    ensures
        cadena_hasta(ini, l).ambito.contains(x),
    decreases l - t0,
{
    if l > t0 {
        lema_ambito_crece(ini, t0, l - 1, x);
        let previo = cadena_hasta(ini, l - 1);
        if previo.formulas[l - 1].activo {
            let a = previo.ambito;
            let i = choose|i: int| 0 <= i < a.len() && a[i] == x;
            let f = previo.formulas[l - 1];
            let r = evalua(f.fuente, a);
            assert(a.push((f.codigo@, valor_de(r)))[i] == x);
        }
    }
}

/// Ley del orden de declaracion: una formula activa deja, en su turno, su
/// valor en el ambito bajo su propio codigo, y el ambito de toda formula
/// posterior de la cadena lo conserva; asi una formula puede referirse por
/// nombre al resultado de cualquiera declarada antes.
pub proof fn lema_orden_declaracion(ini: EstadoCadena, j: int, l: int)
    requires
        0 <= j < l <= ini.formulas.len(),
        ini.formulas[j].activo,
    ensures
        ({
            let en_j = cadena_hasta(ini, j);
            let valor = valor_de(evalua(ini.formulas[j].fuente, en_j.ambito));
            cadena_hasta(ini, l).ambito.contains((ini.formulas[j].codigo@, valor))
        }),
{
    lema_cadena_conserva(ini, j);
    let en_j = cadena_hasta(ini, j);
    assert(en_j.formulas[j] == ini.formulas[j]);
    let tras = cadena_hasta(ini, j + 1);
    assert(tras == paso_cadena(en_j, j));
    let valor = valor_de(evalua(ini.formulas[j].fuente, en_j.ambito));
    let x = (ini.formulas[j].codigo@, valor);
    assert(tras.ambito[tras.ambito.len() - 1] == x);
    assert(tras.ambito.contains(x));
    lema_ambito_crece(ini, j + 1, l, x);
}

proof fn lema_lote_conserva(
    formulas0: Seq<VistaFormula>,
    bitacora0: VistaBitacora,
    registros: Seq<VistaBase>,
    k: int,
)
    requires
        0 <= k <= registros.len(),
    ensures
        conserva_formulas(formulas0, lote_hasta(formulas0, bitacora0, registros, k).formulas),
        lote_hasta(formulas0, bitacora0, registros, k).salidas.len() == k,
        forall|t: int|
            0 <= t < k ==> (#[trigger] lote_hasta(formulas0, bitacora0, registros, k).salidas[t])
                == lote_hasta(formulas0, bitacora0, registros, t + 1).salidas[t],
    decreases k,
{
    if k > 0 {
        lema_lote_conserva(formulas0, bitacora0, registros, k - 1);
        let previo = lote_hasta(formulas0, bitacora0, registros, k - 1);
        let ini = inicio_cadena(previo, registros[k - 1]);
        lema_cadena_conserva(ini, previo.formulas.len() as int);
    }
}

/// Ley del disyuntor: si la evaluacion de la formula `j` falla en el
/// primer registro del lote, la formula queda apagada para todos los
/// registros evaluados despues en la misma corrida, y su resultado anotado
/// es cero en todos los registros, incluido el que disparo el fallo.
pub proof fn lema_disyuntor(
    formulas0: Seq<VistaFormula>,
    bitacora0: VistaBitacora,
    registros: Seq<VistaBase>,
    j: int,
)
    requires
        0 <= j < formulas0.len(),
        registros.len() >= 1,
        codigos_distintos(formulas0),
        formulas0[j].activo,
        ({
            let ini0 = inicio_cadena(
                lote_hasta(formulas0, bitacora0, registros, 0),
                registros[0],
            );
            evalua(formulas0[j].fuente, cadena_hasta(ini0, j).ambito) is Fallo
        }),
    ensures
        forall|k: int|
            1 <= k <= registros.len() ==> !(#[trigger] lote_hasta(
                formulas0,
                bitacora0,
                registros,
                k,
            )).formulas[j].activo,
        forall|t: int|
            0 <= t < registros.len() ==> valor_calculo(
                (#[trigger] lote_hasta(
                    formulas0,
                    bitacora0,
                    registros,
                    registros.len() as int,
                ).salidas[t]).1,
                formulas0[j].codigo@,
            ) == 0,
{
    let largo = formulas0.len() as int;
    let lote0 = lote_hasta(formulas0, bitacora0, registros, 0);
    let ini0 = inicio_cadena(lote0, registros[0]);
    lema_cadena_dispara(ini0, j, largo);
    let lote1 = lote_hasta(formulas0, bitacora0, registros, 1);
    assert(!lote1.formulas[j].activo);
    assert(valor_calculo(lote1.salidas[0].1, formulas0[j].codigo@) == 0);
    assert forall|k: int| 1 <= k <= registros.len() implies !(#[trigger] lote_hasta(
        formulas0,
        bitacora0,
        registros,
        k,
    )).formulas[j].activo by {
        lema_disyuntor_desde(formulas0, bitacora0, registros, j, k);
    }
    let total = registros.len() as int;
    let fin = lote_hasta(formulas0, bitacora0, registros, total);
    lema_lote_conserva(formulas0, bitacora0, registros, total);
    assert forall|t: int| 0 <= t < registros.len() implies valor_calculo(
        (#[trigger] fin.salidas[t]).1,
        formulas0[j].codigo@,
    ) == 0 by {
        assert(fin.salidas[t] == lote_hasta(formulas0, bitacora0, registros, t + 1).salidas[t]);
        if t == 0 {
            assert(valor_calculo(lote1.salidas[0].1, formulas0[j].codigo@) == 0);
        } else {
            lema_disyuntor_desde(formulas0, bitacora0, registros, j, t);
            lema_registro_apagado(formulas0, bitacora0, registros, j, t);
        }
    }
}

/// Con el disyuntor de `j` apagado tras el primer registro, sigue apagado
/// tras los primeros `k` registros.
proof fn lema_disyuntor_desde(
    formulas0: Seq<VistaFormula>,
    bitacora0: VistaBitacora,
    registros: Seq<VistaBase>,
    j: int,
    k: int,
)
    requires
        0 <= j < formulas0.len(),
        1 <= k <= registros.len(),
        codigos_distintos(formulas0),
        !lote_hasta(formulas0, bitacora0, registros, 1).formulas[j].activo,
    ensures
        !lote_hasta(formulas0, bitacora0, registros, k).formulas[j].activo,
    decreases k,
{
    if k > 1 {
        lema_disyuntor_desde(formulas0, bitacora0, registros, j, k - 1);
        let previo = lote_hasta(formulas0, bitacora0, registros, k - 1);
        lema_lote_conserva(formulas0, bitacora0, registros, k - 1);
        let ini = inicio_cadena(previo, registros[k - 1]);
        lema_cadena_conserva(ini, previo.formulas.len() as int);
    }
}

/// Un registro que empieza con el disyuntor de `j` apagado no anota
/// resultado para su codigo: su valor leido es cero.
proof fn lema_registro_apagado(
    formulas0: Seq<VistaFormula>,
    bitacora0: VistaBitacora,
    registros: Seq<VistaBase>,
    j: int,
    t: int,
)
    requires
        0 <= j < formulas0.len(),
        1 <= t < registros.len(),
        codigos_distintos(formulas0),
        !lote_hasta(formulas0, bitacora0, registros, t).formulas[j].activo,
    ensures
        valor_calculo(
            lote_hasta(formulas0, bitacora0, registros, t + 1).salidas[t].1,
            formulas0[j].codigo@,
        ) == 0,
{
    let previo = lote_hasta(formulas0, bitacora0, registros, t);
    lema_lote_conserva(formulas0, bitacora0, registros, t);
    let ini = inicio_cadena(previo, registros[t]);
    assert(codigos_distintos(ini.formulas));
    assert(ini.formulas[j].codigo == formulas0[j].codigo);
    assert(cadena_hasta(ini, 0) == ini);
    lema_cadena_inactiva_desde(ini, j, 0, ini.formulas.len() as int);
}

} // verus!
