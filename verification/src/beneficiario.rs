//! Modelo de dominio del beneficiario principal: estatus, datos de
//! carrera, hoja de tiempo y hoja financiera.

use vstd::prelude::*;
use crate::componente::Componente;
use crate::fecha::Fecha;
use crate::grado::Grado;

verus! {

/// Estatus del beneficiario segun las reglas de negocio.
#[derive(Debug, Clone, Copy, PartialEq, Eq, Structural)]
pub enum Estatus {
    Activo,
    Retirado,
    Fallecido,
    RetiroConPension,
    RetiroSinPension,
    Paralizado,
}

impl Estatus {
    /// Codigo numerico heredado del estatus.
    pub open spec fn espec_codigo(self) -> u32 {
        match self {
            Estatus::Activo => 201,
            Estatus::Retirado => 202,
            Estatus::Fallecido => 203,
            Estatus::RetiroConPension => 204,
            Estatus::RetiroSinPension => 205,
            Estatus::Paralizado => 206,
        }
    }

    /// Codigo numerico heredado del estatus.
    pub fn codigo(&self) -> (r: u32)
        ensures
            r == self.espec_codigo(),
    {
        match self {
            Estatus::Activo => 201,
            Estatus::Retirado => 202,
            Estatus::Fallecido => 203,
            Estatus::RetiroConPension => 204,
            Estatus::RetiroSinPension => 205,
            Estatus::Paralizado => 206,
        }
    }
}

/// Sexo registrado del beneficiario.
#[derive(Debug, Clone, Copy, PartialEq, Eq, Structural)]
pub enum Sexo {
    Mm,
    Ff,
}

/// Estado civil registrado del beneficiario.
#[derive(Debug, Clone, Copy, PartialEq, Eq, Structural)]
pub enum EstadoCivil {
    Soltero,
    Casado,
    Divorciado,
    Viudo,
    Concubino,
    Otro,
}

/// Fechas criticas de la carrera y tiempos reconocidos y calculados.
#[derive(Debug, Clone, Copy, PartialEq, Eq, Structural)]
pub struct HojaDeTiempo {
    pub fecha_ingreso: Fecha,
    pub fecha_ingreso_sistema: Fecha,
    pub fecha_ultimo_ascenso: Fecha,
    pub fecha_retiro: Option<Fecha>,
    pub fecha_retiro_efectiva: Option<Fecha>,
    pub fecha_reincorporacion: Option<Fecha>,
    pub anos_reconocidos: u32,
    pub meses_reconocidos: u32,
    pub dias_reconocidos: u32,
    pub tiempo_servicio: u32,
    pub antiguedad_grado: u32,
}

/// Datos bancarios y variables monetarias, en centimos.
#[derive(Debug, PartialEq, Eq)]
pub struct HojaFinanciera {
    pub numero_cuenta: String,
    pub sueldo_base: i64,
    pub sueldo_global: i64,
    pub sueldo_integral: i64,
    pub aguinaldos: i64,
    pub vacaciones: i64,
    pub prima_t_servicio: i64,
    pub prima_no_ascenso: i64,
    pub prima_especial: i64,
    pub prima_profesionalizacion: i64,
    pub asignacion_antiguedad: i64,
    pub no_depositado_banco: i64,
}

/// El beneficiario principal del sistema.
#[derive(Debug, PartialEq, Eq)]
pub struct Beneficiario {
    pub id: String,
    pub cedula: String,
    pub nombres: String,
    pub apellidos: String,
    pub sexo: Sexo,
    pub estado_civil: EstadoCivil,
    pub numero_hijos: u32,
    pub componente: Componente,
    pub grado: Grado,
    pub estatus: Estatus,
    pub estatus_descripcion: Option<String>,
    pub st_no_ascenso: bool,
    pub st_profesionalizacion: bool,
    pub tiempo: HojaDeTiempo,
    pub financiera: HojaFinanciera,
    pub usuario_creador: String,
    pub fecha_creacion: Fecha,
    pub usuario_modificacion: Option<String>,
    pub fecha_ultima_modificacion: Option<Fecha>,
    pub observacion: Option<String>,
    pub motivo_paralizacion: Option<String>,
}

impl Beneficiario {
    /// Nombre y apellido, separados por un espacio.
    pub fn nombre_completo(&self) -> (r: String)
        ensures
            r@ == self.nombres@ + " "@ + self.apellidos@,
    {
        let mut r = self.nombres.clone();
        r.append(" ");
        r.append(self.apellidos.as_str());
        r
    }

    /// El beneficiario entra en la nomina: activo o paralizado.
    pub fn en_nomina(&self) -> (r: bool)
        ensures
            r == (self.estatus is Activo || self.estatus is Paralizado),
    {
        match self.estatus {
            Estatus::Activo => true,
            Estatus::Paralizado => true,
            _ => false,
        }
    }
}

} // verus!
