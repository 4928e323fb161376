//! Tipos de datos compartidos: hermanos, familias y cuotas.

use vstd::prelude::*;

verus! {

/// Copia un texto opcional campo a campo.
pub fn copiar_texto_opcional(o: &Option<String>) -> (r: Option<String>)
    ensures
        r == *o,
{
    match o {
        Some(s) => Some(s.clone()),
        None => None,
    }
}

/// Un hermano de la hermandad (una fila de la tabla `hermanos`).
#[derive(Debug)]
pub struct Hermano {
    pub id: Option<i32>,
    pub numero_hermano: String,
    pub nombre: String,
    pub primer_apellido: String,
    pub segundo_apellido: Option<String>,
    pub dni: Option<String>,
    pub fecha_nacimiento: Option<String>,
    pub localidad_nacimiento: Option<String>,
    pub provincia_nacimiento: Option<String>,
    pub fecha_alta: String,
    pub familia_id: Option<i32>,
    pub telefono: Option<String>,
    pub email: Option<String>,
    pub direccion: Option<String>,
    pub localidad: Option<String>,
    pub provincia: Option<String>,
    pub codigo_postal: Option<String>,
    pub parroquia_bautismo: Option<String>,
    pub localidad_bautismo: Option<String>,
    pub provincia_bautismo: Option<String>,
    pub autorizacion_menores: bool,
    pub nombre_representante_legal: Option<String>,
    pub dni_representante_legal: Option<String>,
    pub hermano_aval_1: Option<String>,
    pub hermano_aval_2: Option<String>,
    pub activo: bool,
    pub fecha_baja: Option<String>,
    pub observaciones: Option<String>,
    pub created_at: Option<String>,
    pub updated_at: Option<String>,
}

impl Hermano {
    /// Copia exacta del hermano.
    pub fn copia(&self) -> (r: Hermano)
        ensures
            r == *self,
    {
        Hermano {
            id: self.id,
            numero_hermano: self.numero_hermano.clone(),
            nombre: self.nombre.clone(),
            primer_apellido: self.primer_apellido.clone(),
            segundo_apellido: copiar_texto_opcional(&self.segundo_apellido),
            dni: copiar_texto_opcional(&self.dni),
            fecha_nacimiento: copiar_texto_opcional(&self.fecha_nacimiento),
            localidad_nacimiento: copiar_texto_opcional(&self.localidad_nacimiento),
            provincia_nacimiento: copiar_texto_opcional(&self.provincia_nacimiento),
            fecha_alta: self.fecha_alta.clone(),
            familia_id: self.familia_id,
            telefono: copiar_texto_opcional(&self.telefono),
            email: copiar_texto_opcional(&self.email),
            direccion: copiar_texto_opcional(&self.direccion),
            localidad: copiar_texto_opcional(&self.localidad),
            provincia: copiar_texto_opcional(&self.provincia),
            codigo_postal: copiar_texto_opcional(&self.codigo_postal),
            parroquia_bautismo: copiar_texto_opcional(&self.parroquia_bautismo),
            localidad_bautismo: copiar_texto_opcional(&self.localidad_bautismo),
            provincia_bautismo: copiar_texto_opcional(&self.provincia_bautismo),
            autorizacion_menores: self.autorizacion_menores,
            nombre_representante_legal: copiar_texto_opcional(&self.nombre_representante_legal),
            dni_representante_legal: copiar_texto_opcional(&self.dni_representante_legal),
            hermano_aval_1: copiar_texto_opcional(&self.hermano_aval_1),
            hermano_aval_2: copiar_texto_opcional(&self.hermano_aval_2),
            activo: self.activo,
            fecha_baja: copiar_texto_opcional(&self.fecha_baja),
            observaciones: copiar_texto_opcional(&self.observaciones),
            created_at: copiar_texto_opcional(&self.created_at),
            updated_at: copiar_texto_opcional(&self.updated_at),
        }
    }
}


/// Una familia: agrupa hermanos que comparten domicilio.
#[derive(Debug)]
pub struct Familia {
    pub id: Option<i32>,
    pub nombre_familia: String,
    pub hermano_direccion_id: Option<i32>,
    pub created_at: Option<String>,
    pub updated_at: Option<String>,
}

impl Familia {
    /// Copia exacta de la familia.
    pub fn copia(&self) -> (r: Familia)
        ensures
            r == *self,
    {
        Familia {
            id: self.id,
            nombre_familia: self.nombre_familia.clone(),
            hermano_direccion_id: self.hermano_direccion_id,
            created_at: copiar_texto_opcional(&self.created_at),
            updated_at: copiar_texto_opcional(&self.updated_at),
        }
    }
}

impl Default for Familia {
    /// Familia vacía: sin id, con nombre vacío y sin hermano de referencia.
    fn default() -> (r: Familia)
        ensures
            r.id is None,
            r.nombre_familia@ == Seq::<char>::empty(),
            r.hermano_direccion_id is None,
            r.created_at is None,
            r.updated_at is None,
    {
        Familia {
            id: None,
            nombre_familia: String::new(),
            hermano_direccion_id: None,
            created_at: None,
            updated_at: None,
        }
    }
}

/// La cuota anual de un hermano. El importe se guarda en céntimos de euro.
#[derive(Debug)]
pub struct Cuota {
    pub id: Option<i32>,
    pub hermano_id: i32,
    pub anio: i32,
    pub importe_centimos: i64,
    pub pagado: bool,
    pub fecha_pago: Option<String>,
    pub metodo_pago: Option<String>,
    pub observaciones: Option<String>,
    pub recibo: bool,
    pub created_at: Option<String>,
    pub updated_at: Option<String>,
}

impl Cuota {
    /// Copia exacta de la cuota.
    pub fn copia(&self) -> (r: Cuota)
        ensures
            r == *self,
    {
        Cuota {
            id: self.id,
            hermano_id: self.hermano_id,
            anio: self.anio,
            importe_centimos: self.importe_centimos,
            pagado: self.pagado,
            fecha_pago: copiar_texto_opcional(&self.fecha_pago),
            metodo_pago: copiar_texto_opcional(&self.metodo_pago),
            observaciones: copiar_texto_opcional(&self.observaciones),
            recibo: self.recibo,
            created_at: copiar_texto_opcional(&self.created_at),
            updated_at: copiar_texto_opcional(&self.updated_at),
        }
    }
}

/// Resumen de cobro de cuotas (de un año o de todos).
#[derive(Debug)]
pub struct EstadisticasCuotas {
    /// Suma, en céntimos, de los importes de las cuotas pagadas.
    pub total_recaudado_centimos: i128,
    pub cuotas_pendientes: i32,
    pub cuotas_pagadas: i32,
    pub hermanos_al_dia: i32,
    pub hermanos_morosos: i32,
}

/// Si al arrancar hubo que recuperar la base de datos, y si se hizo desde una copia.
#[derive(Debug, Clone, Copy, PartialEq, Eq)]
pub struct DbRecoveryStatus {
    pub recovered: bool,
    pub had_backup: bool,
}

/// Alta de un hermano que, opcionalmente, crea a la vez una familia nueva.
#[derive(Debug)]
pub struct HermanoConFamiliaData {
    pub hermano: Hermano,
    pub nueva_familia_nombre: Option<String>,
}

} // verus!
