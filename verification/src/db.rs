//! El almacén de datos de la hermandad: las tablas `hermanos`, `familias` y
//! `cuotas` con sus restricciones (claves únicas, claves ajenas, borrado en
//! cascada) y la configuración de recibos.

use vstd::prelude::*;
use crate::modelo::{Hermano, Familia, Cuota, EstadisticasCuotas, HermanoConFamiliaData};
use crate::recibos::ConfiguracionRecibo;
use crate::texto::{contiene_plegado, contiene_sin_mayusculas};

verus! {

/// Motivos por los que el almacén rechaza una operación.
#[derive(Debug, Clone, Copy, PartialEq, Eq)]
pub enum DbError {
    /// Ya hay un hermano con ese número.
    NumeroHermanoDuplicado,
    /// Ya hay un hermano con ese DNI.
    DniDuplicado,
    /// Ya hay una familia con ese nombre.
    NombreFamiliaDuplicado,
    /// El hermano ya tiene cuota para ese año.
    CuotaDuplicada,
    /// La familia indicada no existe.
    FamiliaNoExiste,
    /// El hermano indicado no existe.
    HermanoNoExiste,
    /// La familia aún tiene hermanos activos.
    FamiliaConHermanosActivos,
    /// La cuota pedida no existe.
    CuotaNoExiste,
    /// No quedan identificadores libres en la tabla.
    IdsAgotados,
    /// Un hermano inactivo necesita fecha de baja.
    FechaBajaObligatoria,
}

impl DbError {
    /// Texto del error, con las palabras con las que SQLite informa de la
    /// restricción que se incumple.
    pub open spec fn descripcion_de(self) -> Seq<char> {
        match self {
            DbError::NumeroHermanoDuplicado => "UNIQUE constraint failed: hermanos.numero_hermano"@,
            DbError::DniDuplicado => "UNIQUE constraint failed: hermanos.dni"@,
            DbError::NombreFamiliaDuplicado => "UNIQUE constraint failed: familias.nombre_familia"@,
            DbError::CuotaDuplicada => "UNIQUE constraint failed: cuotas.hermano_id, cuotas.anio"@,
            DbError::FamiliaNoExiste => "FOREIGN KEY constraint failed"@,
            DbError::HermanoNoExiste => "FOREIGN KEY constraint failed"@,
            DbError::FamiliaConHermanosActivos => "No se puede eliminar una familia con hermanos activos"@,
            DbError::CuotaNoExiste => "Query returned no rows"@,
            DbError::IdsAgotados => "database or disk is full"@,
            DbError::FechaBajaObligatoria => "La fecha de baja es obligatoria para los hermanos inactivos"@,
        }
    }

    /// Texto del error.
    pub fn descripcion(&self) -> (r: String)
        ensures
            r@ == self.descripcion_de(),
    {
        match self {
            DbError::NumeroHermanoDuplicado => String::from_str("UNIQUE constraint failed: hermanos.numero_hermano"),
            DbError::DniDuplicado => String::from_str("UNIQUE constraint failed: hermanos.dni"),
            DbError::NombreFamiliaDuplicado => String::from_str("UNIQUE constraint failed: familias.nombre_familia"),
            DbError::CuotaDuplicada => String::from_str("UNIQUE constraint failed: cuotas.hermano_id, cuotas.anio"),
            DbError::FamiliaNoExiste => String::from_str("FOREIGN KEY constraint failed"),
            DbError::HermanoNoExiste => String::from_str("FOREIGN KEY constraint failed"),
            DbError::FamiliaConHermanosActivos => String::from_str("No se puede eliminar una familia con hermanos activos"),
            DbError::CuotaNoExiste => String::from_str("Query returned no rows"),
            DbError::IdsAgotados => String::from_str("database or disk is full"),
            DbError::FechaBajaObligatoria => String::from_str("La fecha de baja es obligatoria para los hermanos inactivos"),
        }
    }
}

// ---------------------------------------------------------------------------
// Predicados sobre las tablas
// ---------------------------------------------------------------------------

/// Ids presentes, positivos, menores que el siguiente a asignar, y en orden creciente.
pub open spec fn ids_hermanos_ok(s: Seq<Hermano>, sig: i32) -> bool {
    &&& s.len() < sig
    &&& forall|i: int| 0 <= i < s.len() ==> (#[trigger] s[i]).id is Some && 0 < s[i].id.unwrap() < sig
    &&& forall|i: int, j: int| #![trigger s[i], s[j]] 0 <= i < j < s.len() ==> s[i].id.unwrap() < s[j].id.unwrap()
}

pub open spec fn ids_familias_ok(s: Seq<Familia>, sig: i32) -> bool {
    &&& s.len() < sig
    &&& forall|i: int| 0 <= i < s.len() ==> (#[trigger] s[i]).id is Some && 0 < s[i].id.unwrap() < sig
    &&& forall|i: int, j: int| #![trigger s[i], s[j]] 0 <= i < j < s.len() ==> s[i].id.unwrap() < s[j].id.unwrap()
}

pub open spec fn ids_cuotas_ok(s: Seq<Cuota>, sig: i32) -> bool {
    &&& s.len() < sig
    &&& forall|i: int| 0 <= i < s.len() ==> (#[trigger] s[i]).id is Some && 0 < s[i].id.unwrap() < sig
    &&& forall|i: int, j: int| #![trigger s[i], s[j]] 0 <= i < j < s.len() ==> s[i].id.unwrap() < s[j].id.unwrap()
}

/// Tabla de hermanos bien formada: ids correctos y números únicos. (Que no
/// se repita el DNI se comprueba en cada alta y modificación, pero no se exige
/// a las filas ya guardadas: el esquema de la base no lo impone.)
pub open spec fn tabla_hermanos_ok(hs: Seq<Hermano>, sig: i32) -> bool {
    &&& ids_hermanos_ok(hs, sig)
    &&& forall|i: int, j: int| #![trigger hs[i], hs[j]]
        0 <= i < j < hs.len() ==> hs[i].numero_hermano@ != hs[j].numero_hermano@
}

/// Tabla de familias bien formada: ids correctos y nombres únicos.
pub open spec fn tabla_familias_ok(fs: Seq<Familia>, sig: i32) -> bool {
    &&& ids_familias_ok(fs, sig)
    &&& forall|i: int, j: int| #![trigger fs[i], fs[j]]
        0 <= i < j < fs.len() ==> fs[i].nombre_familia@ != fs[j].nombre_familia@
}

/// Tabla de cuotas bien formada: ids correctos y una cuota por hermano y año.
pub open spec fn tabla_cuotas_ok(cs: Seq<Cuota>, sig: i32) -> bool {
    &&& ids_cuotas_ok(cs, sig)
    &&& forall|i: int, j: int| #![trigger cs[i], cs[j]]
        0 <= i < j < cs.len() ==> !(cs[i].hermano_id == cs[j].hermano_id && cs[i].anio == cs[j].anio)
}

/// Todo hermano con familia apunta a una familia existente.
pub open spec fn refs_familia_ok(hs: Seq<Hermano>, fs: Seq<Familia>) -> bool {
    forall|i: int| 0 <= i < hs.len() ==> familia_valida(fs, (#[trigger] hs[i]).familia_id)
}

/// Toda cuota apunta a un hermano existente.
pub open spec fn refs_hermano_ok(cs: Seq<Cuota>, hs: Seq<Hermano>) -> bool {
    forall|i: int| 0 <= i < cs.len() ==> existe_hermano(hs, (#[trigger] cs[i]).hermano_id)
}

/// `r` es la subsecuencia de `s` formada por las posiciones crecientes `idx`.
pub open spec fn es_subsecuencia<A>(r: Seq<A>, s: Seq<A>, idx: Seq<int>) -> bool {
    &&& idx.len() == r.len()
    &&& r.len() <= s.len()
    &&& forall|a: int| 0 <= a < r.len() ==> 0 <= #[trigger] idx[a] < s.len() && r[a] == s[idx[a]]
    &&& forall|a: int, b: int| 0 <= a < b < r.len() ==> #[trigger] idx[a] < #[trigger] idx[b]
}

/// Filtrar una secuencia conserva el orden relativo de lo que queda.
proof fn lema_filtro_subsecuencia<A>(s: Seq<A>, p: spec_fn(A) -> bool) -> (idx: Seq<int>)
    ensures
        es_subsecuencia(s.filter(p), s, idx),
    decreases s.len(),
{
    reveal_with_fuel(Seq::filter, 1);
    if s.len() == 0 {
        Seq::empty()
    } else {
        let idx0 = lema_filtro_subsecuencia(s.drop_last(), p);
        let r0 = s.drop_last().filter(p);
        if p(s.last()) {
            let idx = idx0.push(s.len() - 1);
            let r = r0.push(s.last());
            assert forall|a: int| 0 <= a < r.len() implies 0 <= #[trigger] idx[a] < s.len() && r[a] == s[idx[a]] by {
                if a < r0.len() {
                    assert(r[a] == r0[a]);
                    assert(idx[a] == idx0[a]);
                }
            }
            idx
        } else {
            idx0
        }
    }
}

proof fn lema_subsecuencia_hermanos(r: Seq<Hermano>, s: Seq<Hermano>, idx: Seq<int>, sig: i32)
    requires
        tabla_hermanos_ok(s, sig),
        es_subsecuencia(r, s, idx),
    ensures
        tabla_hermanos_ok(r, sig),
{
    assert forall|a: int| 0 <= a < r.len() implies (#[trigger] r[a]).id is Some && 0 < r[a].id.unwrap() < sig by {
        assert(r[a] == s[idx[a]]);
    }
    assert forall|a: int, b: int| #![trigger r[a], r[b]] 0 <= a < b < r.len() implies r[a].id.unwrap() < r[b].id.unwrap()
        && r[a].numero_hermano@ != r[b].numero_hermano@ by {
        assert(idx[a] < idx[b]);
        assert(r[a] == s[idx[a]]);
        assert(r[b] == s[idx[b]]);
    }
}

proof fn lema_subsecuencia_familias(r: Seq<Familia>, s: Seq<Familia>, idx: Seq<int>, sig: i32)
    requires
        tabla_familias_ok(s, sig),
        es_subsecuencia(r, s, idx),
    ensures
        tabla_familias_ok(r, sig),
{
    assert forall|a: int| 0 <= a < r.len() implies (#[trigger] r[a]).id is Some && 0 < r[a].id.unwrap() < sig by {
        assert(r[a] == s[idx[a]]);
    }
    assert forall|a: int, b: int| #![trigger r[a], r[b]] 0 <= a < b < r.len() implies r[a].id.unwrap() < r[b].id.unwrap()
        && r[a].nombre_familia@ != r[b].nombre_familia@ by {
        assert(idx[a] < idx[b]);
        assert(r[a] == s[idx[a]]);
        assert(r[b] == s[idx[b]]);
    }
}

proof fn lema_subsecuencia_cuotas(r: Seq<Cuota>, s: Seq<Cuota>, idx: Seq<int>, sig: i32)
    requires
        tabla_cuotas_ok(s, sig),
        es_subsecuencia(r, s, idx),
    ensures
        tabla_cuotas_ok(r, sig),
{
    assert forall|a: int| 0 <= a < r.len() implies (#[trigger] r[a]).id is Some && 0 < r[a].id.unwrap() < sig by {
        assert(r[a] == s[idx[a]]);
    }
    assert forall|a: int, b: int| #![trigger r[a], r[b]] 0 <= a < b < r.len() implies r[a].id.unwrap() < r[b].id.unwrap()
        && !(r[a].hermano_id == r[b].hermano_id && r[a].anio == r[b].anio) by {
        assert(idx[a] < idx[b]);
        assert(r[a] == s[idx[a]]);
        assert(r[b] == s[idx[b]]);
    }
}

/// Hay un hermano con ese id.
pub open spec fn existe_hermano(s: Seq<Hermano>, id: i32) -> bool {
    exists|k: int| 0 <= k < s.len() && (#[trigger] s[k]).id == Some(id)
}

/// Hay una familia con ese id.
pub open spec fn existe_familia(s: Seq<Familia>, id: i32) -> bool {
    exists|k: int| 0 <= k < s.len() && (#[trigger] s[k]).id == Some(id)
}

/// Hay una cuota con ese id.
pub open spec fn existe_cuota(s: Seq<Cuota>, id: i32) -> bool {
    exists|k: int| 0 <= k < s.len() && (#[trigger] s[k]).id == Some(id)
}

/// Otro hermano (con id distinto de `excepto`) usa ya ese número.
pub open spec fn numero_en_uso(s: Seq<Hermano>, numero: Seq<char>, excepto: Option<i32>) -> bool {
    exists|k: int| 0 <= k < s.len() && (#[trigger] s[k]).numero_hermano@ == numero && s[k].id != excepto
}

/// Otro hermano (con id distinto de `excepto`) tiene ya ese DNI.
pub open spec fn dni_en_uso(s: Seq<Hermano>, dni: Option<String>, excepto: Option<i32>) -> bool {
    match dni {
        Some(d) => exists|k: int|
            0 <= k < s.len() && (#[trigger] s[k]).dni is Some && s[k].dni.unwrap()@ == d@ && s[k].id != excepto,
        None => false,
    }
}

/// Otra familia (con id distinto de `excepto`) se llama ya así.
pub open spec fn nombre_familia_en_uso(s: Seq<Familia>, nombre: Seq<char>, excepto: Option<i32>) -> bool {
    exists|k: int| 0 <= k < s.len() && (#[trigger] s[k]).nombre_familia@ == nombre && s[k].id != excepto
}

/// Otra cuota (con id distinto de `excepto`) es ya de ese hermano y ese año.
pub open spec fn cuota_en_uso(s: Seq<Cuota>, hermano_id: i32, anio: i32, excepto: Option<i32>) -> bool {
    exists|k: int|
        0 <= k < s.len() && (#[trigger] s[k]).hermano_id == hermano_id && s[k].anio == anio && s[k].id != excepto
}

/// La familia del hermano, si la tiene, existe.
pub open spec fn familia_valida(fs: Seq<Familia>, familia_id: Option<i32>) -> bool {
    match familia_id {
        Some(f) => existe_familia(fs, f),
        None => true,
    }
}

/// El hermano con los datos de `h` pero con el id dado.
pub open spec fn hermano_con_id(h: Hermano, id: i32) -> Hermano {
    Hermano { id: Some(id), ..h }
}

/// La familia con los datos de `f` pero con el id dado.
pub open spec fn familia_con_id(f: Familia, id: i32) -> Familia {
    Familia { id: Some(id), ..f }
}

/// La cuota con los datos de `c` pero con el id dado.
pub open spec fn cuota_con_id(c: Cuota, id: i32) -> Cuota {
    Cuota { id: Some(id), ..c }
}

/// Error con el que se rechaza el alta del hermano `h`, si se rechaza.
pub open spec fn error_alta_hermano(db: Database, h: Hermano) -> Option<DbError> {
    if db.sig_hermano() == i32::MAX {
        Some(DbError::IdsAgotados)
    } else if numero_en_uso(db.hermanos(), h.numero_hermano@, None) {
        Some(DbError::NumeroHermanoDuplicado)
    } else if dni_en_uso(db.hermanos(), h.dni, None) {
        Some(DbError::DniDuplicado)
    } else if !familia_valida(db.familias(), h.familia_id) {
        Some(DbError::FamiliaNoExiste)
    } else if !con_fecha_de_baja(h) {
        Some(DbError::FechaBajaObligatoria)
    } else {
        None
    }
}

/// El hermano `nuevo` es `viejo` dado de baja en `fecha`: inactivo y con esa
/// fecha de baja.
pub open spec fn de_baja_como(viejo: Hermano, nuevo: Hermano, fecha: Seq<char>) -> bool {
    &&& nuevo == Hermano { activo: false, fecha_baja: nuevo.fecha_baja, ..viejo }
    &&& nuevo.fecha_baja is Some
    &&& nuevo.fecha_baja.unwrap()@ == fecha
}

/// Un hermano inactivo tiene fecha de baja.
pub open spec fn con_fecha_de_baja(h: Hermano) -> bool {
    !h.activo ==> h.fecha_baja is Some
}

/// Todo hermano inactivo de la tabla tiene fecha de baja.
pub open spec fn bajas_con_fecha(hs: Seq<Hermano>) -> bool {
    forall|i: int| 0 <= i < hs.len() ==> con_fecha_de_baja(#[trigger] hs[i])
}

/// Error con el que se rechaza el alta de la familia `f`, si se rechaza.
pub open spec fn error_alta_familia(db: Database, f: Familia) -> Option<DbError> {
    if db.sig_familia() == i32::MAX {
        Some(DbError::IdsAgotados)
    } else if nombre_familia_en_uso(db.familias(), f.nombre_familia@, None) {
        Some(DbError::NombreFamiliaDuplicado)
    } else {
        None
    }
}

/// Error con el que se rechaza el alta de la cuota `c`, si se rechaza.
pub open spec fn error_alta_cuota(db: Database, c: Cuota) -> Option<DbError> {
    if db.sig_cuota() == i32::MAX {
        Some(DbError::IdsAgotados)
    } else if cuota_en_uso(db.cuotas(), c.hermano_id, c.anio, None) {
        Some(DbError::CuotaDuplicada)
    } else if !existe_hermano(db.hermanos(), c.hermano_id) {
        Some(DbError::HermanoNoExiste)
    } else {
        None
    }
}

/// Entre `a` y `b` sólo cambia la tabla de hermanos (y su contador de ids).
pub open spec fn solo_cambian_hermanos(a: Database, b: Database) -> bool {
    &&& a.familias() == b.familias()
    &&& a.cuotas() == b.cuotas()
    &&& a.configuracion() == b.configuracion()
    &&& a.sig_familia() == b.sig_familia()
    &&& a.sig_cuota() == b.sig_cuota()
}

/// Entre `a` y `b` sólo cambia la tabla de familias (y su contador de ids).
pub open spec fn solo_cambian_familias(a: Database, b: Database) -> bool {
    &&& a.hermanos() == b.hermanos()
    &&& a.cuotas() == b.cuotas()
    &&& a.configuracion() == b.configuracion()
    &&& a.sig_hermano() == b.sig_hermano()
    &&& a.sig_cuota() == b.sig_cuota()
}

/// Entre `a` y `b` sólo cambia la tabla de cuotas (y su contador de ids).
pub open spec fn solo_cambian_cuotas(a: Database, b: Database) -> bool {
    &&& a.hermanos() == b.hermanos()
    &&& a.familias() == b.familias()
    &&& a.configuracion() == b.configuracion()
    &&& a.sig_hermano() == b.sig_hermano()
    &&& a.sig_familia() == b.sig_familia()
}

proof fn lema_existe_hermano_push(s: Seq<Hermano>, x: Hermano, id: i32)
    requires
        existe_hermano(s, id),
    ensures
        existe_hermano(s.push(x), id),
{
    let k = choose|k: int| 0 <= k < s.len() && (#[trigger] s[k]).id == Some(id);
    assert(s.push(x)[k] == s[k]);
}

proof fn lema_existe_familia_push(s: Seq<Familia>, x: Familia, id: i32)
    requires
        existe_familia(s, id),
    ensures
        existe_familia(s.push(x), id),
{
    let k = choose|k: int| 0 <= k < s.len() && (#[trigger] s[k]).id == Some(id);
    assert(s.push(x)[k] == s[k]);
}

/// El hermano con ese id, si existe.
pub open spec fn hermano_por_id(s: Seq<Hermano>, id: i32) -> Option<Hermano> {
    if existe_hermano(s, id) {
        Some(s[choose|k: int| 0 <= k < s.len() && (#[trigger] s[k]).id == Some(id)])
    } else {
        None
    }
}

/// La familia con ese id, si existe.
pub open spec fn familia_por_id(s: Seq<Familia>, id: i32) -> Option<Familia> {
    if existe_familia(s, id) {
        Some(s[choose|k: int| 0 <= k < s.len() && (#[trigger] s[k]).id == Some(id)])
    } else {
        None
    }
}

/// La cuota con ese id, si existe.
pub open spec fn cuota_por_id(s: Seq<Cuota>, id: i32) -> Option<Cuota> {
    if existe_cuota(s, id) {
        Some(s[choose|k: int| 0 <= k < s.len() && (#[trigger] s[k]).id == Some(id)])
    } else {
        None
    }
}

pub(crate) proof fn lema_hermano_por_id(s: Seq<Hermano>, sig: i32, k: int)
    requires
        ids_hermanos_ok(s, sig),
        0 <= k < s.len(),
    ensures
        hermano_por_id(s, s[k].id.unwrap()) == Some(s[k]),
{
    let id = s[k].id.unwrap();
    assert(existe_hermano(s, id));
    let c = choose|c: int| 0 <= c < s.len() && (#[trigger] s[c]).id == Some(id);
    if c < k {
        assert(s[c].id.unwrap() < s[k].id.unwrap());
    } else if k < c {
        assert(s[k].id.unwrap() < s[c].id.unwrap());
    }
}

pub(crate) proof fn lema_familia_por_id(s: Seq<Familia>, sig: i32, k: int)
    requires
        ids_familias_ok(s, sig),
        0 <= k < s.len(),
    ensures
        familia_por_id(s, s[k].id.unwrap()) == Some(s[k]),
{
    let id = s[k].id.unwrap();
    assert(existe_familia(s, id));
    let c = choose|c: int| 0 <= c < s.len() && (#[trigger] s[c]).id == Some(id);
    if c < k {
        assert(s[c].id.unwrap() < s[k].id.unwrap());
    } else if k < c {
        assert(s[k].id.unwrap() < s[c].id.unwrap());
    }
}

pub(crate) proof fn lema_cuota_por_id(s: Seq<Cuota>, sig: i32, k: int)
    requires
        ids_cuotas_ok(s, sig),
        0 <= k < s.len(),
    ensures
        cuota_por_id(s, s[k].id.unwrap()) == Some(s[k]),
{
    let id = s[k].id.unwrap();
    assert(existe_cuota(s, id));
    let c = choose|c: int| 0 <= c < s.len() && (#[trigger] s[c]).id == Some(id);
    if c < k {
        assert(s[c].id.unwrap() < s[k].id.unwrap());
    } else if k < c {
        assert(s[k].id.unwrap() < s[c].id.unwrap());
    }
}

/// El hermano coincide con el texto buscado: lo contiene su número, nombre o
/// alguno de sus apellidos (sin distinguir mayúsculas ASCII).
pub open spec fn coincide_busqueda_hermano(h: Hermano, q: Seq<char>) -> bool {
    ||| contiene_plegado(h.numero_hermano@, q)
    ||| contiene_plegado(h.nombre@, q)
    ||| contiene_plegado(h.primer_apellido@, q)
    ||| (h.segundo_apellido is Some && contiene_plegado(h.segundo_apellido.unwrap()@, q))
}

/// Criterios de selección de hermanos.
pub enum CriterioHermano {
    Todos,
    Activos,
    DeFamilia(i32),
    ActivosDeFamilia(i32),
    Busqueda(String),
    /// Todos menos el del id dado.
    Otros(i32),
}

pub open spec fn cumple_criterio_hermano(c: CriterioHermano, h: Hermano) -> bool {
    match c {
        CriterioHermano::Todos => true,
        CriterioHermano::Activos => h.activo,
        CriterioHermano::DeFamilia(f) => h.familia_id == Some(f),
        CriterioHermano::ActivosDeFamilia(f) => h.activo && h.familia_id == Some(f),
        CriterioHermano::Busqueda(q) => coincide_busqueda_hermano(h, q@),
        CriterioHermano::Otros(id) => h.id != Some(id),
    }
}

/// Los hermanos de `s` que cumplen el criterio, en el mismo orden.
pub open spec fn hermanos_que_cumplen(s: Seq<Hermano>, c: CriterioHermano) -> Seq<Hermano> {
    s.filter(|h: Hermano| cumple_criterio_hermano(c, h))
}

/// Criterios de selección de familias.
pub enum CriterioFamilia {
    Todas,
    Busqueda(String),
    /// Todas menos la del id dado.
    Otras(i32),
}

pub open spec fn cumple_criterio_familia(c: CriterioFamilia, f: Familia) -> bool {
    match c {
        CriterioFamilia::Todas => true,
        CriterioFamilia::Busqueda(q) => contiene_plegado(f.nombre_familia@, q@),
        CriterioFamilia::Otras(id) => f.id != Some(id),
    }
}

/// Las familias de `s` que cumplen el criterio, en el mismo orden.
pub open spec fn familias_que_cumplen(s: Seq<Familia>, c: CriterioFamilia) -> Seq<Familia> {
    s.filter(|f: Familia| cumple_criterio_familia(c, f))
}

/// Criterios de selección de cuotas.
pub enum CriterioCuota {
    Todas,
    DeHermano(i32),
    DeAnio(i32),
    Pendientes,
    /// Todas menos la del id dado.
    Otras(i32),
    /// Las que no son del hermano dado.
    DeOtrosHermanos(i32),
}

pub open spec fn cumple_criterio_cuota(c: CriterioCuota, q: Cuota) -> bool {
    match c {
        CriterioCuota::Todas => true,
        CriterioCuota::DeHermano(h) => q.hermano_id == h,
        CriterioCuota::DeAnio(a) => q.anio == a,
        CriterioCuota::Pendientes => !q.pagado,
        CriterioCuota::Otras(id) => q.id != Some(id),
        CriterioCuota::DeOtrosHermanos(h) => q.hermano_id != h,
    }
}

/// Las cuotas de `s` que cumplen el criterio, en el mismo orden.
pub open spec fn cuotas_que_cumplen(s: Seq<Cuota>, c: CriterioCuota) -> Seq<Cuota> {
    s.filter(|q: Cuota| cumple_criterio_cuota(c, q))
}

proof fn lema_paso_filtro_hermanos(s: Seq<Hermano>, c: CriterioHermano, i: int)
    requires
        0 <= i < s.len(),
    ensures
        hermanos_que_cumplen(s.take(i + 1), c) == if cumple_criterio_hermano(c, s[i]) {
            hermanos_que_cumplen(s.take(i), c).push(s[i])
        } else {
            hermanos_que_cumplen(s.take(i), c)
        },
{
    reveal_with_fuel(Seq::filter, 1);
    assert(s.take(i + 1).drop_last() =~= s.take(i));
}

proof fn lema_paso_filtro_familias(s: Seq<Familia>, c: CriterioFamilia, i: int)
    requires
        0 <= i < s.len(),
    ensures
        familias_que_cumplen(s.take(i + 1), c) == if cumple_criterio_familia(c, s[i]) {
            familias_que_cumplen(s.take(i), c).push(s[i])
        } else {
            familias_que_cumplen(s.take(i), c)
        },
{
    reveal_with_fuel(Seq::filter, 1);
    assert(s.take(i + 1).drop_last() =~= s.take(i));
}

proof fn lema_paso_filtro_cuotas(s: Seq<Cuota>, c: CriterioCuota, i: int)
    requires
        0 <= i < s.len(),
    ensures
        cuotas_que_cumplen(s.take(i + 1), c) == if cumple_criterio_cuota(c, s[i]) {
            cuotas_que_cumplen(s.take(i), c).push(s[i])
        } else {
            cuotas_que_cumplen(s.take(i), c)
        },
{
    reveal_with_fuel(Seq::filter, 1);
    assert(s.take(i + 1).drop_last() =~= s.take(i));
}

proof fn lema_filtro_vacio_hermanos(c: CriterioHermano)
    ensures
        hermanos_que_cumplen(Seq::<Hermano>::empty(), c) == Seq::<Hermano>::empty(),
{
    reveal_with_fuel(Seq::filter, 1);
}

proof fn lema_filtro_vacio_familias(c: CriterioFamilia)
    ensures
        familias_que_cumplen(Seq::<Familia>::empty(), c) == Seq::<Familia>::empty(),
{
    reveal_with_fuel(Seq::filter, 1);
}

proof fn lema_filtro_vacio_cuotas(c: CriterioCuota)
    ensures
        cuotas_que_cumplen(Seq::<Cuota>::empty(), c) == Seq::<Cuota>::empty(),
{
    reveal_with_fuel(Seq::filter, 1);
}

/// Seleccionar con el criterio que todo lo acepta deja la tabla igual.
proof fn lema_todos_hermanos(s: Seq<Hermano>)
    ensures
        hermanos_que_cumplen(s, CriterioHermano::Todos) == s,
    decreases s.len(),
{
    reveal_with_fuel(Seq::filter, 1);
    if s.len() > 0 {
        lema_todos_hermanos(s.drop_last());
        assert(s.drop_last().push(s.last()) =~= s);
    }
}

proof fn lema_todas_familias(s: Seq<Familia>)
    ensures
        familias_que_cumplen(s, CriterioFamilia::Todas) == s,
    decreases s.len(),
{
    reveal_with_fuel(Seq::filter, 1);
    if s.len() > 0 {
        lema_todas_familias(s.drop_last());
        assert(s.drop_last().push(s.last()) =~= s);
    }
}

proof fn lema_todas_cuotas(s: Seq<Cuota>)
    ensures
        cuotas_que_cumplen(s, CriterioCuota::Todas) == s,
    decreases s.len(),
{
    reveal_with_fuel(Seq::filter, 1);
    if s.len() > 0 {
        lema_todas_cuotas(s.drop_last());
        assert(s.drop_last().push(s.last()) =~= s);
    }
}

/// Los hermanos de `s` que coinciden con el texto buscado, en el mismo orden.
pub open spec fn hermanos_buscados(s: Seq<Hermano>, q: Seq<char>) -> Seq<Hermano> {
    s.filter(|h: Hermano| coincide_busqueda_hermano(h, q))
}

/// Las familias de `s` cuyo nombre contiene el texto buscado, en el mismo orden.
pub open spec fn familias_buscadas(s: Seq<Familia>, q: Seq<char>) -> Seq<Familia> {
    s.filter(|f: Familia| contiene_plegado(f.nombre_familia@, q))
}

proof fn lema_busqueda_hermanos(s: Seq<Hermano>, q: String)
    ensures
        hermanos_que_cumplen(s, CriterioHermano::Busqueda(q)) == hermanos_buscados(s, q@),
    decreases s.len(),
{
    reveal_with_fuel(Seq::filter, 1);
    if s.len() > 0 {
        lema_busqueda_hermanos(s.drop_last(), q);
    }
}

proof fn lema_busqueda_familias(s: Seq<Familia>, q: String)
    ensures
        familias_que_cumplen(s, CriterioFamilia::Busqueda(q)) == familias_buscadas(s, q@),
    decreases s.len(),
{
    reveal_with_fuel(Seq::filter, 1);
    if s.len() > 0 {
        lema_busqueda_familias(s.drop_last(), q);
    }
}

/// La familia tiene algún hermano activo.
pub open spec fn tiene_hermanos_activos(hs: Seq<Hermano>, familia_id: i32) -> bool {
    exists|k: int| 0 <= k < hs.len() && (#[trigger] hs[k]).activo && hs[k].familia_id == Some(familia_id)
}

/// El hermano, desvinculado de la familia `familia_id` si pertenecía a ella.
pub open spec fn sin_familia(h: Hermano, familia_id: i32) -> Hermano {
    if h.familia_id == Some(familia_id) {
        Hermano { familia_id: None, ..h }
    } else {
        h
    }
}

proof fn lema_refs_hermano_subsecuencia(r: Seq<Cuota>, s: Seq<Cuota>, idx: Seq<int>, hs: Seq<Hermano>)
    requires
        refs_hermano_ok(s, hs),
        es_subsecuencia(r, s, idx),
    ensures
        refs_hermano_ok(r, hs),
{
    assert forall|a: int| 0 <= a < r.len() implies existe_hermano(hs, (#[trigger] r[a]).hermano_id) by {
        assert(r[a] == s[idx[a]]);
    }
}

proof fn lema_refs_familia_subsecuencia(r: Seq<Hermano>, s: Seq<Hermano>, idx: Seq<int>, fs: Seq<Familia>)
    requires
        refs_familia_ok(s, fs),
        es_subsecuencia(r, s, idx),
    ensures
        refs_familia_ok(r, fs),
{
    assert forall|a: int| 0 <= a < r.len() implies familia_valida(fs, (#[trigger] r[a]).familia_id) by {
        assert(r[a] == s[idx[a]]);
    }
}

/// El hermano `viejo` con los datos de `nuevo` (conserva id y marcas de tiempo).
pub open spec fn hermano_modificado(viejo: Hermano, nuevo: Hermano) -> Hermano {
    Hermano { id: viejo.id, created_at: viejo.created_at, updated_at: viejo.updated_at, ..nuevo }
}

/// La familia `vieja` con el nombre y el hermano de referencia de `nueva`.
pub open spec fn familia_modificada(vieja: Familia, nueva: Familia) -> Familia {
    Familia { id: vieja.id, created_at: vieja.created_at, updated_at: vieja.updated_at, ..nueva }
}

/// La cuota `vieja` con los datos de `nueva` (conserva id y marcas de tiempo).
pub open spec fn cuota_modificada(vieja: Cuota, nueva: Cuota) -> Cuota {
    Cuota { id: vieja.id, created_at: vieja.created_at, updated_at: vieja.updated_at, ..nueva }
}

/// Error con el que se rechaza la modificación del hermano `id`, si se rechaza.
/// Si el hermano no existe no hay error: la modificación no toca nada.
pub open spec fn error_modificacion_hermano(db: Database, id: i32, h: Hermano) -> Option<DbError> {
    if !existe_hermano(db.hermanos(), id) {
        None
    } else if numero_en_uso(db.hermanos(), h.numero_hermano@, Some(id)) {
        Some(DbError::NumeroHermanoDuplicado)
    } else if dni_en_uso(db.hermanos(), h.dni, Some(id)) {
        Some(DbError::DniDuplicado)
    } else if !familia_valida(db.familias(), h.familia_id) {
        Some(DbError::FamiliaNoExiste)
    } else if !con_fecha_de_baja(h) {
        Some(DbError::FechaBajaObligatoria)
    } else {
        None
    }
}

/// Error con el que se rechaza la modificación de la familia `id`, si se rechaza.
pub open spec fn error_modificacion_familia(db: Database, id: i32, f: Familia) -> Option<DbError> {
    if !existe_familia(db.familias(), id) {
        None
    } else if nombre_familia_en_uso(db.familias(), f.nombre_familia@, Some(id)) {
        Some(DbError::NombreFamiliaDuplicado)
    } else {
        None
    }
}

/// Error con el que se rechaza la modificación de la cuota `id`, si se rechaza.
pub open spec fn error_modificacion_cuota(db: Database, id: i32, c: Cuota) -> Option<DbError> {
    if !existe_cuota(db.cuotas(), id) {
        None
    } else if cuota_en_uso(db.cuotas(), c.hermano_id, c.anio, Some(id)) {
        Some(DbError::CuotaDuplicada)
    } else if !existe_hermano(db.hermanos(), c.hermano_id) {
        Some(DbError::HermanoNoExiste)
    } else {
        None
    }
}

/// Un paso de un filtro recorrido de izquierda a derecha.
proof fn lema_paso_filtro<A>(s: Seq<A>, p: spec_fn(A) -> bool, i: int)
    requires
        0 <= i < s.len(),
    ensures
        s.take(i + 1).filter(p) == if p(s[i]) {
            s.take(i).filter(p).push(s[i])
        } else {
            s.take(i).filter(p)
        },
{
    reveal_with_fuel(Seq::filter, 1);
    assert(s.take(i + 1).drop_last() =~= s.take(i));
}

proof fn lema_filtro_inicio<A>(s: Seq<A>, p: spec_fn(A) -> bool)
    ensures
        s.take(0).filter(p) == Seq::<A>::empty(),
{
    reveal_with_fuel(Seq::filter, 1);
    assert(s.take(0) =~= Seq::<A>::empty());
}

/// La cuota `nueva` es `vieja` marcada como pagada en `fecha` con `metodo`.
pub open spec fn pagada_como(vieja: Cuota, nueva: Cuota, fecha: Seq<char>, metodo: Seq<char>) -> bool {
    &&& nueva == Cuota { pagado: true, fecha_pago: nueva.fecha_pago, metodo_pago: nueva.metodo_pago, ..vieja }
    &&& nueva.fecha_pago is Some
    &&& nueva.fecha_pago.unwrap()@ == fecha
    &&& nueva.metodo_pago is Some
    &&& nueva.metodo_pago.unwrap()@ == metodo
}

/// La cuota `nueva` es `vieja` con el recibo marcado como generado y la
/// fecha de modificación puesta a `ahora`.
pub open spec fn recibo_marcado(vieja: Cuota, nueva: Cuota, ahora: Seq<char>) -> bool {
    &&& nueva == Cuota { recibo: true, updated_at: nueva.updated_at, ..vieja }
    &&& nueva.updated_at is Some
    &&& nueva.updated_at.unwrap()@ == ahora
}

/// El hermano `hermano_id` pertenece a la familia `familia_id`.
pub open spec fn hermano_de_familia(hs: Seq<Hermano>, hermano_id: i32, familia_id: i32) -> bool {
    exists|k: int| 0 <= k < hs.len() && (#[trigger] hs[k]).id == Some(hermano_id) && hs[k].familia_id == Some(familia_id)
}

/// La cuota entra en el pago conjunto de la familia para ese año: es de ese
/// año, está pendiente y es de un hermano de la familia.
pub open spec fn afecta_pago_familia(hs: Seq<Hermano>, familia_id: i32, anio: i32, c: Cuota) -> bool {
    c.anio == anio && !c.pagado && hermano_de_familia(hs, c.hermano_id, familia_id)
}

/// Cuotas que paga el pago conjunto de la familia.
pub open spec fn cuotas_pago_familia(hs: Seq<Hermano>, cs: Seq<Cuota>, familia_id: i32, anio: i32) -> Seq<Cuota> {
    cs.filter(|c: Cuota| afecta_pago_familia(hs, familia_id, anio, c))
}

/// Hermanos activos que aún no tienen cuota de ese año, en orden de id.
pub open spec fn hermanos_sin_cuota(hs: Seq<Hermano>, cs: Seq<Cuota>, anio: i32) -> Seq<Hermano> {
    hs.filter(|h: Hermano| h.activo && !cuota_en_uso(cs, h.id.unwrap(), anio, None))
}

/// La cuota que se genera para un hermano: pendiente, sin recibo y sin más datos.
pub open spec fn cuota_generada(hermano_id: i32, anio: i32, importe_centimos: i64, id: int) -> Cuota {
    Cuota {
        id: Some(id as i32),
        hermano_id: hermano_id,
        anio: anio,
        importe_centimos: importe_centimos,
        pagado: false,
        fecha_pago: None,
        metodo_pago: None,
        observaciones: None,
        recibo: false,
        created_at: None,
        updated_at: None,
    }
}

/// La cuota cuenta para el periodo: el año dado o, sin año, cualquiera.
pub open spec fn en_periodo(c: Cuota, anio: Option<i32>) -> bool {
    match anio {
        Some(a) => c.anio == a,
        None => true,
    }
}

pub open spec fn cuotas_pagadas_en(cs: Seq<Cuota>, anio: Option<i32>) -> Seq<Cuota> {
    cs.filter(|c: Cuota| en_periodo(c, anio) && c.pagado)
}

pub open spec fn cuotas_pendientes_en(cs: Seq<Cuota>, anio: Option<i32>) -> Seq<Cuota> {
    cs.filter(|c: Cuota| en_periodo(c, anio) && !c.pagado)
}

pub open spec fn cuotas_del_periodo(cs: Seq<Cuota>, anio: Option<i32>) -> Seq<Cuota> {
    cs.filter(|c: Cuota| en_periodo(c, anio))
}

/// Suma de los importes (en céntimos).
pub open spec fn suma_importes(cs: Seq<Cuota>) -> int
    decreases cs.len(),
{
    if cs.len() == 0 {
        0
    } else {
        suma_importes(cs.drop_last()) + cs.last().importe_centimos
    }
}

/// El hermano tiene alguna cuota pendiente en el periodo.
pub open spec fn tiene_pendiente(cs: Seq<Cuota>, anio: Option<i32>, hermano_id: i32) -> bool {
    exists|k: int| 0 <= k < cs.len() && en_periodo(#[trigger] cs[k], anio) && cs[k].hermano_id == hermano_id && !cs[k].pagado
}

pub open spec fn hermanos_al_dia(hs: Seq<Hermano>, cs: Seq<Cuota>, anio: Option<i32>) -> Seq<Hermano> {
    hs.filter(|h: Hermano| h.activo && !tiene_pendiente(cs, anio, h.id.unwrap()))
}

pub open spec fn hermanos_morosos(hs: Seq<Hermano>, cs: Seq<Cuota>, anio: Option<i32>) -> Seq<Hermano> {
    hs.filter(|h: Hermano| h.activo && tiene_pendiente(cs, anio, h.id.unwrap()))
}

proof fn lema_suma_push(s: Seq<Cuota>, c: Cuota)
    ensures
        suma_importes(s.push(c)) == suma_importes(s) + c.importe_centimos,
{
    assert(s.push(c).drop_last() =~= s);
}

proof fn lema_cota_suma(s: Seq<Cuota>)
    ensures
        -(s.len() * 0x8000_0000_0000_0000) <= suma_importes(s) <= s.len() * 0x8000_0000_0000_0000,
    decreases s.len(),
{
    if s.len() > 0 {
        lema_cota_suma(s.drop_last());
    }
}

/// Una familia junto con el hermano cuya dirección es la de la familia.
#[derive(Debug)]
pub struct FamiliaConDireccion {
    pub familia: Familia,
    pub hermano_direccion: Option<Hermano>,
}

/// El hermano de referencia de la familia, si tiene y existe.
pub open spec fn hermano_de_direccion(hs: Seq<Hermano>, f: Familia) -> Option<Hermano> {
    match f.hermano_direccion_id {
        Some(hid) => hermano_por_id(hs, hid),
        None => None,
    }
}

/// Por qué se rechaza el alta conjunta de hermano y familia.
#[derive(Debug)]
pub enum ErrorAlta {
    /// No se pudo crear la familia nueva con ese nombre.
    Familia { nombre: String, error: DbError },
    /// No se pudo crear el hermano.
    Hermano(DbError),
}

/// La familia que se crea con el nombre dado (sin hermano de referencia).
pub open spec fn familia_nueva(nombre: String) -> Familia {
    Familia { id: None, nombre_familia: nombre, hermano_direccion_id: None, created_at: None, updated_at: None }
}

// ---------------------------------------------------------------------------
// El almacén
// ---------------------------------------------------------------------------

/// Las tablas de la hermandad. Sus invariantes están en [`Database::wf`].
pub struct Database {
    hermanos: Vec<Hermano>,
    familias: Vec<Familia>,
    cuotas: Vec<Cuota>,
    configuracion_recibo: Option<ConfiguracionRecibo>,
    siguiente_hermano: i32,
    siguiente_familia: i32,
    siguiente_cuota: i32,
}

impl Database {
    /// Filas de la tabla `hermanos`, en orden de id.
    pub closed spec fn hermanos(self) -> Seq<Hermano> {
        self.hermanos@
    }

    /// Filas de la tabla `familias`, en orden de id.
    pub closed spec fn familias(self) -> Seq<Familia> {
        self.familias@
    }

    /// Filas de la tabla `cuotas`, en orden de id.
    pub closed spec fn cuotas(self) -> Seq<Cuota> {
        self.cuotas@
    }

    /// La fila única de `configuracion_recibos`, si se ha guardado.
    pub closed spec fn configuracion(self) -> Option<ConfiguracionRecibo> {
        self.configuracion_recibo
    }

    /// Próximo id que recibirá un hermano nuevo.
    pub closed spec fn sig_hermano(self) -> i32 {
        self.siguiente_hermano
    }

    /// Próximo id que recibirá una familia nueva.
    pub closed spec fn sig_familia(self) -> i32 {
        self.siguiente_familia
    }

    /// Próximo id que recibirá una cuota nueva.
    pub closed spec fn sig_cuota(self) -> i32 {
        self.siguiente_cuota
    }

    /// Invariantes de las tablas: ids únicos y crecientes, números de hermano,
    /// nombres de familia y pares (hermano, año) únicos, y toda referencia
    /// de un hermano a su familia y de una cuota a su hermano apunta a una fila.
    pub open spec fn wf(self) -> bool {
        &&& tabla_hermanos_ok(self.hermanos(), self.sig_hermano())
        &&& tabla_familias_ok(self.familias(), self.sig_familia())
        &&& tabla_cuotas_ok(self.cuotas(), self.sig_cuota())
        &&& refs_familia_ok(self.hermanos(), self.familias())
        &&& refs_hermano_ok(self.cuotas(), self.hermanos())
    }

    /// Un almacén vacío (las tablas recién creadas).
    pub fn new() -> (db: Database)
        ensures
            db.wf(),
            db.hermanos() == Seq::<Hermano>::empty(),
            db.familias() == Seq::<Familia>::empty(),
            db.cuotas() == Seq::<Cuota>::empty(),
            db.configuracion() is None,
            db.sig_hermano() == 1,
            db.sig_familia() == 1,
            db.sig_cuota() == 1,
    {
        Database {
            hermanos: Vec::new(),
            familias: Vec::new(),
            cuotas: Vec::new(),
            configuracion_recibo: None,
            siguiente_hermano: 1,
            siguiente_familia: 1,
            siguiente_cuota: 1,
        }
    }

    // -----------------------------------------------------------------------
    // Búsquedas por id
    // -----------------------------------------------------------------------

    /// Posición del hermano con ese id.
    fn posicion_hermano(&self, id: i32) -> (r: Option<usize>)
        ensures
            match r {
                Some(k) => k < self.hermanos().len() && self.hermanos()[k as int].id == Some(id),
                None => !existe_hermano(self.hermanos(), id),
            },
    {
        let mut i: usize = 0;
        while i < self.hermanos.len()
            invariant
                i <= self.hermanos@.len(),
                forall|k: int| 0 <= k < i ==> (#[trigger] self.hermanos@[k]).id != Some(id),
            decreases self.hermanos@.len() - i,
        {
            if self.hermanos[i].id == Some(id) {
                return Some(i);
            }
            i = i + 1;
        }
        None
    }

    /// Posición de la familia con ese id.
    fn posicion_familia(&self, id: i32) -> (r: Option<usize>)
        ensures
            match r {
                Some(k) => k < self.familias().len() && self.familias()[k as int].id == Some(id),
                None => !existe_familia(self.familias(), id),
            },
    {
        let mut i: usize = 0;
        while i < self.familias.len()
            invariant
                i <= self.familias@.len(),
                forall|k: int| 0 <= k < i ==> (#[trigger] self.familias@[k]).id != Some(id),
            decreases self.familias@.len() - i,
        {
            if self.familias[i].id == Some(id) {
                return Some(i);
            }
            i = i + 1;
        }
        None
    }

    /// Posición de la cuota con ese id.
    fn posicion_cuota(&self, id: i32) -> (r: Option<usize>)
        ensures
            match r {
                Some(k) => k < self.cuotas().len() && self.cuotas()[k as int].id == Some(id),
                None => !existe_cuota(self.cuotas(), id),
            },
    {
        let mut i: usize = 0;
        while i < self.cuotas.len()
            invariant
                i <= self.cuotas@.len(),
                forall|k: int| 0 <= k < i ==> (#[trigger] self.cuotas@[k]).id != Some(id),
            decreases self.cuotas@.len() - i,
        {
            if self.cuotas[i].id == Some(id) {
                return Some(i);
            }
            i = i + 1;
        }
        None
    }

    // -----------------------------------------------------------------------
    // Comprobaciones de unicidad
    // -----------------------------------------------------------------------

    fn numero_usado(&self, numero: &String, excepto: Option<i32>) -> (r: bool)
        ensures
            r == numero_en_uso(self.hermanos(), numero@, excepto),
    {
        let mut i: usize = 0;
        while i < self.hermanos.len()
            invariant
                i <= self.hermanos@.len(),
                forall|k: int| 0 <= k < i ==>
                    !((#[trigger] self.hermanos@[k]).numero_hermano@ == numero@ && self.hermanos@[k].id != excepto),
            decreases self.hermanos@.len() - i,
        {
            if self.hermanos[i].numero_hermano == *numero && self.hermanos[i].id != excepto {
                return true;
            }
            i = i + 1;
        }
        false
    }

    fn dni_usado(&self, dni: &Option<String>, excepto: Option<i32>) -> (r: bool)
        ensures
            r == dni_en_uso(self.hermanos(), *dni, excepto),
    {
        match dni {
            None => false,
            Some(d) => {
                let mut i: usize = 0;
                while i < self.hermanos.len()
                    invariant
                        i <= self.hermanos@.len(),
                        *dni == Some(*d),
                        forall|k: int| 0 <= k < i ==>
                            !((#[trigger] self.hermanos@[k]).dni is Some && self.hermanos@[k].dni.unwrap()@ == d@
                                && self.hermanos@[k].id != excepto),
                    decreases self.hermanos@.len() - i,
                {
                    match &self.hermanos[i].dni {
                        Some(x) => {
                            if *x == *d && self.hermanos[i].id != excepto {
                                assert(self.hermanos@[i as int].dni.unwrap()@ == d@);
                                return true;
                            }
                        },
                        None => {},
                    }
                    i = i + 1;
                }
                false
            },
        }
    }

    fn nombre_familia_usado(&self, nombre: &String, excepto: Option<i32>) -> (r: bool)
        ensures
            r == nombre_familia_en_uso(self.familias(), nombre@, excepto),
    {
        let mut i: usize = 0;
        while i < self.familias.len()
            invariant
                i <= self.familias@.len(),
                forall|k: int| 0 <= k < i ==>
                    !((#[trigger] self.familias@[k]).nombre_familia@ == nombre@ && self.familias@[k].id != excepto),
            decreases self.familias@.len() - i,
        {
            if self.familias[i].nombre_familia == *nombre && self.familias[i].id != excepto {
                return true;
            }
            i = i + 1;
        }
        false
    }

    fn cuota_usada(&self, hermano_id: i32, anio: i32, excepto: Option<i32>) -> (r: bool)
        ensures
            r == cuota_en_uso(self.cuotas(), hermano_id, anio, excepto),
    {
        let mut i: usize = 0;
        while i < self.cuotas.len()
            invariant
                i <= self.cuotas@.len(),
                forall|k: int| 0 <= k < i ==>
                    !((#[trigger] self.cuotas@[k]).hermano_id == hermano_id && self.cuotas@[k].anio == anio
                        && self.cuotas@[k].id != excepto),
            decreases self.cuotas@.len() - i,
        {
            if self.cuotas[i].hermano_id == hermano_id && self.cuotas[i].anio == anio && self.cuotas[i].id != excepto {
                return true;
            }
            i = i + 1;
        }
        false
    }

    fn familia_correcta(&self, familia_id: Option<i32>) -> (r: bool)
        ensures
            r == familia_valida(self.familias(), familia_id),
    {
        match familia_id {
            None => true,
            Some(f) => self.posicion_familia(f).is_some(),
        }
    }

    // -----------------------------------------------------------------------
    // Altas
    // -----------------------------------------------------------------------

    /// Da de alta un hermano con el siguiente id libre y devuelve ese id.
    pub fn create_hermano(&mut self, h: &Hermano) -> (r: Result<i32, DbError>)
        requires
            old(self).wf(),
        ensures
            final(self).wf(),
            r is Err <==> error_alta_hermano(*old(self), *h) is Some,
            r matches Err(e) ==> error_alta_hermano(*old(self), *h) == Some(e) && *final(self) == *old(self),
            bajas_con_fecha(old(self).hermanos()) ==> bajas_con_fecha(final(self).hermanos()),
            r matches Ok(id) ==> {
                &&& id == old(self).sig_hermano()
                &&& final(self).hermanos() == old(self).hermanos().push(hermano_con_id(*h, id))
                &&& final(self).sig_hermano() == id + 1
                &&& solo_cambian_hermanos(*old(self), *final(self))
            },
    {
        if self.siguiente_hermano == i32::MAX {
            return Err(DbError::IdsAgotados);
        }
        if self.numero_usado(&h.numero_hermano, None) {
            return Err(DbError::NumeroHermanoDuplicado);
        }
        if self.dni_usado(&h.dni, None) {
            return Err(DbError::DniDuplicado);
        }
        if !self.familia_correcta(h.familia_id) {
            return Err(DbError::FamiliaNoExiste);
        }
        if !h.activo && h.fecha_baja.is_none() {
            return Err(DbError::FechaBajaObligatoria);
        }
        let id = self.siguiente_hermano;
        let mut nuevo = h.copia();
        nuevo.id = Some(id);
        let ghost viejos = self.hermanos@;
        self.hermanos.push(nuevo);
        self.siguiente_hermano = id + 1;
        proof {
            let hs = self.hermanos@;
            assert(hs == viejos.push(hermano_con_id(*h, id)));
            assert forall|i: int| 0 <= i < self.cuotas@.len() implies existe_hermano(
                hs,
                (#[trigger] self.cuotas@[i]).hermano_id,
            ) by {
                lema_existe_hermano_push(viejos, hermano_con_id(*h, id), self.cuotas@[i].hermano_id);
            }
            assert forall|i: int, j: int| #![trigger hs[i], hs[j]]
                0 <= i < j < hs.len() implies hs[i].numero_hermano@ != hs[j].numero_hermano@ by {
                if j == hs.len() - 1 {
                    assert(hs[i] == viejos[i]);
                }
            }
        }
        Ok(id)
    }

    /// Da de alta una familia con el siguiente id libre y devuelve ese id.
    pub fn create_familia(&mut self, f: &Familia) -> (r: Result<i32, DbError>)
        requires
            old(self).wf(),
        ensures
            final(self).wf(),
            r is Err <==> error_alta_familia(*old(self), *f) is Some,
            r matches Err(e) ==> error_alta_familia(*old(self), *f) == Some(e) && *final(self) == *old(self),
            r matches Ok(id) ==> {
                &&& id == old(self).sig_familia()
                &&& final(self).familias() == old(self).familias().push(familia_con_id(*f, id))
                &&& final(self).sig_familia() == id + 1
                &&& solo_cambian_familias(*old(self), *final(self))
            },
    {
        if self.siguiente_familia == i32::MAX {
            return Err(DbError::IdsAgotados);
        }
        if self.nombre_familia_usado(&f.nombre_familia, None) {
            return Err(DbError::NombreFamiliaDuplicado);
        }
        let id = self.siguiente_familia;
        let mut nueva = f.copia();
        nueva.id = Some(id);
        let ghost viejas = self.familias@;
        self.familias.push(nueva);
        self.siguiente_familia = id + 1;
        proof {
            let fs = self.familias@;
            assert(fs == viejas.push(familia_con_id(*f, id)));
            assert forall|i: int| 0 <= i < self.hermanos@.len() implies familia_valida(
                fs,
                (#[trigger] self.hermanos@[i]).familia_id,
            ) by {
                if let Some(fid) = self.hermanos@[i].familia_id {
                    lema_existe_familia_push(viejas, familia_con_id(*f, id), fid);
                }
            }
            assert forall|i: int, j: int| #![trigger fs[i], fs[j]]
                0 <= i < j < fs.len() implies fs[i].nombre_familia@ != fs[j].nombre_familia@ by {
                if j == fs.len() - 1 {
                    assert(fs[i] == viejas[i]);
                }
            }
        }
        Ok(id)
    }

    /// Da de alta una cuota con el siguiente id libre y devuelve ese id.
    pub fn create_cuota(&mut self, c: &Cuota) -> (r: Result<i32, DbError>)
        requires
            old(self).wf(),
        ensures
            final(self).wf(),
            r is Err <==> error_alta_cuota(*old(self), *c) is Some,
            r matches Err(e) ==> error_alta_cuota(*old(self), *c) == Some(e) && *final(self) == *old(self),
            r matches Ok(id) ==> {
                &&& id == old(self).sig_cuota()
                &&& final(self).cuotas() == old(self).cuotas().push(cuota_con_id(*c, id))
                &&& final(self).sig_cuota() == id + 1
                &&& solo_cambian_cuotas(*old(self), *final(self))
            },
    {
        if self.siguiente_cuota == i32::MAX {
            return Err(DbError::IdsAgotados);
        }
        if self.cuota_usada(c.hermano_id, c.anio, None) {
            return Err(DbError::CuotaDuplicada);
        }
        if self.posicion_hermano(c.hermano_id).is_none() {
            return Err(DbError::HermanoNoExiste);
        }
        let id = self.siguiente_cuota;
        let mut nueva = c.copia();
        nueva.id = Some(id);
        let ghost viejas = self.cuotas@;
        self.cuotas.push(nueva);
        self.siguiente_cuota = id + 1;
        proof {
            let cs = self.cuotas@;
            assert(cs == viejas.push(cuota_con_id(*c, id)));
            assert forall|i: int, j: int| #![trigger cs[i], cs[j]]
                0 <= i < j < cs.len() implies !(cs[i].hermano_id == cs[j].hermano_id && cs[i].anio == cs[j].anio) by {
                if j == cs.len() - 1 {
                    assert(cs[i] == viejas[i]);
                }
            }
        }
        Ok(id)
    }

    // -----------------------------------------------------------------------
    // Consultas
    // -----------------------------------------------------------------------

    fn cumple_hermano(c: &CriterioHermano, h: &Hermano) -> (r: bool)
        ensures
            r == cumple_criterio_hermano(*c, *h),
    {
        match c {
            CriterioHermano::Todos => true,
            CriterioHermano::Activos => h.activo,
            CriterioHermano::DeFamilia(f) => h.familia_id == Some(*f),
            CriterioHermano::ActivosDeFamilia(f) => h.activo && h.familia_id == Some(*f),
            CriterioHermano::Busqueda(q) => {
                let en_segundo = match &h.segundo_apellido {
                    Some(s) => contiene_sin_mayusculas(s.as_str(), q.as_str()),
                    None => false,
                };
                contiene_sin_mayusculas(h.numero_hermano.as_str(), q.as_str())
                    || contiene_sin_mayusculas(h.nombre.as_str(), q.as_str())
                    || contiene_sin_mayusculas(h.primer_apellido.as_str(), q.as_str())
                    || en_segundo
            },
            CriterioHermano::Otros(id) => h.id != Some(*id),
        }
    }

    fn cumple_familia(c: &CriterioFamilia, f: &Familia) -> (r: bool)
        ensures
            r == cumple_criterio_familia(*c, *f),
    {
        match c {
            CriterioFamilia::Todas => true,
            CriterioFamilia::Busqueda(q) => contiene_sin_mayusculas(f.nombre_familia.as_str(), q.as_str()),
            CriterioFamilia::Otras(id) => f.id != Some(*id),
        }
    }

    fn cumple_cuota(c: &CriterioCuota, q: &Cuota) -> (r: bool)
        ensures
            r == cumple_criterio_cuota(*c, *q),
    {
        match c {
            CriterioCuota::Todas => true,
            CriterioCuota::DeHermano(h) => q.hermano_id == *h,
            CriterioCuota::DeAnio(a) => q.anio == *a,
            CriterioCuota::Pendientes => !q.pagado,
            CriterioCuota::Otras(id) => q.id != Some(*id),
            CriterioCuota::DeOtrosHermanos(h) => q.hermano_id != *h,
        }
    }

    /// Copias de los hermanos que cumplen el criterio, en orden de id.
    pub fn filtrar_hermanos(&self, c: &CriterioHermano) -> (r: Vec<Hermano>)
        ensures
            r@ == hermanos_que_cumplen(self.hermanos(), *c),
    {
        let mut r: Vec<Hermano> = Vec::new();
        let mut i: usize = 0;
        proof {
            lema_filtro_vacio_hermanos(*c);
            assert(self.hermanos@.take(0) =~= Seq::<Hermano>::empty());
        }
        while i < self.hermanos.len()
            invariant
                i <= self.hermanos@.len(),
                r@ == hermanos_que_cumplen(self.hermanos@.take(i as int), *c),
            decreases self.hermanos@.len() - i,
        {
            proof {
                lema_paso_filtro_hermanos(self.hermanos@, *c, i as int);
            }
            if Self::cumple_hermano(c, &self.hermanos[i]) {
                r.push(self.hermanos[i].copia());
            }
            i = i + 1;
        }
        assert(self.hermanos@.take(i as int) =~= self.hermanos@);
        r
    }

    /// Copias de las familias que cumplen el criterio, en orden de id.
    pub fn filtrar_familias(&self, c: &CriterioFamilia) -> (r: Vec<Familia>)
        ensures
            r@ == familias_que_cumplen(self.familias(), *c),
    {
        let mut r: Vec<Familia> = Vec::new();
        let mut i: usize = 0;
        proof {
            lema_filtro_vacio_familias(*c);
            assert(self.familias@.take(0) =~= Seq::<Familia>::empty());
        }
        while i < self.familias.len()
            invariant
                i <= self.familias@.len(),
                r@ == familias_que_cumplen(self.familias@.take(i as int), *c),
            decreases self.familias@.len() - i,
        {
            proof {
                lema_paso_filtro_familias(self.familias@, *c, i as int);
            }
            if Self::cumple_familia(c, &self.familias[i]) {
                r.push(self.familias[i].copia());
            }
            i = i + 1;
        }
        assert(self.familias@.take(i as int) =~= self.familias@);
        r
    }

    /// Copias de las cuotas que cumplen el criterio, en orden de id.
    pub fn filtrar_cuotas(&self, c: &CriterioCuota) -> (r: Vec<Cuota>)
        ensures
            r@ == cuotas_que_cumplen(self.cuotas(), *c),
    {
        let mut r: Vec<Cuota> = Vec::new();
        let mut i: usize = 0;
        proof {
            lema_filtro_vacio_cuotas(*c);
            assert(self.cuotas@.take(0) =~= Seq::<Cuota>::empty());
        }
        while i < self.cuotas.len()
            invariant
                i <= self.cuotas@.len(),
                r@ == cuotas_que_cumplen(self.cuotas@.take(i as int), *c),
            decreases self.cuotas@.len() - i,
        {
            proof {
                lema_paso_filtro_cuotas(self.cuotas@, *c, i as int);
            }
            if Self::cumple_cuota(c, &self.cuotas[i]) {
                r.push(self.cuotas[i].copia());
            }
            i = i + 1;
        }
        assert(self.cuotas@.take(i as int) =~= self.cuotas@);
        r
    }

    /// Todos los hermanos, en orden de id.
    pub fn get_all_hermanos(&self) -> (r: Vec<Hermano>)
        ensures
            r@ == self.hermanos(),
    {
        proof {
            lema_todos_hermanos(self.hermanos());
        }
        self.filtrar_hermanos(&CriterioHermano::Todos)
    }

    /// Los hermanos activos, en orden de id.
    pub fn get_hermanos_activos(&self) -> (r: Vec<Hermano>)
        ensures
            r@ == hermanos_que_cumplen(self.hermanos(), CriterioHermano::Activos),
    {
        self.filtrar_hermanos(&CriterioHermano::Activos)
    }

    /// Los hermanos de una familia, en orden de id.
    pub fn get_hermanos_by_familia(&self, familia_id: i32) -> (r: Vec<Hermano>)
        ensures
            r@ == hermanos_que_cumplen(self.hermanos(), CriterioHermano::DeFamilia(familia_id)),
    {
        self.filtrar_hermanos(&CriterioHermano::DeFamilia(familia_id))
    }

    /// Los hermanos cuyo número, nombre o apellidos contienen `query`.
    pub fn search_hermanos(&self, query: &str) -> (r: Vec<Hermano>)
        ensures
            r@ == hermanos_buscados(self.hermanos(), query@),
    {
        let q = String::from_str(query);
        proof {
            lema_busqueda_hermanos(self.hermanos(), q);
        }
        self.filtrar_hermanos(&CriterioHermano::Busqueda(q))
    }

    /// El hermano con ese id, si existe.
    pub fn get_hermano_by_id(&self, id: i32) -> (r: Option<Hermano>)
        requires
            self.wf(),
        ensures
            r == hermano_por_id(self.hermanos(), id),
    {
        match self.posicion_hermano(id) {
            Some(k) => {
                proof {
                    lema_hermano_por_id(self.hermanos@, self.siguiente_hermano, k as int);
                }
                Some(self.hermanos[k].copia())
            },
            None => None,
        }
    }

    /// Todas las familias, en orden de id.
    pub fn get_all_familias(&self) -> (r: Vec<Familia>)
        ensures
            r@ == self.familias(),
    {
        proof {
            lema_todas_familias(self.familias());
        }
        self.filtrar_familias(&CriterioFamilia::Todas)
    }

    /// La familia con ese id, si existe.
    pub fn get_familia_by_id(&self, id: i32) -> (r: Option<Familia>)
        requires
            self.wf(),
        ensures
            r == familia_por_id(self.familias(), id),
    {
        match self.posicion_familia(id) {
            Some(k) => {
                proof {
                    lema_familia_por_id(self.familias@, self.siguiente_familia, k as int);
                }
                Some(self.familias[k].copia())
            },
            None => None,
        }
    }

    /// Las familias cuyo nombre contiene `query` (sin distinguir mayúsculas ASCII).
    pub fn search_familias(&self, query: &str) -> (r: Vec<Familia>)
        ensures
            r@ == familias_buscadas(self.familias(), query@),
    {
        let q = String::from_str(query);
        proof {
            lema_busqueda_familias(self.familias(), q);
        }
        self.filtrar_familias(&CriterioFamilia::Busqueda(q))
    }

    /// Todas las cuotas, en orden de id.
    pub fn get_all_cuotas(&self) -> (r: Vec<Cuota>)
        ensures
            r@ == self.cuotas(),
    {
        proof {
            lema_todas_cuotas(self.cuotas());
        }
        self.filtrar_cuotas(&CriterioCuota::Todas)
    }

    /// Las cuotas de un hermano, en orden de id.
    pub fn get_cuotas_by_hermano(&self, hermano_id: i32) -> (r: Vec<Cuota>)
        ensures
            r@ == cuotas_que_cumplen(self.cuotas(), CriterioCuota::DeHermano(hermano_id)),
    {
        self.filtrar_cuotas(&CriterioCuota::DeHermano(hermano_id))
    }

    /// Las cuotas de un año, en orden de id.
    pub fn get_cuotas_by_year(&self, anio: i32) -> (r: Vec<Cuota>)
        ensures
            r@ == cuotas_que_cumplen(self.cuotas(), CriterioCuota::DeAnio(anio)),
    {
        self.filtrar_cuotas(&CriterioCuota::DeAnio(anio))
    }

    /// Las cuotas sin pagar, en orden de id.
    pub fn get_cuotas_pendientes(&self) -> (r: Vec<Cuota>)
        ensures
            r@ == cuotas_que_cumplen(self.cuotas(), CriterioCuota::Pendientes),
    {
        self.filtrar_cuotas(&CriterioCuota::Pendientes)
    }

    /// La cuota con ese id, si existe.
    pub fn get_cuota_by_id(&self, id: i32) -> (r: Option<Cuota>)
        requires
            self.wf(),
        ensures
            r == cuota_por_id(self.cuotas(), id),
    {
        match self.posicion_cuota(id) {
            Some(k) => {
                proof {
                    lema_cuota_por_id(self.cuotas@, self.siguiente_cuota, k as int);
                }
                Some(self.cuotas[k].copia())
            },
            None => None,
        }
    }

    // -----------------------------------------------------------------------
    // Bajas
    // -----------------------------------------------------------------------

    /// Borra la cuota con ese id (si no existe, no hace nada).
    pub fn delete_cuota(&mut self, id: i32) -> (r: Result<(), DbError>)
        requires
            old(self).wf(),
        ensures
            final(self).wf(),
            r is Ok,
            final(self).cuotas() == cuotas_que_cumplen(old(self).cuotas(), CriterioCuota::Otras(id)),
            final(self).sig_cuota() == old(self).sig_cuota(),
            solo_cambian_cuotas(*old(self), *final(self)),
    {
        let nuevas = self.filtrar_cuotas(&CriterioCuota::Otras(id));
        proof {
            let idx = lema_filtro_subsecuencia(
                self.cuotas@,
                |q: Cuota| cumple_criterio_cuota(CriterioCuota::Otras(id), q),
            );
            lema_subsecuencia_cuotas(nuevas@, self.cuotas@, idx, self.siguiente_cuota);
            lema_refs_hermano_subsecuencia(nuevas@, self.cuotas@, idx, self.hermanos@);
        }
        self.cuotas = nuevas;
        Ok(())
    }

    /// Borra el hermano con ese id y, en cascada, todas sus cuotas (si no
    /// existe, no hace nada).
    pub fn delete_hermano(&mut self, id: i32) -> (r: Result<(), DbError>)
        requires
            old(self).wf(),
        ensures
            final(self).wf(),
            bajas_con_fecha(old(self).hermanos()) ==> bajas_con_fecha(final(self).hermanos()),
            r is Ok,
            final(self).hermanos() == hermanos_que_cumplen(old(self).hermanos(), CriterioHermano::Otros(id)),
            final(self).cuotas() == cuotas_que_cumplen(old(self).cuotas(), CriterioCuota::DeOtrosHermanos(id)),
            final(self).familias() == old(self).familias(),
            final(self).configuracion() == old(self).configuracion(),
            final(self).sig_hermano() == old(self).sig_hermano(),
            final(self).sig_familia() == old(self).sig_familia(),
            final(self).sig_cuota() == old(self).sig_cuota(),
    {
        let nuevas = self.filtrar_cuotas(&CriterioCuota::DeOtrosHermanos(id));
        let nuevos = self.filtrar_hermanos(&CriterioHermano::Otros(id));
        proof {
            let pc = |q: Cuota| cumple_criterio_cuota(CriterioCuota::DeOtrosHermanos(id), q);
            let ph = |h: Hermano| cumple_criterio_hermano(CriterioHermano::Otros(id), h);
            let idxc = lema_filtro_subsecuencia(self.cuotas@, pc);
            let idxh = lema_filtro_subsecuencia(self.hermanos@, ph);
            lema_subsecuencia_cuotas(nuevas@, self.cuotas@, idxc, self.siguiente_cuota);
            lema_subsecuencia_hermanos(nuevos@, self.hermanos@, idxh, self.siguiente_hermano);
            lema_refs_familia_subsecuencia(nuevos@, self.hermanos@, idxh, self.familias@);
            assert forall|a: int| 0 <= a < nuevas@.len() implies existe_hermano(
                nuevos@,
                (#[trigger] nuevas@[a]).hermano_id,
            ) by {
                let c = nuevas@[a];
                assert(c == self.cuotas@[idxc[a]]);
                assert(pc(c));
                let hid = c.hermano_id;
                assert(existe_hermano(self.hermanos@, hid));
                let k = choose|k: int| 0 <= k < self.hermanos@.len() && (#[trigger] self.hermanos@[k]).id == Some(hid);
                self.hermanos@.lemma_filter_contains(ph, k);
                assert(nuevos@.contains(self.hermanos@[k]));
                let j = choose|j: int| 0 <= j < nuevos@.len() && nuevos@[j] == self.hermanos@[k];
                assert(nuevos@[j].id == Some(hid));
            }
            if bajas_con_fecha(self.hermanos@) {
                assert forall|a: int| 0 <= a < nuevos@.len() implies con_fecha_de_baja(#[trigger] nuevos@[a]) by {
                    assert(nuevos@[a] == self.hermanos@[idxh[a]]);
                }
            }
        }
        self.cuotas = nuevas;
        self.hermanos = nuevos;
        Ok(())
    }

    /// ¿Tiene la familia algún hermano activo?
    fn familia_con_activos(&self, familia_id: i32) -> (r: bool)
        ensures
            r == tiene_hermanos_activos(self.hermanos(), familia_id),
    {
        let mut i: usize = 0;
        while i < self.hermanos.len()
            invariant
                i <= self.hermanos@.len(),
                forall|k: int| 0 <= k < i ==>
                    !((#[trigger] self.hermanos@[k]).activo && self.hermanos@[k].familia_id == Some(familia_id)),
            decreases self.hermanos@.len() - i,
        {
            if self.hermanos[i].activo && self.hermanos[i].familia_id == Some(familia_id) {
                return true;
            }
            i = i + 1;
        }
        false
    }

    /// Borra la familia con ese id, dejando sin familia a sus hermanos. Se
    /// rechaza si la familia aún tiene hermanos activos. Si no existe, no hace
    /// nada.
    pub fn delete_familia(&mut self, id: i32) -> (r: Result<(), DbError>)
        requires
            old(self).wf(),
        ensures
            final(self).wf(),
            bajas_con_fecha(old(self).hermanos()) ==> bajas_con_fecha(final(self).hermanos()),
            r is Err <==> tiene_hermanos_activos(old(self).hermanos(), id),
            r matches Err(e) ==> e == DbError::FamiliaConHermanosActivos && *final(self) == *old(self),
            r is Ok ==> {
                &&& final(self).familias() == familias_que_cumplen(old(self).familias(), CriterioFamilia::Otras(id))
                &&& final(self).hermanos().len() == old(self).hermanos().len()
                &&& forall|i: int| 0 <= i < old(self).hermanos().len() ==>
                    #[trigger] final(self).hermanos()[i] == sin_familia(old(self).hermanos()[i], id)
                &&& final(self).cuotas() == old(self).cuotas()
                &&& final(self).configuracion() == old(self).configuracion()
                &&& final(self).sig_hermano() == old(self).sig_hermano()
                &&& final(self).sig_familia() == old(self).sig_familia()
                &&& final(self).sig_cuota() == old(self).sig_cuota()
            },
    {
        if self.familia_con_activos(id) {
            return Err(DbError::FamiliaConHermanosActivos);
        }
        let mut nuevos: Vec<Hermano> = Vec::new();
        let mut i: usize = 0;
        while i < self.hermanos.len()
            invariant
                i <= self.hermanos@.len(),
                nuevos@.len() == i,
                forall|k: int| 0 <= k < i ==> #[trigger] nuevos@[k] == sin_familia(self.hermanos@[k], id),
            decreases self.hermanos@.len() - i,
        {
            let mut h = self.hermanos[i].copia();
            if h.familia_id == Some(id) {
                h.familia_id = None;
            }
            nuevos.push(h);
            i = i + 1;
        }
        let nuevas = self.filtrar_familias(&CriterioFamilia::Otras(id));
        proof {
            let hs = self.hermanos@;
            let ns = nuevos@;
            let pf = |f: Familia| cumple_criterio_familia(CriterioFamilia::Otras(id), f);
            let idxf = lema_filtro_subsecuencia(self.familias@, pf);
            lema_subsecuencia_familias(nuevas@, self.familias@, idxf, self.siguiente_familia);
            assert forall|a: int| 0 <= a < ns.len() implies (#[trigger] ns[a]).id is Some && 0 < ns[a].id.unwrap() < self.siguiente_hermano by {
                assert(ns[a] == sin_familia(hs[a], id));
            }
            assert forall|a: int, b: int| #![trigger ns[a], ns[b]] 0 <= a < b < ns.len() implies ns[a].id.unwrap() < ns[b].id.unwrap()
                && ns[a].numero_hermano@ != ns[b].numero_hermano@ by {
                assert(ns[a] == sin_familia(hs[a], id));
                assert(ns[b] == sin_familia(hs[b], id));
            }
            assert forall|a: int| 0 <= a < ns.len() implies familia_valida(nuevas@, (#[trigger] ns[a]).familia_id) by {
                assert(ns[a] == sin_familia(hs[a], id));
                if let Some(fid) = ns[a].familia_id {
                    assert(fid != id);
                    assert(existe_familia(self.familias@, fid));
                    let k = choose|k: int| 0 <= k < self.familias@.len() && (#[trigger] self.familias@[k]).id == Some(fid);
                    self.familias@.lemma_filter_contains(pf, k);
                    assert(nuevas@.contains(self.familias@[k]));
                    let j = choose|j: int| 0 <= j < nuevas@.len() && nuevas@[j] == self.familias@[k];
                    assert(nuevas@[j].id == Some(fid));
                }
            }
            assert forall|a: int| 0 <= a < self.cuotas@.len() implies existe_hermano(ns, (#[trigger] self.cuotas@[a]).hermano_id) by {
                let hid = self.cuotas@[a].hermano_id;
                assert(existe_hermano(hs, hid));
                let k = choose|k: int| 0 <= k < hs.len() && (#[trigger] hs[k]).id == Some(hid);
                assert(ns[k] == sin_familia(hs[k], id));
            }
        }
        self.hermanos = nuevos;
        self.familias = nuevas;
        Ok(())
    }

    // -----------------------------------------------------------------------
    // Modificaciones
    // -----------------------------------------------------------------------

    /// Sustituye los datos del hermano `id` por los de `h` (salvo id y marcas
    /// de tiempo). Si no existe, no hace nada.
    pub fn update_hermano(&mut self, id: i32, h: &Hermano) -> (r: Result<(), DbError>)
        requires
            old(self).wf(),
        ensures
            final(self).wf(),
            r is Err <==> error_modificacion_hermano(*old(self), id, *h) is Some,
            r matches Err(e) ==> error_modificacion_hermano(*old(self), id, *h) == Some(e) && *final(self) == *old(self),
            bajas_con_fecha(old(self).hermanos()) ==> bajas_con_fecha(final(self).hermanos()),
            r is Ok ==> {
                &&& final(self).hermanos().len() == old(self).hermanos().len()
                &&& forall|i: int| 0 <= i < old(self).hermanos().len() ==> #[trigger] final(self).hermanos()[i]
                    == if old(self).hermanos()[i].id == Some(id) {
                        hermano_modificado(old(self).hermanos()[i], *h)
                    } else {
                        old(self).hermanos()[i]
                    }
                &&& final(self).sig_hermano() == old(self).sig_hermano()
                &&& solo_cambian_hermanos(*old(self), *final(self))
            },
    {
        let pos = self.posicion_hermano(id);
        let k = match pos {
            None => {
                return Ok(());
            },
            Some(k) => k,
        };
        if self.numero_usado(&h.numero_hermano, Some(id)) {
            return Err(DbError::NumeroHermanoDuplicado);
        }
        if self.dni_usado(&h.dni, Some(id)) {
            return Err(DbError::DniDuplicado);
        }
        if !self.familia_correcta(h.familia_id) {
            return Err(DbError::FamiliaNoExiste);
        }
        if !h.activo && h.fecha_baja.is_none() {
            return Err(DbError::FechaBajaObligatoria);
        }
        let mut nuevo = h.copia();
        nuevo.id = Some(id);
        nuevo.created_at = crate::modelo::copiar_texto_opcional(&self.hermanos[k].created_at);
        nuevo.updated_at = crate::modelo::copiar_texto_opcional(&self.hermanos[k].updated_at);
        let ghost hs = self.hermanos@;
        self.hermanos.set(k, nuevo);
        proof {
            let ns = self.hermanos@;
            assert(ns[k as int] == hermano_modificado(hs[k as int], *h));
            assert forall|i: int| 0 <= i < hs.len() && i != k implies hs[i].id != Some(id) by {
                if i < k {
                    assert(hs[i].id.unwrap() < hs[k as int].id.unwrap());
                } else {
                    assert(hs[k as int].id.unwrap() < hs[i].id.unwrap());
                }
            }
            assert forall|a: int, b: int| #![trigger ns[a], ns[b]] 0 <= a < b < ns.len() implies ns[a].id.unwrap() < ns[b].id.unwrap()
                && ns[a].numero_hermano@ != ns[b].numero_hermano@ by {
                assert(hs[a].id != Some(id) || a == k);
                assert(hs[b].id != Some(id) || b == k);
            }
            assert forall|a: int| 0 <= a < self.cuotas@.len() implies existe_hermano(ns, (#[trigger] self.cuotas@[a]).hermano_id) by {
                let hid = self.cuotas@[a].hermano_id;
                assert(existe_hermano(hs, hid));
                let j = choose|j: int| 0 <= j < hs.len() && (#[trigger] hs[j]).id == Some(hid);
                assert(ns[j].id == Some(hid));
            }
        }
        Ok(())
    }

    /// Cambia la familia del hermano `hermano_id` (o lo deja sin familia).
    pub fn update_hermano_familia(&mut self, hermano_id: i32, familia_id: Option<i32>) -> (r: Result<(), DbError>)
        requires
            old(self).wf(),
        ensures
            final(self).wf(),
            bajas_con_fecha(old(self).hermanos()) ==> bajas_con_fecha(final(self).hermanos()),
            r is Err <==> existe_hermano(old(self).hermanos(), hermano_id) && !familia_valida(old(self).familias(), familia_id),
            r matches Err(e) ==> e == DbError::FamiliaNoExiste && *final(self) == *old(self),
            r is Ok ==> {
                &&& final(self).hermanos().len() == old(self).hermanos().len()
                &&& forall|i: int| 0 <= i < old(self).hermanos().len() ==> #[trigger] final(self).hermanos()[i]
                    == if old(self).hermanos()[i].id == Some(hermano_id) {
                        Hermano { familia_id: familia_id, ..old(self).hermanos()[i] }
                    } else {
                        old(self).hermanos()[i]
                    }
                &&& final(self).sig_hermano() == old(self).sig_hermano()
                &&& solo_cambian_hermanos(*old(self), *final(self))
            },
    {
        let k = match self.posicion_hermano(hermano_id) {
            None => {
                return Ok(());
            },
            Some(k) => k,
        };
        if !self.familia_correcta(familia_id) {
            return Err(DbError::FamiliaNoExiste);
        }
        let mut nuevo = self.hermanos[k].copia();
        nuevo.familia_id = familia_id;
        let ghost hs = self.hermanos@;
        self.hermanos.set(k, nuevo);
        proof {
            let ns = self.hermanos@;
            assert forall|i: int| 0 <= i < hs.len() && i != k implies hs[i].id != Some(hermano_id) by {
                if i < k {
                    assert(hs[i].id.unwrap() < hs[k as int].id.unwrap());
                } else {
                    assert(hs[k as int].id.unwrap() < hs[i].id.unwrap());
                }
            }
            assert forall|a: int, b: int| #![trigger ns[a], ns[b]] 0 <= a < b < ns.len() implies ns[a].id.unwrap() < ns[b].id.unwrap()
                && ns[a].numero_hermano@ != ns[b].numero_hermano@ by {
                assert(hs[a] == ns[a] || a == k);
                assert(hs[b] == ns[b] || b == k);
            }
            assert forall|a: int| 0 <= a < self.cuotas@.len() implies existe_hermano(ns, (#[trigger] self.cuotas@[a]).hermano_id) by {
                let hid = self.cuotas@[a].hermano_id;
                assert(existe_hermano(hs, hid));
                let j = choose|j: int| 0 <= j < hs.len() && (#[trigger] hs[j]).id == Some(hid);
                assert(ns[j].id == Some(hid));
            }
        }
        Ok(())
    }

    /// Da de baja (marca como inactivo) al hermano `id`. Sus datos y cuotas se conservan.
    pub fn set_hermano_inactive(&mut self, id: i32, fecha_baja: &str) -> (r: Result<(), DbError>)
        requires
            old(self).wf(),
        ensures
            final(self).wf(),
            r is Ok,
            final(self).hermanos().len() == old(self).hermanos().len(),
            forall|i: int| 0 <= i < old(self).hermanos().len() ==>
                if old(self).hermanos()[i].id == Some(id) {
                    de_baja_como(old(self).hermanos()[i], #[trigger] final(self).hermanos()[i], fecha_baja@)
                } else {
                    final(self).hermanos()[i] == old(self).hermanos()[i]
                },
            bajas_con_fecha(old(self).hermanos()) ==> bajas_con_fecha(final(self).hermanos()),
            final(self).sig_hermano() == old(self).sig_hermano(),
            solo_cambian_hermanos(*old(self), *final(self)),
    {
        let k = match self.posicion_hermano(id) {
            None => {
                return Ok(());
            },
            Some(k) => k,
        };
        let mut nuevo = self.hermanos[k].copia();
        nuevo.activo = false;
        nuevo.fecha_baja = Some(String::from_str(fecha_baja));
        let ghost hs = self.hermanos@;
        self.hermanos.set(k, nuevo);
        proof {
            let ns = self.hermanos@;
            assert forall|i: int| 0 <= i < hs.len() && i != k implies hs[i].id != Some(id) by {
                if i < k {
                    assert(hs[i].id.unwrap() < hs[k as int].id.unwrap());
                } else {
                    assert(hs[k as int].id.unwrap() < hs[i].id.unwrap());
                }
            }
            assert forall|a: int, b: int| #![trigger ns[a], ns[b]] 0 <= a < b < ns.len() implies ns[a].id.unwrap() < ns[b].id.unwrap()
                && ns[a].numero_hermano@ != ns[b].numero_hermano@ by {
                assert(hs[a] == ns[a] || a == k);
                assert(hs[b] == ns[b] || b == k);
            }
            assert forall|a: int| 0 <= a < self.cuotas@.len() implies existe_hermano(ns, (#[trigger] self.cuotas@[a]).hermano_id) by {
                let hid = self.cuotas@[a].hermano_id;
                assert(existe_hermano(hs, hid));
                let j = choose|j: int| 0 <= j < hs.len() && (#[trigger] hs[j]).id == Some(hid);
                assert(ns[j].id == Some(hid));
            }
        }
        Ok(())
    }

    /// Cambia el nombre y el hermano de referencia de la familia `id`. Si no
    /// existe, no hace nada.
    pub fn update_familia(&mut self, id: i32, f: &Familia) -> (r: Result<(), DbError>)
        requires
            old(self).wf(),
        ensures
            final(self).wf(),
            r is Err <==> error_modificacion_familia(*old(self), id, *f) is Some,
            r matches Err(e) ==> error_modificacion_familia(*old(self), id, *f) == Some(e) && *final(self) == *old(self),
            r is Ok ==> {
                &&& final(self).familias().len() == old(self).familias().len()
                &&& forall|i: int| 0 <= i < old(self).familias().len() ==> #[trigger] final(self).familias()[i]
                    == if old(self).familias()[i].id == Some(id) {
                        familia_modificada(old(self).familias()[i], *f)
                    } else {
                        old(self).familias()[i]
                    }
                &&& final(self).sig_familia() == old(self).sig_familia()
                &&& solo_cambian_familias(*old(self), *final(self))
            },
    {
        let k = match self.posicion_familia(id) {
            None => {
                return Ok(());
            },
            Some(k) => k,
        };
        if self.nombre_familia_usado(&f.nombre_familia, Some(id)) {
            return Err(DbError::NombreFamiliaDuplicado);
        }
        let mut nueva = f.copia();
        nueva.id = Some(id);
        nueva.created_at = crate::modelo::copiar_texto_opcional(&self.familias[k].created_at);
        nueva.updated_at = crate::modelo::copiar_texto_opcional(&self.familias[k].updated_at);
        let ghost fs = self.familias@;
        self.familias.set(k, nueva);
        proof {
            let ns = self.familias@;
            assert forall|i: int| 0 <= i < fs.len() && i != k implies fs[i].id != Some(id) by {
                if i < k {
                    assert(fs[i].id.unwrap() < fs[k as int].id.unwrap());
                } else {
                    assert(fs[k as int].id.unwrap() < fs[i].id.unwrap());
                }
            }
            assert forall|a: int, b: int| #![trigger ns[a], ns[b]] 0 <= a < b < ns.len() implies ns[a].id.unwrap() < ns[b].id.unwrap()
                && ns[a].nombre_familia@ != ns[b].nombre_familia@ by {
                assert(fs[a].id != Some(id) || a == k);
                assert(fs[b].id != Some(id) || b == k);
            }
            assert forall|a: int| 0 <= a < self.hermanos@.len() implies familia_valida(ns, (#[trigger] self.hermanos@[a]).familia_id) by {
                if let Some(fid) = self.hermanos@[a].familia_id {
                    assert(existe_familia(fs, fid));
                    let j = choose|j: int| 0 <= j < fs.len() && (#[trigger] fs[j]).id == Some(fid);
                    assert(ns[j].id == Some(fid));
                }
            }
        }
        Ok(())
    }

    /// Sustituye los datos de la cuota `id` por los de `c` (salvo id y marcas
    /// de tiempo). Si no existe, no hace nada.
    pub fn update_cuota(&mut self, id: i32, c: &Cuota) -> (r: Result<(), DbError>)
        requires
            old(self).wf(),
        ensures
            final(self).wf(),
            r is Err <==> error_modificacion_cuota(*old(self), id, *c) is Some,
            r matches Err(e) ==> error_modificacion_cuota(*old(self), id, *c) == Some(e) && *final(self) == *old(self),
            r is Ok ==> {
                &&& final(self).cuotas().len() == old(self).cuotas().len()
                &&& forall|i: int| 0 <= i < old(self).cuotas().len() ==> #[trigger] final(self).cuotas()[i]
                    == if old(self).cuotas()[i].id == Some(id) {
                        cuota_modificada(old(self).cuotas()[i], *c)
                    } else {
                        old(self).cuotas()[i]
                    }
                &&& final(self).sig_cuota() == old(self).sig_cuota()
                &&& solo_cambian_cuotas(*old(self), *final(self))
            },
    {
        let k = match self.posicion_cuota(id) {
            None => {
                return Ok(());
            },
            Some(k) => k,
        };
        if self.cuota_usada(c.hermano_id, c.anio, Some(id)) {
            return Err(DbError::CuotaDuplicada);
        }
        if self.posicion_hermano(c.hermano_id).is_none() {
            return Err(DbError::HermanoNoExiste);
        }
        let mut nueva = c.copia();
        nueva.id = Some(id);
        nueva.created_at = crate::modelo::copiar_texto_opcional(&self.cuotas[k].created_at);
        nueva.updated_at = crate::modelo::copiar_texto_opcional(&self.cuotas[k].updated_at);
        let ghost cs = self.cuotas@;
        self.cuotas.set(k, nueva);
        proof {
            let ns = self.cuotas@;
            assert forall|i: int| 0 <= i < cs.len() && i != k implies cs[i].id != Some(id) by {
                if i < k {
                    assert(cs[i].id.unwrap() < cs[k as int].id.unwrap());
                } else {
                    assert(cs[k as int].id.unwrap() < cs[i].id.unwrap());
                }
            }
            assert forall|a: int, b: int| #![trigger ns[a], ns[b]] 0 <= a < b < ns.len() implies ns[a].id.unwrap() < ns[b].id.unwrap()
                && !(ns[a].hermano_id == ns[b].hermano_id && ns[a].anio == ns[b].anio) by {
                assert(cs[a].id != Some(id) || a == k);
                assert(cs[b].id != Some(id) || b == k);
            }
            assert forall|a: int| 0 <= a < ns.len() implies existe_hermano(self.hermanos@, (#[trigger] ns[a]).hermano_id) by {
                if a != k {
                    assert(ns[a] == cs[a]);
                }
            }
        }
        Ok(())
    }

    // -----------------------------------------------------------------------
    // Cobros
    // -----------------------------------------------------------------------

    /// Marca la cuota `id` como pagada en `fecha_pago` con `metodo_pago`.
    pub fn marcar_cuota_pagada(&mut self, id: i32, fecha_pago: &str, metodo_pago: &str) -> (r: Result<(), DbError>)
        requires
            old(self).wf(),
        ensures
            final(self).wf(),
            r is Ok,
            final(self).cuotas().len() == old(self).cuotas().len(),
            forall|i: int| 0 <= i < old(self).cuotas().len() ==> if old(self).cuotas()[i].id == Some(id) {
                pagada_como(old(self).cuotas()[i], #[trigger] final(self).cuotas()[i], fecha_pago@, metodo_pago@)
            } else {
                final(self).cuotas()[i] == old(self).cuotas()[i]
            },
            final(self).sig_cuota() == old(self).sig_cuota(),
            solo_cambian_cuotas(*old(self), *final(self)),
    {
        let k = match self.posicion_cuota(id) {
            None => {
                return Ok(());
            },
            Some(k) => k,
        };
        let mut nueva = self.cuotas[k].copia();
        nueva.pagado = true;
        nueva.fecha_pago = Some(String::from_str(fecha_pago));
        nueva.metodo_pago = Some(String::from_str(metodo_pago));
        let ghost cs = self.cuotas@;
        self.cuotas.set(k, nueva);
        proof {
            let ns = self.cuotas@;
            assert forall|i: int| 0 <= i < cs.len() && i != k implies cs[i].id != Some(id) by {
                if i < k {
                    assert(cs[i].id.unwrap() < cs[k as int].id.unwrap());
                } else {
                    assert(cs[k as int].id.unwrap() < cs[i].id.unwrap());
                }
            }
            assert forall|a: int, b: int| #![trigger ns[a], ns[b]] 0 <= a < b < ns.len() implies ns[a].id.unwrap() < ns[b].id.unwrap()
                && !(ns[a].hermano_id == ns[b].hermano_id && ns[a].anio == ns[b].anio) by {
                assert(cs[a] == ns[a] || a == k);
                assert(cs[b] == ns[b] || b == k);
            }
            assert forall|a: int| 0 <= a < ns.len() implies existe_hermano(self.hermanos@, (#[trigger] ns[a]).hermano_id) by {
                assert(cs[a].hermano_id == ns[a].hermano_id);
            }
        }
        Ok(())
    }

    /// ¿Pertenece el hermano `hermano_id` a la familia `familia_id`?
    fn es_de_familia(&self, hermano_id: i32, familia_id: i32) -> (r: bool)
        ensures
            r == hermano_de_familia(self.hermanos(), hermano_id, familia_id),
    {
        let mut i: usize = 0;
        while i < self.hermanos.len()
            invariant
                i <= self.hermanos@.len(),
                forall|k: int| 0 <= k < i ==>
                    !((#[trigger] self.hermanos@[k]).id == Some(hermano_id) && self.hermanos@[k].familia_id == Some(familia_id)),
            decreases self.hermanos@.len() - i,
        {
            if self.hermanos[i].id == Some(hermano_id) && self.hermanos[i].familia_id == Some(familia_id) {
                return true;
            }
            i = i + 1;
        }
        false
    }

    /// Paga de una vez las cuotas pendientes de `anio` de todos los hermanos de
    /// la familia. Devuelve cuántas cuotas se han pagado.
    pub fn pagar_cuotas_familia(
        &mut self,
        familia_id: i32,
        anio: i32,
        fecha_pago: &str,
        metodo_pago: &str,
    ) -> (r: Result<i32, DbError>)
        requires
            old(self).wf(),
        ensures
            final(self).wf(),
            r == Ok::<i32, DbError>(cuotas_pago_familia(old(self).hermanos(), old(self).cuotas(), familia_id, anio).len() as i32),
            final(self).cuotas().len() == old(self).cuotas().len(),
            forall|i: int| 0 <= i < old(self).cuotas().len() ==>
                if afecta_pago_familia(old(self).hermanos(), familia_id, anio, old(self).cuotas()[i]) {
                    pagada_como(old(self).cuotas()[i], #[trigger] final(self).cuotas()[i], fecha_pago@, metodo_pago@)
                } else {
                    final(self).cuotas()[i] == old(self).cuotas()[i]
                },
            final(self).sig_cuota() == old(self).sig_cuota(),
            solo_cambian_cuotas(*old(self), *final(self)),
    {
        let ghost cs = self.cuotas@;
        let ghost hs = self.hermanos@;
        let ghost p = |c: Cuota| afecta_pago_familia(hs, familia_id, anio, c);
        let mut nuevas: Vec<Cuota> = Vec::new();
        let mut cuenta: usize = 0;
        let mut i: usize = 0;
        proof {
            lema_filtro_inicio(cs, p);
        }
        while i < self.cuotas.len()
            invariant
                cs == self.cuotas@,
                hs == self.hermanos@,
                p == (|c: Cuota| afecta_pago_familia(hs, familia_id, anio, c)),
                i <= cs.len(),
                cs.len() < self.siguiente_cuota,
                nuevas@.len() == i,
                cuenta == cs.take(i as int).filter(p).len(),
                forall|k: int| 0 <= k < i ==> if p(cs[k]) {
                    pagada_como(cs[k], #[trigger] nuevas@[k], fecha_pago@, metodo_pago@)
                } else {
                    nuevas@[k] == cs[k]
                },
            decreases cs.len() - i,
        {
            proof {
                lema_paso_filtro(cs, p, i as int);
            }
            let mut c = self.cuotas[i].copia();
            if c.anio == anio && !c.pagado && self.es_de_familia(c.hermano_id, familia_id) {
                c.pagado = true;
                c.fecha_pago = Some(String::from_str(fecha_pago));
                c.metodo_pago = Some(String::from_str(metodo_pago));
                cuenta = cuenta + 1;
            }
            nuevas.push(c);
            i = i + 1;
        }
        proof {
            assert(cs.take(cs.len() as int) =~= cs);
            let ns = nuevas@;
            assert forall|a: int| 0 <= a < ns.len() implies (#[trigger] ns[a]).id == cs[a].id && ns[a].hermano_id == cs[a].hermano_id
                && ns[a].anio == cs[a].anio by {
                if p(cs[a]) {
                    assert(pagada_como(cs[a], ns[a], fecha_pago@, metodo_pago@));
                }
            }
            assert forall|a: int, b: int| #![trigger ns[a], ns[b]] 0 <= a < b < ns.len() implies ns[a].id.unwrap() < ns[b].id.unwrap()
                && !(ns[a].hermano_id == ns[b].hermano_id && ns[a].anio == ns[b].anio) by {
                assert(ns[a].id == cs[a].id && ns[b].id == cs[b].id);
            }
            assert forall|a: int| 0 <= a < ns.len() implies (#[trigger] ns[a]).id is Some && 0 < ns[a].id.unwrap() < self.siguiente_cuota by {
                assert(ns[a].id == cs[a].id);
            }
            assert forall|a: int| 0 <= a < ns.len() implies existe_hermano(hs, (#[trigger] ns[a]).hermano_id) by {
                assert(ns[a].hermano_id == cs[a].hermano_id);
            }
        }
        self.cuotas = nuevas;
        Ok(cuenta as i32)
    }

    /// Marca como emitido el recibo de cada cuota cuyo id está en la lista.
    pub fn marcar_recibos_generados(&mut self, cuotas_ids: &Vec<i32>, ahora: &str) -> (r: Result<(), DbError>)
        requires
            old(self).wf(),
        ensures
            final(self).wf(),
            r is Ok,
            final(self).cuotas().len() == old(self).cuotas().len(),
            forall|i: int| 0 <= i < old(self).cuotas().len() ==>
                if cuotas_ids@.contains(old(self).cuotas()[i].id.unwrap()) {
                    recibo_marcado(old(self).cuotas()[i], #[trigger] final(self).cuotas()[i], ahora@)
                } else {
                    final(self).cuotas()[i] == old(self).cuotas()[i]
                },
            final(self).sig_cuota() == old(self).sig_cuota(),
            solo_cambian_cuotas(*old(self), *final(self)),
    {
        let ghost cs = self.cuotas@;
        let mut nuevas: Vec<Cuota> = Vec::new();
        let mut i: usize = 0;
        while i < self.cuotas.len()
            invariant
                cs == self.cuotas@,
                ids_cuotas_ok(cs, self.siguiente_cuota),
                i <= cs.len(),
                nuevas@.len() == i,
                forall|k: int| 0 <= k < i ==> if cuotas_ids@.contains(cs[k].id.unwrap()) {
                    recibo_marcado(cs[k], #[trigger] nuevas@[k], ahora@)
                } else {
                    nuevas@[k] == cs[k]
                },
            decreases cs.len() - i,
        {
            let mut c = self.cuotas[i].copia();
            let mut j: usize = 0;
            let mut esta = false;
            let cid = match c.id {
                Some(x) => x,
                None => 0,
            };
            while j < cuotas_ids.len()
                invariant
                    j <= cuotas_ids@.len(),
                    esta == (exists|t: int| 0 <= t < j && cuotas_ids@[t] == cid),
                decreases cuotas_ids@.len() - j,
            {
                if cuotas_ids[j] == cid {
                    esta = true;
                }
                j = j + 1;
            }
            proof {
                assert(cs[i as int].id is Some);
                if esta {
                    let t = choose|t: int| 0 <= t < cuotas_ids@.len() && cuotas_ids@[t] == cid;
                    assert(cuotas_ids@[t] == cid);
                    assert(cuotas_ids@.contains(cid));
                } else {
                    assert(!cuotas_ids@.contains(cid));
                }
            }
            if esta && c.id.is_some() {
                c.recibo = true;
                c.updated_at = Some(String::from_str(ahora));
            }
            nuevas.push(c);
            i = i + 1;
        }
        proof {
            let ns = nuevas@;
            assert forall|a: int, b: int| #![trigger ns[a], ns[b]] 0 <= a < b < ns.len() implies ns[a].id.unwrap() < ns[b].id.unwrap()
                && !(ns[a].hermano_id == ns[b].hermano_id && ns[a].anio == ns[b].anio) by {
                assert(ns[a].id == cs[a].id && ns[b].id == cs[b].id);
            }
            assert forall|a: int| 0 <= a < ns.len() implies (#[trigger] ns[a]).id is Some && 0 < ns[a].id.unwrap() < self.siguiente_cuota by {
                assert(ns[a].id == cs[a].id);
            }
            assert forall|a: int| 0 <= a < ns.len() implies existe_hermano(self.hermanos@, (#[trigger] ns[a]).hermano_id) by {
                assert(ns[a].hermano_id == cs[a].hermano_id);
            }
        }
        self.cuotas = nuevas;
        Ok(())
    }

    // -----------------------------------------------------------------------
    // Generación de cuotas y estadísticas
    // -----------------------------------------------------------------------

    /// Crea la cuota de `anio`, con el importe dado, a cada hermano activo que
    /// aún no la tenga. Devuelve cuántas se han creado.
    pub fn generar_cuotas_anio(&mut self, anio: i32, importe_centimos: i64) -> (r: Result<i32, DbError>)
        requires
            old(self).wf(),
        ensures
            final(self).wf(),
            r is Err <==> old(self).sig_cuota() + hermanos_sin_cuota(old(self).hermanos(), old(self).cuotas(), anio).len() > i32::MAX,
            r matches Err(e) ==> e == DbError::IdsAgotados && *final(self) == *old(self),
            r matches Ok(n) ==> {
                let faltan = hermanos_sin_cuota(old(self).hermanos(), old(self).cuotas(), anio);
                &&& n == faltan.len()
                &&& final(self).cuotas() == old(self).cuotas() + Seq::new(
                    faltan.len(),
                    |k: int| cuota_generada(faltan[k].id.unwrap(), anio, importe_centimos, old(self).sig_cuota() + k),
                )
                &&& final(self).sig_cuota() == old(self).sig_cuota() + n
                &&& solo_cambian_cuotas(*old(self), *final(self))
            },
    {
        let ghost hs = self.hermanos@;
        let ghost cs = self.cuotas@;
        let ghost p = |h: Hermano| h.activo && !cuota_en_uso(cs, h.id.unwrap(), anio, None);
        let mut faltan: Vec<Hermano> = Vec::new();
        let mut i: usize = 0;
        proof {
            lema_filtro_inicio(hs, p);
        }
        while i < self.hermanos.len()
            invariant
                hs == self.hermanos@,
                cs == self.cuotas@,
                p == (|h: Hermano| h.activo && !cuota_en_uso(cs, h.id.unwrap(), anio, None)),
                ids_hermanos_ok(hs, self.siguiente_hermano),
                i <= hs.len(),
                faltan@ == hs.take(i as int).filter(p),
            decreases hs.len() - i,
        {
            proof {
                lema_paso_filtro(hs, p, i as int);
            }
            let h = &self.hermanos[i];
            let hid = match h.id {
                Some(x) => x,
                None => 0,
            };
            if h.activo && !self.cuota_usada(hid, anio, None) {
                faltan.push(h.copia());
            }
            i = i + 1;
        }
        proof {
            assert(hs.take(hs.len() as int) =~= hs);
        }
        let n = faltan.len();
        let sig = self.siguiente_cuota;
        if n as i64 + sig as i64 > i32::MAX as i64 {
            return Err(DbError::IdsAgotados);
        }
        let ghost idx = lema_filtro_subsecuencia(hs, p);
        proof {
            lema_subsecuencia_hermanos(faltan@, hs, idx, self.siguiente_hermano);
        }
        let ghost nuevas = Seq::new(
            faltan@.len(),
            |k: int| cuota_generada(faltan@[k].id.unwrap(), anio, importe_centimos, sig + k),
        );
        let mut k: usize = 0;
        while k < n
            invariant
                n == faltan@.len(),
                sig as int + n <= i32::MAX,
                k <= n,
                nuevas == Seq::new(
                    faltan@.len(),
                    |k: int| cuota_generada(faltan@[k].id.unwrap(), anio, importe_centimos, sig + k),
                ),
                tabla_hermanos_ok(faltan@, self.siguiente_hermano),
                self.cuotas@ == cs + nuevas.take(k as int),
                self.hermanos@ == old(self).hermanos@,
                self.familias@ == old(self).familias@,
                self.configuracion_recibo == old(self).configuracion_recibo,
                self.siguiente_hermano == old(self).siguiente_hermano,
                self.siguiente_familia == old(self).siguiente_familia,
                self.siguiente_cuota == old(self).siguiente_cuota,
                sig == old(self).siguiente_cuota,
                cs == old(self).cuotas@,
                hs == old(self).hermanos@,
                old(self).wf(),
            decreases n - k,
        {
            let hid = match faltan[k].id {
                Some(x) => x,
                None => 0,
            };
            let c = Cuota {
                id: Some(sig + k as i32),
                hermano_id: hid,
                anio: anio,
                importe_centimos: importe_centimos,
                pagado: false,
                fecha_pago: None,
                metodo_pago: None,
                observaciones: None,
                recibo: false,
                created_at: None,
                updated_at: None,
            };
            proof {
                assert(c == nuevas[k as int]);
                assert(nuevas.take(k as int + 1) =~= nuevas.take(k as int).push(c));
            }
            self.cuotas.push(c);
            k = k + 1;
        }
        self.siguiente_cuota = sig + n as i32;
        proof {
            assert(nuevas.take(n as int) =~= nuevas);
            let ns = self.cuotas@;
            assert(ns == cs + nuevas);
            assert forall|a: int| 0 <= a < ns.len() implies (#[trigger] ns[a]).id is Some && 0 < ns[a].id.unwrap() < self.siguiente_cuota by {
                if a >= cs.len() {
                    assert(ns[a] == nuevas[a - cs.len()]);
                }
            }
            assert forall|a: int, b: int| #![trigger ns[a], ns[b]] 0 <= a < b < ns.len() implies ns[a].id.unwrap() < ns[b].id.unwrap()
                && !(ns[a].hermano_id == ns[b].hermano_id && ns[a].anio == ns[b].anio) by {
                if b >= cs.len() {
                    let kb = b - cs.len();
                    assert(ns[b] == nuevas[kb]);
                    assert(faltan@[kb] == hs[idx[kb]]);
                    assert(p(faltan@[kb]));
                    if a >= cs.len() {
                        let ka = a - cs.len();
                        assert(ns[a] == nuevas[ka]);
                        assert(faltan@[ka].id.unwrap() < faltan@[kb].id.unwrap());
                    } else {
                        assert(ns[a] == cs[a]);
                        if ns[a].hermano_id == ns[b].hermano_id && ns[a].anio == ns[b].anio {
                            assert(cuota_en_uso(cs, faltan@[kb].id.unwrap(), anio, None));
                        }
                    }
                } else {
                    assert(ns[a] == cs[a]);
                    assert(ns[b] == cs[b]);
                }
            }
            assert forall|a: int| 0 <= a < ns.len() implies existe_hermano(hs, (#[trigger] ns[a]).hermano_id) by {
                if a >= cs.len() {
                    let ka = a - cs.len();
                    assert(ns[a] == nuevas[ka]);
                    assert(faltan@[ka] == hs[idx[ka]]);
                    assert(hs[idx[ka]].id == Some(ns[a].hermano_id));
                } else {
                    assert(ns[a] == cs[a]);
                }
            }
        }
        Ok(n as i32)
    }

    /// Resumen de cobro del año dado (o de todos los años si es `None`).
    pub fn get_estadisticas_cuotas(&self, anio: Option<i32>) -> (r: Result<EstadisticasCuotas, DbError>)
        requires
            self.wf(),
        ensures
            r matches Ok(e) && {
                &&& e.total_recaudado_centimos == suma_importes(cuotas_pagadas_en(self.cuotas(), anio))
                &&& e.cuotas_pendientes == cuotas_pendientes_en(self.cuotas(), anio).len()
                &&& e.cuotas_pagadas == cuotas_pagadas_en(self.cuotas(), anio).len()
                &&& e.hermanos_al_dia == hermanos_al_dia(self.hermanos(), self.cuotas(), anio).len()
                &&& e.hermanos_morosos == hermanos_morosos(self.hermanos(), self.cuotas(), anio).len()
            },
    {
        let ghost cs = self.cuotas@;
        let ghost hs = self.hermanos@;
        let ghost ppag = |c: Cuota| en_periodo(c, anio) && c.pagado;
        let ghost ppen = |c: Cuota| en_periodo(c, anio) && !c.pagado;
        let mut total: i128 = 0;
        let mut pagadas: usize = 0;
        let mut pendientes: usize = 0;
        let mut i: usize = 0;
        proof {
            lema_filtro_inicio(cs, ppag);
            lema_filtro_inicio(cs, ppen);
        }
        while i < self.cuotas.len()
            invariant
                cs == self.cuotas@,
                ppag == (|c: Cuota| en_periodo(c, anio) && c.pagado),
                ppen == (|c: Cuota| en_periodo(c, anio) && !c.pagado),
                i <= cs.len(),
                cs.len() < self.siguiente_cuota,
                pagadas == cs.take(i as int).filter(ppag).len(),
                pendientes == cs.take(i as int).filter(ppen).len(),
                total == suma_importes(cs.take(i as int).filter(ppag)),
            decreases cs.len() - i,
        {
            proof {
                lema_paso_filtro(cs, ppag, i as int);
                lema_paso_filtro(cs, ppen, i as int);
                cs.take(i as int).lemma_filter_len(ppag);
                cs.take(i as int).lemma_filter_len(ppen);
                lema_cota_suma(cs.take(i as int).filter(ppag));
                let m = cs.take(i as int).filter(ppag).len();
                assert(m * 0x8000_0000_0000_0000 <= 0x8000_0000 * 0x8000_0000_0000_0000) by (nonlinear_arith)
                    requires m <= 0x8000_0000;
                lema_suma_push(cs.take(i as int).filter(ppag), cs[i as int]);
            }
            let c = &self.cuotas[i];
            let cuenta = match anio {
                Some(a) => c.anio == a,
                None => true,
            };
            if cuenta {
                if c.pagado {
                    total = total + c.importe_centimos as i128;
                    pagadas = pagadas + 1;
                } else {
                    pendientes = pendientes + 1;
                }
            }
            i = i + 1;
        }
        proof {
            assert(cs.take(cs.len() as int) =~= cs);
            cs.lemma_filter_len(ppag);
            cs.lemma_filter_len(ppen);
        }
        let ghost pdia = |h: Hermano| h.activo && !tiene_pendiente(cs, anio, h.id.unwrap());
        let ghost pmor = |h: Hermano| h.activo && tiene_pendiente(cs, anio, h.id.unwrap());
        let mut al_dia: usize = 0;
        let mut morosos: usize = 0;
        let mut j: usize = 0;
        proof {
            lema_filtro_inicio(hs, pdia);
            lema_filtro_inicio(hs, pmor);
        }
        while j < self.hermanos.len()
            invariant
                cs == self.cuotas@,
                hs == self.hermanos@,
                pdia == (|h: Hermano| h.activo && !tiene_pendiente(cs, anio, h.id.unwrap())),
                pmor == (|h: Hermano| h.activo && tiene_pendiente(cs, anio, h.id.unwrap())),
                ids_hermanos_ok(hs, self.siguiente_hermano),
                j <= hs.len(),
                al_dia == hs.take(j as int).filter(pdia).len(),
                morosos == hs.take(j as int).filter(pmor).len(),
            decreases hs.len() - j,
        {
            proof {
                lema_paso_filtro(hs, pdia, j as int);
                lema_paso_filtro(hs, pmor, j as int);
                hs.take(j as int).lemma_filter_len(pdia);
                hs.take(j as int).lemma_filter_len(pmor);
            }
            let h = &self.hermanos[j];
            if h.activo {
                let hid = match h.id {
                    Some(x) => x,
                    None => 0,
                };
                let mut debe = false;
                let mut t: usize = 0;
                while t < self.cuotas.len()
                    invariant
                        cs == self.cuotas@,
                        t <= cs.len(),
                        debe == (exists|k: int| 0 <= k < t && en_periodo(#[trigger] cs[k], anio) && cs[k].hermano_id == hid && !cs[k].pagado),
                    decreases cs.len() - t,
                {
                    let c = &self.cuotas[t];
                    let cuenta = match anio {
                        Some(a) => c.anio == a,
                        None => true,
                    };
                    if cuenta && c.hermano_id == hid && !c.pagado {
                        debe = true;
                    }
                    t = t + 1;
                }
                proof {
                    assert(hs[j as int].id == Some(hid));
                }
                if debe {
                    morosos = morosos + 1;
                } else {
                    al_dia = al_dia + 1;
                }
            }
            j = j + 1;
        }
        proof {
            assert(hs.take(hs.len() as int) =~= hs);
        }
        Ok(EstadisticasCuotas {
            total_recaudado_centimos: total,
            cuotas_pendientes: pendientes as i32,
            cuotas_pagadas: pagadas as i32,
            hermanos_al_dia: al_dia as i32,
            hermanos_morosos: morosos as i32,
        })
    }

    /// Número de hermanos de la familia y cuántos de ellos están activos.
    pub fn get_familia_stats(&self, familia_id: i32) -> (r: Result<(i32, i32), DbError>)
        requires
            self.wf(),
        ensures
            r == Ok::<(i32, i32), DbError>((
                hermanos_que_cumplen(self.hermanos(), CriterioHermano::DeFamilia(familia_id)).len() as i32,
                hermanos_que_cumplen(self.hermanos(), CriterioHermano::ActivosDeFamilia(familia_id)).len() as i32,
            )),
    {
        let todos = self.filtrar_hermanos(&CriterioHermano::DeFamilia(familia_id));
        let activos = self.filtrar_hermanos(&CriterioHermano::ActivosDeFamilia(familia_id));
        proof {
            self.hermanos@.lemma_filter_len(|h: Hermano| cumple_criterio_hermano(CriterioHermano::DeFamilia(familia_id), h));
            self.hermanos@.lemma_filter_len(|h: Hermano| cumple_criterio_hermano(CriterioHermano::ActivosDeFamilia(familia_id), h));
        }
        Ok((todos.len() as i32, activos.len() as i32))
    }

    /// La familia con ese id, si existe.
    pub fn get_familia_with_hermanos(&self, id: i32) -> (r: Result<Option<Familia>, DbError>)
        requires
            self.wf(),
        ensures
            r == Ok::<Option<Familia>, DbError>(familia_por_id(self.familias(), id)),
    {
        Ok(self.get_familia_by_id(id))
    }

    /// La familia con ese id, si existe, junto con su hermano de referencia
    /// (cuya dirección es la de la familia), si lo tiene y existe.
    pub fn get_familia_with_address(&self, id: i32) -> (r: Result<Option<FamiliaConDireccion>, DbError>)
        requires
            self.wf(),
        ensures
            r matches Ok(o) && match familia_por_id(self.familias(), id) {
                None => o is None,
                Some(f) => o matches Some(d) && d.familia == f && d.hermano_direccion == hermano_de_direccion(self.hermanos(), f),
            },
    {
        match self.get_familia_by_id(id) {
            None => Ok(None),
            Some(f) => {
                let h = match f.hermano_direccion_id {
                    Some(hid) => self.get_hermano_by_id(hid),
                    None => None,
                };
                Ok(Some(FamiliaConDireccion { familia: f, hermano_direccion: h }))
            },
        }
    }

    // -----------------------------------------------------------------------
    // Configuración de recibos
    // -----------------------------------------------------------------------

    /// La configuración de recibos guardada, si la hay.
    pub fn get_configuracion_recibo(&self) -> (r: Result<Option<ConfiguracionRecibo>, DbError>)
        ensures
            r == Ok::<Option<ConfiguracionRecibo>, DbError>(self.configuracion()),
    {
        match &self.configuracion_recibo {
            Some(c) => Ok(Some(c.copia())),
            None => Ok(None),
        }
    }

    /// Guarda (o sustituye) la configuración de recibos.
    pub fn guardar_configuracion_recibo(&mut self, config: ConfiguracionRecibo) -> (r: Result<(), DbError>)
        requires
            old(self).wf(),
        ensures
            final(self).wf(),
            r is Ok,
            final(self).configuracion() == Some(config),
            final(self).hermanos() == old(self).hermanos(),
            final(self).familias() == old(self).familias(),
            final(self).cuotas() == old(self).cuotas(),
            final(self).sig_hermano() == old(self).sig_hermano(),
            final(self).sig_familia() == old(self).sig_familia(),
            final(self).sig_cuota() == old(self).sig_cuota(),
    {
        self.configuracion_recibo = Some(config);
        Ok(())
    }

    // -----------------------------------------------------------------------
    // Alta conjunta
    // -----------------------------------------------------------------------

    /// Da de alta un hermano y, si se pide, una familia nueva para él, de la
    /// que pasa a ser el hermano de referencia. Si la familia se crea pero el
    /// hermano no, la familia queda creada.
    pub fn create_hermano_con_familia(&mut self, data: &HermanoConFamiliaData) -> (r: Result<i32, ErrorAlta>)
        requires
            old(self).wf(),
        ensures
            final(self).wf(),
            bajas_con_fecha(old(self).hermanos()) ==> bajas_con_fecha(final(self).hermanos()),
            final(self).cuotas() == old(self).cuotas(),
            final(self).configuracion() == old(self).configuracion(),
            final(self).sig_cuota() == old(self).sig_cuota(),
            data.nueva_familia_nombre is None ==> {
                &&& (r is Err <==> error_alta_hermano(*old(self), data.hermano) is Some)
                &&& (r matches Err(e) ==> e == ErrorAlta::Hermano(error_alta_hermano(*old(self), data.hermano).unwrap())
                    && *final(self) == *old(self))
                &&& (r matches Ok(id) ==> id == old(self).sig_hermano()
                    && final(self).hermanos() == old(self).hermanos().push(hermano_con_id(data.hermano, id))
                    && final(self).familias() == old(self).familias()
                    && final(self).sig_hermano() == id + 1
                    && final(self).sig_familia() == old(self).sig_familia())
            },
            data.nueva_familia_nombre matches Some(nombre) ==> {
                let f = familia_nueva(nombre);
                let fid = old(self).sig_familia();
                let sin_fam = Hermano { familia_id: None, ..data.hermano };
                let con_fam = Hermano { familia_id: Some(fid), ..data.hermano };
                &&& (error_alta_familia(*old(self), f) is Some ==> r == Err::<i32, ErrorAlta>(
                    ErrorAlta::Familia { nombre, error: error_alta_familia(*old(self), f).unwrap() })
                    && *final(self) == *old(self))
                &&& (error_alta_familia(*old(self), f) is None && error_alta_hermano(*old(self), sin_fam) is Some ==>
                    r == Err::<i32, ErrorAlta>(ErrorAlta::Hermano(error_alta_hermano(*old(self), sin_fam).unwrap()))
                    && final(self).familias() == old(self).familias().push(familia_con_id(f, fid))
                    && final(self).hermanos() == old(self).hermanos()
                    && final(self).sig_familia() == fid + 1
                    && final(self).sig_hermano() == old(self).sig_hermano())
                &&& (error_alta_familia(*old(self), f) is None && error_alta_hermano(*old(self), sin_fam) is None ==>
                    r == Ok::<i32, ErrorAlta>(old(self).sig_hermano())
                    && final(self).hermanos() == old(self).hermanos().push(hermano_con_id(con_fam, old(self).sig_hermano()))
                    && final(self).familias() == old(self).familias().push(
                        Familia { hermano_direccion_id: Some(old(self).sig_hermano()), ..familia_con_id(f, fid) })
                    && final(self).sig_familia() == fid + 1
                    && final(self).sig_hermano() == old(self).sig_hermano() + 1)
            },
    {
        match &data.nueva_familia_nombre {
            None => {
                match self.create_hermano(&data.hermano) {
                    Ok(id) => Ok(id),
                    Err(e) => Err(ErrorAlta::Hermano(e)),
                }
            },
            Some(nombre) => {
                let f = Familia {
                    id: None,
                    nombre_familia: nombre.clone(),
                    hermano_direccion_id: None,
                    created_at: None,
                    updated_at: None,
                };
                let fid = match self.create_familia(&f) {
                    Ok(fid) => fid,
                    Err(e) => {
                        return Err(ErrorAlta::Familia { nombre: nombre.clone(), error: e });
                    },
                };
                let ghost tras_familia = *self;
                let mut h = data.hermano.copia();
                h.familia_id = Some(fid);
                proof {
                    let sin_fam = Hermano { familia_id: None, ..data.hermano };
                    assert(existe_familia(self.familias(), fid)) by {
                        assert(self.familias()[self.familias().len() - 1].id == Some(fid));
                    }
                    assert(error_alta_hermano(*self, h) == error_alta_hermano(*old(self), sin_fam));
                }
                let hid = match self.create_hermano(&h) {
                    Ok(hid) => hid,
                    Err(e) => {
                        return Err(ErrorAlta::Hermano(e));
                    },
                };
                let actualizada = Familia {
                    id: Some(fid),
                    nombre_familia: nombre.clone(),
                    hermano_direccion_id: Some(hid),
                    created_at: None,
                    updated_at: None,
                };
                let ghost antes_update = *self;
                proof {
                    let fs = self.familias();
                    let k = fs.len() - 1;
                    assert(fs[k].id == Some(fid));
                    assert forall|j: int| 0 <= j < fs.len() && j != k implies fs[j].nombre_familia@ != actualizada.nombre_familia@ by {
                        assert(fs[j].nombre_familia@ != fs[k].nombre_familia@);
                    }
                    assert(!nombre_familia_en_uso(fs, actualizada.nombre_familia@, Some(fid)));
                }
                let _ = self.update_familia(fid, &actualizada);
                proof {
                    let fs0 = antes_update.familias();
                    let k = fs0.len() - 1;
                    assert forall|j: int| 0 <= j < fs0.len() && j != k implies fs0[j].id != Some(fid) by {
                        assert(fs0[j].id.unwrap() < fs0[k].id.unwrap());
                    }
                    assert(self.familias() =~= old(self).familias().push(
                        Familia { hermano_direccion_id: Some(hid), ..familia_con_id(f, fid) }));
                }
                Ok(hid)
            },
        }
    }
}

// ---------------------------------------------------------------------------
// Carga de tablas ya existentes
// ---------------------------------------------------------------------------

/// Las filas leídas de las tablas pueden formar un almacén: sus ids admiten un
/// siguiente id, las claves únicas no se repiten y las referencias apuntan a
/// filas existentes.
pub open spec fn tablas_cargables(hs: Seq<Hermano>, fs: Seq<Familia>, cs: Seq<Cuota>) -> bool {
    &&& exists|sig: i32| #[trigger] tabla_hermanos_ok(hs, sig)
    &&& exists|sig: i32| #[trigger] tabla_familias_ok(fs, sig)
    &&& exists|sig: i32| #[trigger] tabla_cuotas_ok(cs, sig)
    &&& refs_familia_ok(hs, fs)
    &&& refs_hermano_ok(cs, hs)
}

/// El mayor de dos enteros.
pub open spec fn mayor(a: int, b: int) -> int {
    if a < b { b } else { a }
}

/// Id de la última fila (0 si no hay filas).
pub open spec fn ultimo_id_hermanos_de(s: Seq<Hermano>) -> int {
    if s.len() == 0 { 0 } else { s.last().id.unwrap() as int }
}

pub open spec fn ultimo_id_familias_de(s: Seq<Familia>) -> int {
    if s.len() == 0 { 0 } else { s.last().id.unwrap() as int }
}

pub open spec fn ultimo_id_cuotas_de(s: Seq<Cuota>) -> int {
    if s.len() == 0 { 0 } else { s.last().id.unwrap() as int }
}

/// Comprueba los ids de los HermanoS (presentes, positivos y crecientes) y
/// devuelve el último (0 si no hay filas).
fn ultimo_id_hermanos(s: &Vec<Hermano>) -> (r: Option<i32>)
    ensures
        match r {
            Some(u) => u < i32::MAX && ids_hermanos_ok(s@, (u + 1) as i32) && u == ultimo_id_hermanos_de(s@),
            None => forall|sig: i32| !#[trigger] ids_hermanos_ok(s@, sig),
        },
{
    let mut ultimo: i32 = 0;
    let mut k: usize = 0;
    while k < s.len()
        invariant
            k <= s@.len(),
            k <= ultimo,
            k == 0 ==> ultimo == 0,
            k > 0 ==> s@[k - 1].id == Some(ultimo),
            forall|a: int| 0 <= a < k ==> (#[trigger] s@[a]).id is Some && 0 < s@[a].id.unwrap() <= ultimo,
            forall|a: int, b: int| #![trigger s@[a], s@[b]] 0 <= a < b < k ==> s@[a].id.unwrap() < s@[b].id.unwrap(),
        decreases s@.len() - k,
    {
        let ok = match s[k].id {
            Some(id) => id > ultimo,
            None => false,
        };
        if !ok {
            proof {
                assert forall|sig: i32| !#[trigger] ids_hermanos_ok(s@, sig) by {
                    if ids_hermanos_ok(s@, sig) && k > 0 {
                        assert(s@[k - 1].id.unwrap() < s@[k as int].id.unwrap());
                    }
                }
            }
            return None;
        }
        ultimo = s[k].id.unwrap();
        k = k + 1;
    }
    if ultimo == i32::MAX {
        proof {
            assert forall|sig: i32| !#[trigger] ids_hermanos_ok(s@, sig) by {
                if ids_hermanos_ok(s@, sig) {
                    assert(s@[s@.len() - 1].id.unwrap() < sig);
                }
            }
        }
        return None;
    }
    Some(ultimo)
}

/// Comprueba los ids de los FamiliaS (presentes, positivos y crecientes) y
/// devuelve el último (0 si no hay filas).
fn ultimo_id_familias(s: &Vec<Familia>) -> (r: Option<i32>)
    ensures
        match r {
            Some(u) => u < i32::MAX && ids_familias_ok(s@, (u + 1) as i32) && u == ultimo_id_familias_de(s@),
            None => forall|sig: i32| !#[trigger] ids_familias_ok(s@, sig),
        },
{
    let mut ultimo: i32 = 0;
    let mut k: usize = 0;
    while k < s.len()
        invariant
            k <= s@.len(),
            k <= ultimo,
            k == 0 ==> ultimo == 0,
            k > 0 ==> s@[k - 1].id == Some(ultimo),
            forall|a: int| 0 <= a < k ==> (#[trigger] s@[a]).id is Some && 0 < s@[a].id.unwrap() <= ultimo,
            forall|a: int, b: int| #![trigger s@[a], s@[b]] 0 <= a < b < k ==> s@[a].id.unwrap() < s@[b].id.unwrap(),
        decreases s@.len() - k,
    {
        let ok = match s[k].id {
            Some(id) => id > ultimo,
            None => false,
        };
        if !ok {
            proof {
                assert forall|sig: i32| !#[trigger] ids_familias_ok(s@, sig) by {
                    if ids_familias_ok(s@, sig) && k > 0 {
                        assert(s@[k - 1].id.unwrap() < s@[k as int].id.unwrap());
                    }
                }
            }
            return None;
        }
        ultimo = s[k].id.unwrap();
        k = k + 1;
    }
    if ultimo == i32::MAX {
        proof {
            assert forall|sig: i32| !#[trigger] ids_familias_ok(s@, sig) by {
                if ids_familias_ok(s@, sig) {
                    assert(s@[s@.len() - 1].id.unwrap() < sig);
                }
            }
        }
        return None;
    }
    Some(ultimo)
}

/// Comprueba los ids de los CuotaS (presentes, positivos y crecientes) y
/// devuelve el último (0 si no hay filas).
fn ultimo_id_cuotas(s: &Vec<Cuota>) -> (r: Option<i32>)
    ensures
        match r {
            Some(u) => u < i32::MAX && ids_cuotas_ok(s@, (u + 1) as i32) && u == ultimo_id_cuotas_de(s@),
            None => forall|sig: i32| !#[trigger] ids_cuotas_ok(s@, sig),
        },
{
    let mut ultimo: i32 = 0;
    let mut k: usize = 0;
    while k < s.len()
        invariant
            k <= s@.len(),
            k <= ultimo,
            k == 0 ==> ultimo == 0,
            k > 0 ==> s@[k - 1].id == Some(ultimo),
            forall|a: int| 0 <= a < k ==> (#[trigger] s@[a]).id is Some && 0 < s@[a].id.unwrap() <= ultimo,
            forall|a: int, b: int| #![trigger s@[a], s@[b]] 0 <= a < b < k ==> s@[a].id.unwrap() < s@[b].id.unwrap(),
        decreases s@.len() - k,
    {
        let ok = match s[k].id {
            Some(id) => id > ultimo,
            None => false,
        };
        if !ok {
            proof {
                assert forall|sig: i32| !#[trigger] ids_cuotas_ok(s@, sig) by {
                    if ids_cuotas_ok(s@, sig) && k > 0 {
                        assert(s@[k - 1].id.unwrap() < s@[k as int].id.unwrap());
                    }
                }
            }
            return None;
        }
        ultimo = s[k].id.unwrap();
        k = k + 1;
    }
    if ultimo == i32::MAX {
        proof {
            assert forall|sig: i32| !#[trigger] ids_cuotas_ok(s@, sig) by {
                if ids_cuotas_ok(s@, sig) {
                    assert(s@[s@.len() - 1].id.unwrap() < sig);
                }
            }
        }
        return None;
    }
    Some(ultimo)
}

/// Ningún par de hermanos comparte número.
pub open spec fn numeros_distintos(hs: Seq<Hermano>) -> bool {
    forall|i: int, j: int| #![trigger hs[i], hs[j]]
        0 <= i < j < hs.len() ==> hs[i].numero_hermano@ != hs[j].numero_hermano@
}

/// Ningún par de familias comparte nombre.
pub open spec fn nombres_distintos(fs: Seq<Familia>) -> bool {
    forall|i: int, j: int| #![trigger fs[i], fs[j]]
        0 <= i < j < fs.len() ==> fs[i].nombre_familia@ != fs[j].nombre_familia@
}

/// Ningún par de cuotas es del mismo hermano y año.
pub open spec fn cuotas_distintas(cs: Seq<Cuota>) -> bool {
    forall|i: int, j: int| #![trigger cs[i], cs[j]]
        0 <= i < j < cs.len() ==> !(cs[i].hermano_id == cs[j].hermano_id && cs[i].anio == cs[j].anio)
}

fn comprobar_numeros(s: &Vec<Hermano>) -> (r: bool)
    ensures
        r == numeros_distintos(s@),
{
    let mut j: usize = 0;
    while j < s.len()
        invariant
            j <= s@.len(),
            forall|a: int, b: int| #![trigger s@[a], s@[b]]
                0 <= a < b < j ==> s@[a].numero_hermano@ != s@[b].numero_hermano@,
        decreases s@.len() - j,
    {
        let mut i: usize = 0;
        while i < j
            invariant
                i <= j < s@.len(),
                forall|a: int| 0 <= a < i ==> (#[trigger] s@[a]).numero_hermano@ != s@[j as int].numero_hermano@,
            decreases j - i,
        {
            if s[i].numero_hermano == s[j].numero_hermano {
                return false;
            }
            i = i + 1;
        }
        proof {
            assert forall|a: int, b: int| #![trigger s@[a], s@[b]]
                0 <= a < b < j + 1 implies s@[a].numero_hermano@ != s@[b].numero_hermano@ by {
                if b == j {
                    assert(s@[a].numero_hermano@ != s@[j as int].numero_hermano@);
                }
            }
        }
        j = j + 1;
    }
    true
}

fn comprobar_nombres(s: &Vec<Familia>) -> (r: bool)
    ensures
        r == nombres_distintos(s@),
{
    let mut j: usize = 0;
    while j < s.len()
        invariant
            j <= s@.len(),
            forall|a: int, b: int| #![trigger s@[a], s@[b]]
                0 <= a < b < j ==> s@[a].nombre_familia@ != s@[b].nombre_familia@,
        decreases s@.len() - j,
    {
        let mut i: usize = 0;
        while i < j
            invariant
                i <= j < s@.len(),
                forall|a: int| 0 <= a < i ==> (#[trigger] s@[a]).nombre_familia@ != s@[j as int].nombre_familia@,
            decreases j - i,
        {
            if s[i].nombre_familia == s[j].nombre_familia {
                return false;
            }
            i = i + 1;
        }
        proof {
            assert forall|a: int, b: int| #![trigger s@[a], s@[b]]
                0 <= a < b < j + 1 implies s@[a].nombre_familia@ != s@[b].nombre_familia@ by {
                if b == j {
                    assert(s@[a].nombre_familia@ != s@[j as int].nombre_familia@);
                }
            }
        }
        j = j + 1;
    }
    true
}

fn comprobar_cuotas(s: &Vec<Cuota>) -> (r: bool)
    ensures
        r == cuotas_distintas(s@),
{
    let mut j: usize = 0;
    while j < s.len()
        invariant
            j <= s@.len(),
            forall|a: int, b: int| #![trigger s@[a], s@[b]]
                0 <= a < b < j ==> !(s@[a].hermano_id == s@[b].hermano_id && s@[a].anio == s@[b].anio),
        decreases s@.len() - j,
    {
        let mut i: usize = 0;
        while i < j
            invariant
                i <= j < s@.len(),
                forall|a: int| 0 <= a < i ==>
                    !((#[trigger] s@[a]).hermano_id == s@[j as int].hermano_id && s@[a].anio == s@[j as int].anio),
            decreases j - i,
        {
            if s[i].hermano_id == s[j].hermano_id && s[i].anio == s[j].anio {
                return false;
            }
            i = i + 1;
        }
        proof {
            assert forall|a: int, b: int| #![trigger s@[a], s@[b]]
                0 <= a < b < j + 1 implies !(s@[a].hermano_id == s@[b].hermano_id && s@[a].anio == s@[b].anio) by {
                if b == j {
                    assert(!(s@[a].hermano_id == s@[j as int].hermano_id && s@[a].anio == s@[j as int].anio));
                }
            }
        }
        j = j + 1;
    }
    true
}

impl Database {
    /// Reconstruye el almacén con las filas ya guardadas de cada tabla (en
    /// orden de id), la configuración de recibos y, por tabla, el mayor id
    /// que se haya asignado nunca (0 si ninguno). Devuelve `None` si las filas
    /// no pueden formar un almacén válido o si alguna tabla ya no admite más
    /// ids; si no, cada tabla sigue asignando ids tras el mayor de su última
    /// fila y del mayor asignado, sin reutilizar ninguno.
    pub fn desde_tablas(
        hermanos: Vec<Hermano>,
        familias: Vec<Familia>,
        cuotas: Vec<Cuota>,
        configuracion: Option<ConfiguracionRecibo>,
        ultimo_hermano: i32,
        ultima_familia: i32,
        ultima_cuota: i32,
    ) -> (r: Option<Database>)
        ensures
            r is Some <==> {
                &&& tablas_cargables(hermanos@, familias@, cuotas@)
                &&& ultimo_hermano < i32::MAX
                &&& ultima_familia < i32::MAX
                &&& ultima_cuota < i32::MAX
            },
            r matches Some(db) ==> {
                &&& db.wf()
                &&& db.hermanos() == hermanos@
                &&& db.familias() == familias@
                &&& db.cuotas() == cuotas@
                &&& db.configuracion() == configuracion
                &&& db.sig_hermano() == mayor(ultimo_id_hermanos_de(hermanos@), ultimo_hermano as int) + 1
                &&& db.sig_familia() == mayor(ultimo_id_familias_de(familias@), ultima_familia as int) + 1
                &&& db.sig_cuota() == mayor(ultimo_id_cuotas_de(cuotas@), ultima_cuota as int) + 1
            },
    {
        let ghost hs = hermanos@;
        let ghost fs = familias@;
        let ghost cs = cuotas@;
        let uh = match ultimo_id_hermanos(&hermanos) {
            Some(x) => x,
            None => {
                proof {
                    assert forall|sig: i32| !#[trigger] tabla_hermanos_ok(hs, sig) by {
                        assert(!ids_hermanos_ok(hs, sig));
                    }
                }
                return None;
            },
        };
        let uf = match ultimo_id_familias(&familias) {
            Some(x) => x,
            None => {
                proof {
                    assert forall|sig: i32| !#[trigger] tabla_familias_ok(fs, sig) by {
                        assert(!ids_familias_ok(fs, sig));
                    }
                }
                return None;
            },
        };
        let uc = match ultimo_id_cuotas(&cuotas) {
            Some(x) => x,
            None => {
                proof {
                    assert forall|sig: i32| !#[trigger] tabla_cuotas_ok(cs, sig) by {
                        assert(!ids_cuotas_ok(cs, sig));
                    }
                }
                return None;
            },
        };
        if ultimo_hermano == i32::MAX || ultima_familia == i32::MAX || ultima_cuota == i32::MAX {
            return None;
        }
        let sh: i32 = if uh < ultimo_hermano { ultimo_hermano + 1 } else { uh + 1 };
        let sf: i32 = if uf < ultima_familia { ultima_familia + 1 } else { uf + 1 };
        let sc: i32 = if uc < ultima_cuota { ultima_cuota + 1 } else { uc + 1 };
        if !comprobar_numeros(&hermanos) {
            proof {
                assert forall|sig: i32| !#[trigger] tabla_hermanos_ok(hs, sig) by {
                    if tabla_hermanos_ok(hs, sig) {
                        assert(numeros_distintos(hs));
                    }
                }
            }
            return None;
        }
        if !comprobar_nombres(&familias) {
            proof {
                assert forall|sig: i32| !#[trigger] tabla_familias_ok(fs, sig) by {
                    if tabla_familias_ok(fs, sig) {
                        assert(nombres_distintos(fs));
                    }
                }
            }
            return None;
        }
        if !comprobar_cuotas(&cuotas) {
            proof {
                assert forall|sig: i32| !#[trigger] tabla_cuotas_ok(cs, sig) by {
                    if tabla_cuotas_ok(cs, sig) {
                        assert(cuotas_distintas(cs));
                    }
                }
            }
            return None;
        }
        proof {
            assert(tabla_hermanos_ok(hs, sh));
            assert(tabla_familias_ok(fs, sf));
            assert(tabla_cuotas_ok(cs, sc));
        }
        let db = Database {
            hermanos,
            familias,
            cuotas,
            configuracion_recibo: configuracion,
            siguiente_hermano: sh,
            siguiente_familia: sf,
            siguiente_cuota: sc,
        };
        let mut i: usize = 0;
        while i < db.hermanos.len()
            invariant
                i <= db.hermanos@.len(),
                db.hermanos@ == hs,
                db.familias@ == fs,
                hs == hermanos@,
                fs == familias@,
                cs == cuotas@,
                forall|a: int| 0 <= a < i ==> familia_valida(fs, (#[trigger] hs[a]).familia_id),
            decreases db.hermanos@.len() - i,
        {
            if !db.familia_correcta(db.hermanos[i].familia_id) {
                proof {
                    assert(!familia_valida(fs, hs[i as int].familia_id));
                    assert(!refs_familia_ok(hs, fs));
                }
                return None;
            }
            i = i + 1;
        }
        let mut j: usize = 0;
        while j < db.cuotas.len()
            invariant
                j <= db.cuotas@.len(),
                db.hermanos@ == hs,
                db.cuotas@ == cs,
                hs == hermanos@,
                fs == familias@,
                cs == cuotas@,
                forall|a: int| 0 <= a < j ==> existe_hermano(hs, (#[trigger] cs[a]).hermano_id),
            decreases db.cuotas@.len() - j,
        {
            if db.posicion_hermano(db.cuotas[j].hermano_id).is_none() {
                proof {
                    assert(!existe_hermano(hs, cs[j as int].hermano_id));
                    assert(!refs_hermano_ok(cs, hs));
                }
                return None;
            }
            j = j + 1;
        }
        Some(db)
    }
}

} // verus!
