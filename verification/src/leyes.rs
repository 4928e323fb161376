//! Propiedades de la biblioteca que relacionan varias operaciones o que valen
//! para cualquier estado.

use vstd::prelude::*;
use crate::modelo::{Hermano, Cuota};
use crate::db::{
    Database, CriterioHermano, CriterioCuota, existe_hermano, hermano_por_id, familia_por_id, cuota_por_id,
    hermano_con_id, familia_con_id, cuota_con_id, hermano_modificado, hermanos_que_cumplen, cuotas_que_cumplen,
    cuotas_pagadas_en, cuotas_pendientes_en, cuotas_del_periodo, hermanos_al_dia, hermanos_morosos,
    hermanos_sin_cuota, cuota_generada, cuota_en_uso, afecta_pago_familia, cuotas_pago_familia, pagada_como,
    lema_hermano_por_id, lema_familia_por_id, lema_cuota_por_id, CriterioFamilia, existe_cuota, existe_familia,
    familias_que_cumplen, tablas_cargables, tabla_hermanos_ok, tabla_familias_ok, tabla_cuotas_ok,
    tiene_hermanos_activos, sin_familia, familia_valida, bajas_con_fecha, cuota_modificada, familia_modificada,
};
use crate::modelo::Familia;
use crate::recibos::posicion_recibo;
use crate::arranque::{pendientes_desde, plan_de, Apertura};
use crate::recibos::domicilio_de;
use crate::texto::recortado;
use crate::config::{acciones_cambio, ruta_unida, nombre_copia_cambio, Existencias};

verus! {

proof fn lema_particion<A>(s: Seq<A>, p: spec_fn(A) -> bool, pq: spec_fn(A) -> bool, pnq: spec_fn(A) -> bool, q: spec_fn(A) -> bool)
    requires
        forall|x: A| #[trigger] pq(x) == (p(x) && q(x)),
        forall|x: A| #[trigger] pnq(x) == (p(x) && !q(x)),
    ensures
        s.filter(pq).len() + s.filter(pnq).len() == s.filter(p).len(),
    decreases s.len(),
{
    reveal_with_fuel(Seq::filter, 1);
    if s.len() > 0 {
        lema_particion(s.drop_last(), p, pq, pnq, q);
        let x = s.last();
        assert(pq(x) == (p(x) && q(x)));
        assert(pnq(x) == (p(x) && !q(x)));
    }
}

proof fn lema_filtro_sin_elementos<A>(s: Seq<A>, p: spec_fn(A) -> bool)
    requires
        forall|i: int| 0 <= i < s.len() ==> !p(#[trigger] s[i]),
    ensures
        s.filter(p).len() == 0,
    decreases s.len(),
{
    reveal_with_fuel(Seq::filter, 1);
    if s.len() > 0 {
        assert forall|i: int| 0 <= i < s.drop_last().len() implies !p(#[trigger] s.drop_last()[i]) by {
            assert(s.drop_last()[i] == s[i]);
        }
        lema_filtro_sin_elementos(s.drop_last(), p);
        assert(!p(s[s.len() - 1]));
    }
}

/// Lo que se da de alta se lee luego por su id: tras añadir el hermano `h`
/// con id `id`, la consulta por `id` devuelve exactamente ese hermano.
pub proof fn ley_alta_hermano_legible(antes: Database, despues: Database, h: Hermano, id: i32)
    requires
        despues.wf(),
        despues.hermanos() == antes.hermanos().push(hermano_con_id(h, id)),
    ensures
        hermano_por_id(despues.hermanos(), id) == Some(hermano_con_id(h, id)),
{
    let hs = despues.hermanos();
    lema_hermano_por_id(hs, despues.sig_hermano(), hs.len() - 1);
}

/// Lo mismo para las familias.
pub proof fn ley_alta_familia_legible(antes: Database, despues: Database, f: Familia, id: i32)
    requires
        despues.wf(),
        despues.familias() == antes.familias().push(familia_con_id(f, id)),
    ensures
        familia_por_id(despues.familias(), id) == Some(familia_con_id(f, id)),
{
    let fs = despues.familias();
    lema_familia_por_id(fs, despues.sig_familia(), fs.len() - 1);
}

/// Lo mismo para las cuotas.
pub proof fn ley_alta_cuota_legible(antes: Database, despues: Database, c: Cuota, id: i32)
    requires
        despues.wf(),
        despues.cuotas() == antes.cuotas().push(cuota_con_id(c, id)),
    ensures
        cuota_por_id(despues.cuotas(), id) == Some(cuota_con_id(c, id)),
{
    let cs = despues.cuotas();
    lema_cuota_por_id(cs, despues.sig_cuota(), cs.len() - 1);
}

/// Lo que se modifica se lee luego modificado: tras sustituir los datos del
/// hermano `id` existente por los de `h`, la consulta por `id` devuelve el
/// hermano con los datos nuevos (y su id y marcas de tiempo de antes).
pub proof fn ley_modificacion_hermano_legible(antes: Database, despues: Database, id: i32, h: Hermano)
    requires
        antes.wf(),
        despues.wf(),
        existe_hermano(antes.hermanos(), id),
        despues.hermanos().len() == antes.hermanos().len(),
        forall|i: int| 0 <= i < antes.hermanos().len() ==> #[trigger] despues.hermanos()[i]
            == if antes.hermanos()[i].id == Some(id) {
                hermano_modificado(antes.hermanos()[i], h)
            } else {
                antes.hermanos()[i]
            },
    ensures
        hermano_por_id(despues.hermanos(), id) == Some(hermano_modificado(hermano_por_id(antes.hermanos(), id).unwrap(), h)),
{
    let hs = antes.hermanos();
    let k = choose|k: int| 0 <= k < hs.len() && (#[trigger] hs[k]).id == Some(id);
    lema_hermano_por_id(hs, antes.sig_hermano(), k);
    assert(despues.hermanos()[k] == hermano_modificado(hs[k], h));
    lema_hermano_por_id(despues.hermanos(), despues.sig_hermano(), k);
}

/// Borrar un hermano borra en cascada sus cuotas y nada más: después no queda
/// el hermano ni ninguna cuota suya, y siguen todos los demás hermanos y todas
/// las cuotas de otros hermanos.
pub proof fn ley_borrado_en_cascada(hs: Seq<Hermano>, cs: Seq<Cuota>, id: i32)
    ensures
        !existe_hermano(hermanos_que_cumplen(hs, CriterioHermano::Otros(id)), id),
        forall|i: int| 0 <= i < cuotas_que_cumplen(cs, CriterioCuota::DeOtrosHermanos(id)).len() ==>
            (#[trigger] cuotas_que_cumplen(cs, CriterioCuota::DeOtrosHermanos(id))[i]).hermano_id != id,
        forall|k: int| 0 <= k < hs.len() && hs[k].id != Some(id) ==>
            hermanos_que_cumplen(hs, CriterioHermano::Otros(id)).contains(#[trigger] hs[k]),
        forall|k: int| 0 <= k < cs.len() && cs[k].hermano_id != id ==>
            cuotas_que_cumplen(cs, CriterioCuota::DeOtrosHermanos(id)).contains(#[trigger] cs[k]),
{
    let ph = |h: Hermano| crate::db::cumple_criterio_hermano(CriterioHermano::Otros(id), h);
    let pc = |c: Cuota| crate::db::cumple_criterio_cuota(CriterioCuota::DeOtrosHermanos(id), c);
    let nh = hermanos_que_cumplen(hs, CriterioHermano::Otros(id));
    let nc = cuotas_que_cumplen(cs, CriterioCuota::DeOtrosHermanos(id));
    assert forall|k: int| 0 <= k < nh.len() implies (#[trigger] nh[k]).id != Some(id) by {
        hs.lemma_filter_pred(ph, k);
    }
    assert forall|i: int| 0 <= i < nc.len() implies (#[trigger] nc[i]).hermano_id != id by {
        cs.lemma_filter_pred(pc, i);
    }
    assert forall|k: int| 0 <= k < hs.len() && hs[k].id != Some(id) implies nh.contains(#[trigger] hs[k]) by {
        hs.lemma_filter_contains(ph, k);
    }
    assert forall|k: int| 0 <= k < cs.len() && cs[k].hermano_id != id implies nc.contains(#[trigger] cs[k]) by {
        cs.lemma_filter_contains(pc, k);
    }
}

/// Borrar lo que no existe no cambia nada.
pub proof fn ley_borrado_inexistente(hs: Seq<Hermano>, cs: Seq<Cuota>, id: i32)
    requires
        !existe_hermano(hs, id),
        forall|k: int| 0 <= k < cs.len() ==> (#[trigger] cs[k]).hermano_id != id,
    ensures
        hermanos_que_cumplen(hs, CriterioHermano::Otros(id)) == hs,
        cuotas_que_cumplen(cs, CriterioCuota::DeOtrosHermanos(id)) == cs,
{
    lema_filtro_todos_h(hs, id);
    lema_filtro_todos_c(cs, id);
}

proof fn lema_filtro_todos_h(hs: Seq<Hermano>, id: i32)
    requires
        !existe_hermano(hs, id),
    ensures
        hermanos_que_cumplen(hs, CriterioHermano::Otros(id)) == hs,
    decreases hs.len(),
{
    reveal_with_fuel(Seq::filter, 1);
    if hs.len() > 0 {
        let d = hs.drop_last();
        assert(!existe_hermano(d, id)) by {
            if existe_hermano(d, id) {
                let k = choose|k: int| 0 <= k < d.len() && (#[trigger] d[k]).id == Some(id);
                assert(hs[k] == d[k]);
            }
        }
        lema_filtro_todos_h(d, id);
        assert(hs[hs.len() - 1].id != Some(id));
        assert(d.push(hs.last()) =~= hs);
    }
}

proof fn lema_filtro_todos_c(cs: Seq<Cuota>, id: i32)
    requires
        forall|k: int| 0 <= k < cs.len() ==> (#[trigger] cs[k]).hermano_id != id,
    ensures
        cuotas_que_cumplen(cs, CriterioCuota::DeOtrosHermanos(id)) == cs,
    decreases cs.len(),
{
    reveal_with_fuel(Seq::filter, 1);
    if cs.len() > 0 {
        let d = cs.drop_last();
        assert forall|k: int| 0 <= k < d.len() implies (#[trigger] d[k]).hermano_id != id by {
            assert(d[k] == cs[k]);
        }
        lema_filtro_todos_c(d, id);
        assert(cs[cs.len() - 1].hermano_id != id);
        assert(d.push(cs.last()) =~= cs);
    }
}

/// En las estadísticas, cada cuota del periodo está o pagada o pendiente, y
/// cada hermano activo está o al día o moroso.
pub proof fn ley_estadisticas_cuadran(hs: Seq<Hermano>, cs: Seq<Cuota>, anio: Option<i32>)
    ensures
        cuotas_pagadas_en(cs, anio).len() + cuotas_pendientes_en(cs, anio).len() == cuotas_del_periodo(cs, anio).len(),
        hermanos_al_dia(hs, cs, anio).len() + hermanos_morosos(hs, cs, anio).len()
            == hermanos_que_cumplen(hs, CriterioHermano::Activos).len(),
{
    lema_particion(
        cs,
        |c: Cuota| crate::db::en_periodo(c, anio),
        |c: Cuota| crate::db::en_periodo(c, anio) && c.pagado,
        |c: Cuota| crate::db::en_periodo(c, anio) && !c.pagado,
        |c: Cuota| c.pagado,
    );
    lema_particion(
        hs,
        |h: Hermano| crate::db::cumple_criterio_hermano(CriterioHermano::Activos, h),
        |h: Hermano| h.activo && crate::db::tiene_pendiente(cs, anio, h.id.unwrap()),
        |h: Hermano| h.activo && !crate::db::tiene_pendiente(cs, anio, h.id.unwrap()),
        |h: Hermano| crate::db::tiene_pendiente(cs, anio, h.id.unwrap()),
    );
}

/// Generar las cuotas de un año deja a todo hermano activo con su cuota de ese
/// año: repetir la generación no crea ninguna más.
pub proof fn ley_generar_cuotas_idempotente(hs: Seq<Hermano>, cs: Seq<Cuota>, anio: i32, importe_centimos: i64, sig: int)
    ensures
        ({
            let faltan = hermanos_sin_cuota(hs, cs, anio);
            let nuevas = cs + Seq::new(
                faltan.len(),
                |k: int| cuota_generada(faltan[k].id.unwrap(), anio, importe_centimos, sig + k),
            );
            hermanos_sin_cuota(hs, nuevas, anio).len() == 0
        }),
{
    let faltan = hermanos_sin_cuota(hs, cs, anio);
    let gen = Seq::new(
        faltan.len(),
        |k: int| cuota_generada(faltan[k].id.unwrap(), anio, importe_centimos, sig + k),
    );
    let nuevas = cs + gen;
    let p = |h: Hermano| h.activo && !cuota_en_uso(cs, h.id.unwrap(), anio, None);
    let q = |h: Hermano| h.activo && !cuota_en_uso(nuevas, h.id.unwrap(), anio, None);
    assert forall|i: int| 0 <= i < hs.len() implies !q(#[trigger] hs[i]) by {
        let h = hs[i];
        if h.activo && !cuota_en_uso(cs, h.id.unwrap(), anio, None) {
            hs.lemma_filter_contains(p, i);
            assert(faltan.contains(h));
            let j = choose|j: int| 0 <= j < faltan.len() && faltan[j] == h;
            assert(nuevas[cs.len() + j] == gen[j]);
            assert(nuevas[cs.len() + j].hermano_id == h.id.unwrap());
        } else if h.activo {
            let k = choose|k: int| 0 <= k < cs.len() && (#[trigger] cs[k]).hermano_id == h.id.unwrap() && cs[k].anio == anio && cs[k].id != None::<i32>;
            assert(nuevas[k] == cs[k]);
        }
    }
    lema_filtro_sin_elementos(hs, q);
}

/// Tras el pago conjunto de una familia y año no queda ninguna cuota de la
/// familia pendiente de ese año: repetirlo no paga nada más.
pub proof fn ley_pago_familia_idempotente(
    hs: Seq<Hermano>,
    antes: Seq<Cuota>,
    despues: Seq<Cuota>,
    familia_id: i32,
    anio: i32,
    fecha: Seq<char>,
    metodo: Seq<char>,
)
    requires
        despues.len() == antes.len(),
        forall|i: int| 0 <= i < antes.len() ==>
            if afecta_pago_familia(hs, familia_id, anio, antes[i]) {
                pagada_como(antes[i], #[trigger] despues[i], fecha, metodo)
            } else {
                despues[i] == antes[i]
            },
    ensures
        cuotas_pago_familia(hs, despues, familia_id, anio).len() == 0,
{
    let p = |c: Cuota| afecta_pago_familia(hs, familia_id, anio, c);
    assert forall|i: int| 0 <= i < despues.len() implies !p(#[trigger] despues[i]) by {
        if afecta_pago_familia(hs, familia_id, anio, antes[i]) {
            assert(pagada_como(antes[i], despues[i], fecha, metodo));
        }
    }
    lema_filtro_sin_elementos(despues, p);
}

/// Caben exactamente tres recibos por página A4: el recibo `k` va en la página
/// `k / 3`; dentro de una página cada recibo queda 83 mm por debajo del
/// anterior, y todos quedan dentro de los márgenes (el título a 270 mm como
/// mucho, la nota al pie a 20 mm como poco del borde inferior).
pub proof fn ley_tres_recibos_por_pagina(k: int)
    requires
        0 <= k <= usize::MAX,
    ensures
        posicion_recibo(k).pagina == k / 3,
        posicion_recibo(k).y_titulo <= 2700,
        posicion_recibo(k).y_nota >= 200,
        k % 3 != 0 ==> posicion_recibo(k).pagina == posicion_recibo(k - 1).pagina
            && posicion_recibo(k).y_titulo == posicion_recibo(k - 1).y_titulo - 830,
        k > 0 && k % 3 == 0 ==> posicion_recibo(k).pagina == posicion_recibo(k - 1).pagina + 1
            && posicion_recibo(k).y_titulo == 2700,
{
}

/// Lo que se paga se lee luego pagado: tras marcar como pagada la cuota `id`
/// existente, la consulta por `id` devuelve esa cuota pagada en esa fecha y
/// con ese método, y con los demás datos de antes.
pub proof fn ley_pago_legible(antes: Database, despues: Database, id: i32, fecha: Seq<char>, metodo: Seq<char>)
    requires
        antes.wf(),
        despues.wf(),
        existe_cuota(antes.cuotas(), id),
        despues.cuotas().len() == antes.cuotas().len(),
        forall|i: int| 0 <= i < antes.cuotas().len() ==> if antes.cuotas()[i].id == Some(id) {
            pagada_como(antes.cuotas()[i], #[trigger] despues.cuotas()[i], fecha, metodo)
        } else {
            despues.cuotas()[i] == antes.cuotas()[i]
        },
    ensures
        pagada_como(cuota_por_id(antes.cuotas(), id).unwrap(), cuota_por_id(despues.cuotas(), id).unwrap(), fecha, metodo),
        cuota_por_id(despues.cuotas(), id) is Some,
{
    let cs = antes.cuotas();
    let k = choose|k: int| 0 <= k < cs.len() && (#[trigger] cs[k]).id == Some(id);
    lema_cuota_por_id(cs, antes.sig_cuota(), k);
    assert(pagada_como(cs[k], despues.cuotas()[k], fecha, metodo));
    lema_cuota_por_id(despues.cuotas(), despues.sig_cuota(), k);
}

/// Lo que se borra ya no se lee: tras borrar la cuota o la familia `id`, no
/// queda ninguna fila con ese id.
pub proof fn ley_borrado_no_legible(cs: Seq<Cuota>, fs: Seq<Familia>, id: i32)
    ensures
        !existe_cuota(cuotas_que_cumplen(cs, CriterioCuota::Otras(id)), id),
        !existe_familia(familias_que_cumplen(fs, CriterioFamilia::Otras(id)), id),
{
    let pc = |c: Cuota| crate::db::cumple_criterio_cuota(CriterioCuota::Otras(id), c);
    let pf = |f: Familia| crate::db::cumple_criterio_familia(CriterioFamilia::Otras(id), f);
    let nc = cuotas_que_cumplen(cs, CriterioCuota::Otras(id));
    let nf = familias_que_cumplen(fs, CriterioFamilia::Otras(id));
    assert forall|k: int| 0 <= k < nc.len() implies (#[trigger] nc[k]).id != Some(id) by {
        cs.lemma_filter_pred(pc, k);
    }
    assert forall|k: int| 0 <= k < nf.len() implies (#[trigger] nf[k]).id != Some(id) by {
        fs.lemma_filter_pred(pf, k);
    }
}

/// Las tablas de un almacén válido siempre se pueden volver a cargar: lo que
/// se guarda de un almacén cumple lo que pide [`Database::desde_tablas`].
pub proof fn ley_tablas_guardadas_cargables(db: Database)
    requires
        db.wf(),
    ensures
        tablas_cargables(db.hermanos(), db.familias(), db.cuotas()),
{
    assert(tabla_hermanos_ok(db.hermanos(), db.sig_hermano()));
    assert(tabla_familias_ok(db.familias(), db.sig_familia()));
    assert(tabla_cuotas_ok(db.cuotas(), db.sig_cuota()));
}

/// Borrar una familia que no existe es correcto y no cambia nada: ningún
/// hermano la tiene (activo o no), así que el borrado no se rechaza, no quita
/// ninguna familia y no desvincula a ningún hermano.
pub proof fn ley_borrado_familia_inexistente(db: Database, id: i32)
    requires
        db.wf(),
        !existe_familia(db.familias(), id),
    ensures
        !tiene_hermanos_activos(db.hermanos(), id),
        familias_que_cumplen(db.familias(), CriterioFamilia::Otras(id)) == db.familias(),
        forall|i: int| 0 <= i < db.hermanos().len() ==> #[trigger] sin_familia(db.hermanos()[i], id) == db.hermanos()[i],
{
    let hs = db.hermanos();
    assert forall|i: int| 0 <= i < hs.len() implies #[trigger] sin_familia(hs[i], id) == hs[i] by {
        assert(familia_valida(db.familias(), hs[i].familia_id));
    }
    if tiene_hermanos_activos(hs, id) {
        let k = choose|k: int| 0 <= k < hs.len() && (#[trigger] hs[k]).activo && hs[k].familia_id == Some(id);
        assert(familia_valida(db.familias(), hs[k].familia_id));
    }
    lema_filtro_todas_familias(db.familias(), id);
}

proof fn lema_filtro_todas_familias(fs: Seq<Familia>, id: i32)
    requires
        !existe_familia(fs, id),
    ensures
        familias_que_cumplen(fs, CriterioFamilia::Otras(id)) == fs,
    decreases fs.len(),
{
    reveal_with_fuel(Seq::filter, 1);
    if fs.len() > 0 {
        let d = fs.drop_last();
        assert(!existe_familia(d, id)) by {
            if existe_familia(d, id) {
                let k = choose|k: int| 0 <= k < d.len() && (#[trigger] d[k]).id == Some(id);
                assert(fs[k] == d[k]);
            }
        }
        lema_filtro_todas_familias(d, id);
        assert(fs[fs.len() - 1].id != Some(id));
        assert(d.push(fs.last()) =~= fs);
    }
}

/// Versión del esquema que queda tras aplicar, en orden, las migraciones
/// pendientes desde `actual` (la última aplicada, o `actual` si no había).
pub open spec fn version_tras_migrar(actual: i32) -> i32 {
    let p = pendientes_desde(actual);
    if p.len() == 0 { actual } else { p.last() }
}

/// Migrar dos veces es como migrar una: tras aplicar las migraciones
/// pendientes no queda ninguna, así que una segunda pasada no hace nada.
pub proof fn ley_migraciones_idempotentes(actual: i32)
    ensures
        pendientes_desde(version_tras_migrar(actual)).len() == 0,
        pendientes_desde(version_tras_migrar(version_tras_migrar(actual))).len() == 0,
        version_tras_migrar(version_tras_migrar(actual)) == version_tras_migrar(actual),
{
}

/// Cambiar al directorio en que ya está la base de datos, sin conflicto o
/// usando la base actual, no toca ningún archivo: la base actual sigue en su
/// sitio. Usando la base existente, sólo se guarda la copia comprimida de la
/// actual (si existe).
pub proof fn ley_cambio_al_mismo_directorio(
    actual: Seq<char>,
    nuevo: Seq<char>,
    usar_existente: Option<bool>,
    ex: Existencias,
    marca: Seq<char>,
)
    requires
        ruta_unida(actual, "hermanar.db"@) == ruta_unida(nuevo, "hermanar.db"@),
    ensures
        usar_existente != Some(true) ==> acciones_cambio(actual, nuevo, usar_existente, ex, marca).len() == 0,
        usar_existente == Some(true) ==> acciones_cambio(actual, nuevo, usar_existente, ex, marca)
            == (if ex.bd_actual {
                seq![(3int, ruta_unida(actual, "hermanar.db"@), nombre_copia_cambio(marca))]
            } else {
                Seq::empty()
            }),
{
}

/// Todo hermano inactivo tiene fecha de baja en un almacén recién creado; cada
/// operación que escribe hermanos (alta, modificación, baja, cambio de
/// familia, borrados, alta con familia) lo conserva, como dice su `ensures`.
pub proof fn ley_bajas_con_fecha_al_empezar()
    ensures
        bajas_con_fecha(Seq::<Hermano>::empty()),
{
}

/// Los dos hermanos tienen los mismos datos: todos los campos salvo el id y
/// las marcas de tiempo.
pub open spec fn mismos_datos_hermano(a: Hermano, b: Hermano) -> bool {
    &&& a.numero_hermano == b.numero_hermano
    &&& a.nombre == b.nombre
    &&& a.primer_apellido == b.primer_apellido
    &&& a.segundo_apellido == b.segundo_apellido
    &&& a.dni == b.dni
    &&& a.fecha_nacimiento == b.fecha_nacimiento
    &&& a.localidad_nacimiento == b.localidad_nacimiento
    &&& a.provincia_nacimiento == b.provincia_nacimiento
    &&& a.fecha_alta == b.fecha_alta
    &&& a.familia_id == b.familia_id
    &&& a.telefono == b.telefono
    &&& a.email == b.email
    &&& a.direccion == b.direccion
    &&& a.localidad == b.localidad
    &&& a.provincia == b.provincia
    &&& a.codigo_postal == b.codigo_postal
    &&& a.parroquia_bautismo == b.parroquia_bautismo
    &&& a.localidad_bautismo == b.localidad_bautismo
    &&& a.provincia_bautismo == b.provincia_bautismo
    &&& a.autorizacion_menores == b.autorizacion_menores
    &&& a.nombre_representante_legal == b.nombre_representante_legal
    &&& a.dni_representante_legal == b.dni_representante_legal
    &&& a.hermano_aval_1 == b.hermano_aval_1
    &&& a.hermano_aval_2 == b.hermano_aval_2
    &&& a.activo == b.activo
    &&& a.fecha_baja == b.fecha_baja
    &&& a.observaciones == b.observaciones
}

/// Las dos cuotas tienen los mismos datos: todos los campos salvo el id y las
/// marcas de tiempo.
pub open spec fn mismos_datos_cuota(a: Cuota, b: Cuota) -> bool {
    &&& a.hermano_id == b.hermano_id
    &&& a.anio == b.anio
    &&& a.importe_centimos == b.importe_centimos
    &&& a.pagado == b.pagado
    &&& a.fecha_pago == b.fecha_pago
    &&& a.metodo_pago == b.metodo_pago
    &&& a.observaciones == b.observaciones
    &&& a.recibo == b.recibo
}

/// El alta guarda todos los datos dados: tras dar de alta el hermano `h` con
/// id `id`, la consulta por `id` devuelve un hermano con ese id y con todos
/// los campos de `h` (autorización de menores, teléfono, marcas de tiempo…).
pub proof fn ley_alta_hermano_guarda_todo(antes: Database, despues: Database, h: Hermano, id: i32)
    requires
        despues.wf(),
        despues.hermanos() == antes.hermanos().push(hermano_con_id(h, id)),
    ensures
        hermano_por_id(despues.hermanos(), id) matches Some(x) && {
            &&& x.id == Some(id)
            &&& mismos_datos_hermano(x, h)
            &&& x.created_at == h.created_at
            &&& x.updated_at == h.updated_at
        },
{
    ley_alta_hermano_legible(antes, despues, h, id);
}

/// La modificación guarda todos los datos nuevos: tras modificar el hermano
/// `id` existente con los datos de `h`, la consulta por `id` devuelve un
/// hermano con ese id, con todos los campos de `h` y con las marcas de tiempo
/// que tenía.
pub proof fn ley_modificacion_hermano_guarda_todo(antes: Database, despues: Database, id: i32, h: Hermano)
    requires
        antes.wf(),
        despues.wf(),
        existe_hermano(antes.hermanos(), id),
        despues.hermanos().len() == antes.hermanos().len(),
        forall|i: int| 0 <= i < antes.hermanos().len() ==> #[trigger] despues.hermanos()[i]
            == if antes.hermanos()[i].id == Some(id) {
                hermano_modificado(antes.hermanos()[i], h)
            } else {
                antes.hermanos()[i]
            },
    ensures
        hermano_por_id(despues.hermanos(), id) matches Some(x) && {
            let v = hermano_por_id(antes.hermanos(), id).unwrap();
            &&& x.id == Some(id)
            &&& mismos_datos_hermano(x, h)
            &&& x.created_at == v.created_at
            &&& x.updated_at == v.updated_at
        },
{
    ley_modificacion_hermano_legible(antes, despues, id, h);
    let hs = antes.hermanos();
    let k = choose|k: int| 0 <= k < hs.len() && (#[trigger] hs[k]).id == Some(id);
    lema_hermano_por_id(hs, antes.sig_hermano(), k);
}

/// Lo mismo para las cuotas: tras modificar la cuota `id` existente con los
/// datos de `c` (importe, año, pago, fecha y método de pago…), la consulta por
/// `id` devuelve una cuota con ese id, con todos los campos de `c` y con las
/// marcas de tiempo que tenía.
pub proof fn ley_modificacion_cuota_guarda_todo(antes: Database, despues: Database, id: i32, c: Cuota)
    requires
        antes.wf(),
        despues.wf(),
        existe_cuota(antes.cuotas(), id),
        despues.cuotas().len() == antes.cuotas().len(),
        forall|i: int| 0 <= i < antes.cuotas().len() ==> #[trigger] despues.cuotas()[i]
            == if antes.cuotas()[i].id == Some(id) {
                cuota_modificada(antes.cuotas()[i], c)
            } else {
                antes.cuotas()[i]
            },
    ensures
        cuota_por_id(despues.cuotas(), id) matches Some(x) && {
            let v = cuota_por_id(antes.cuotas(), id).unwrap();
            &&& x.id == Some(id)
            &&& mismos_datos_cuota(x, c)
            &&& x.created_at == v.created_at
            &&& x.updated_at == v.updated_at
        },
{
    let cs = antes.cuotas();
    let k = choose|k: int| 0 <= k < cs.len() && (#[trigger] cs[k]).id == Some(id);
    lema_cuota_por_id(cs, antes.sig_cuota(), k);
    assert(despues.cuotas()[k] == cuota_modificada(cs[k], c));
    lema_cuota_por_id(despues.cuotas(), despues.sig_cuota(), k);
}

/// Al arrancar, la copia automática sólo se restaura si existe, y nunca se
/// pierde la base que había: si se restaura la copia y la base existe, antes
/// se aparta (tanto si no abre como si está dañada); sólo se aparta una base
/// que existe. Si abre bien no se toca nada; si no abre y no hay copia, se
/// falla; en los demás casos se sigue y queda registrada la recuperación,
/// diciendo si había copia.
pub proof fn ley_recuperacion_no_pierde_la_base(apertura: Apertura, bd_existe: bool, copia_existe: bool)
    ensures
        ({
            let p = plan_de(apertura, bd_existe, copia_existe);
            &&& (p.restaurar_copia && bd_existe ==> p.apartar_danada)
            &&& (p.restaurar_copia ==> copia_existe)
            &&& (p.apartar_danada ==> bd_existe)
            &&& (apertura != Apertura::Correcta && copia_existe ==> p.restaurar_copia && p.reabrir && !p.fallar)
            &&& (apertura == Apertura::Correcta ==> !p.apartar_danada && !p.restaurar_copia && !p.reabrir && !p.fallar
                && p.estado is None)
            &&& (p.fallar <==> apertura == Apertura::Fallida && !copia_existe)
            &&& (p.fallar ==> !p.apartar_danada && !p.restaurar_copia && !p.reabrir)
            &&& (apertura != Apertura::Correcta && !p.fallar ==> p.estado == Some(
                crate::modelo::DbRecoveryStatus { recovered: true, had_backup: copia_existe }))
        }),
{
}

/// El domicilio del recibo empieza por la dirección y, si hay provincia,
/// acaba en ", " y la provincia, sean cuales sean el código postal y la
/// localidad; sin dirección queda vacío, y con dirección pero sin lugar ni
/// provincia es la dirección sola.
pub proof fn ley_domicilio(direccion: Seq<char>, localidad: Seq<char>, provincia: Seq<char>, cp: Seq<char>)
    ensures
        ({
            let d = domicilio_de(direccion, localidad, provincia, cp);
            &&& (direccion.len() == 0 ==> d.len() == 0)
            &&& (direccion.len() > 0 ==> direccion.len() <= d.len() && d.subrange(0, direccion.len() as int) == direccion)
            &&& (direccion.len() > 0 && provincia.len() > 0 ==> {
                &&& d.len() >= provincia.len() + 2
                &&& d.subrange(d.len() - provincia.len() - 2, d.len() as int) == seq![',', ' '] + provincia
            })
            &&& (direccion.len() > 0 && provincia.len() == 0 && recortado(cp + seq![' '] + localidad).len() == 0
                ==> d == direccion)
        }),
{
    let d = domicilio_de(direccion, localidad, provincia, cp);
    if direccion.len() > 0 {
        let lugar = recortado(cp + seq![' '] + localidad);
        let con_lugar = if (cp.len() > 0 || localidad.len() > 0) && lugar.len() > 0 {
            direccion + seq![',', ' '] + lugar
        } else {
            direccion
        };
        assert(con_lugar.subrange(0, direccion.len() as int) =~= direccion);
        if provincia.len() > 0 {
            assert(d == con_lugar + seq![',', ' '] + provincia);
            assert(d.subrange(0, direccion.len() as int) =~= direccion);
            assert(d.subrange(d.len() - provincia.len() - 2, d.len() as int) =~= seq![',', ' '] + provincia);
        } else {
            assert(d == con_lugar);
        }
    }
}

/// El alta de una cuota guarda todos sus datos: la consulta por su id devuelve
/// una cuota con ese id y con todos los campos de `c`.
pub proof fn ley_alta_cuota_guarda_todo(antes: Database, despues: Database, c: Cuota, id: i32)
    requires
        despues.wf(),
        despues.cuotas() == antes.cuotas().push(cuota_con_id(c, id)),
    ensures
        cuota_por_id(despues.cuotas(), id) matches Some(x) && {
            &&& x.id == Some(id)
            &&& mismos_datos_cuota(x, c)
            &&& x.created_at == c.created_at
            &&& x.updated_at == c.updated_at
        },
{
    ley_alta_cuota_legible(antes, despues, c, id);
}

/// El alta de una familia guarda todos sus datos: la consulta por su id
/// devuelve una familia con ese id, ese nombre y ese hermano de referencia.
pub proof fn ley_alta_familia_guarda_todo(antes: Database, despues: Database, f: Familia, id: i32)
    requires
        despues.wf(),
        despues.familias() == antes.familias().push(familia_con_id(f, id)),
    ensures
        familia_por_id(despues.familias(), id) matches Some(x) && {
            &&& x.id == Some(id)
            &&& x.nombre_familia == f.nombre_familia
            &&& x.hermano_direccion_id == f.hermano_direccion_id
            &&& x.created_at == f.created_at
            &&& x.updated_at == f.updated_at
        },
{
    ley_alta_familia_legible(antes, despues, f, id);
}

/// La modificación de una familia guarda su nombre y su hermano de referencia
/// nuevos y conserva su id y sus marcas de tiempo.
pub proof fn ley_modificacion_familia_guarda_todo(antes: Database, despues: Database, id: i32, f: Familia)
    requires
        antes.wf(),
        despues.wf(),
        existe_familia(antes.familias(), id),
        despues.familias().len() == antes.familias().len(),
        forall|i: int| 0 <= i < antes.familias().len() ==> #[trigger] despues.familias()[i]
            == if antes.familias()[i].id == Some(id) {
                familia_modificada(antes.familias()[i], f)
            } else {
                antes.familias()[i]
            },
    ensures
        familia_por_id(despues.familias(), id) matches Some(x) && {
            let v = familia_por_id(antes.familias(), id).unwrap();
            &&& x.id == Some(id)
            &&& x.nombre_familia == f.nombre_familia
            &&& x.hermano_direccion_id == f.hermano_direccion_id
            &&& x.created_at == v.created_at
            &&& x.updated_at == v.updated_at
        },
{
    let fs = antes.familias();
    let k = choose|k: int| 0 <= k < fs.len() && (#[trigger] fs[k]).id == Some(id);
    lema_familia_por_id(fs, antes.sig_familia(), k);
    assert(despues.familias()[k] == familia_modificada(fs[k], f));
    lema_familia_por_id(despues.familias(), despues.sig_familia(), k);
}

} // verus!
