use hermanar::arranque::{migraciones_pendientes, plan_recuperacion, rutas_base_datos, Apertura};
use hermanar::backup::{comprimir_copia, nombre_copia_exportada, preparar_importacion, ErrorImportacion};
use hermanar::config::{
    get_config_file_path, get_data_dir_config, get_default_data_dir, get_effective_data_dir,
    plan_cambio_directorio, plan_restablecer_directorio, ruta_base_datos, ruta_copia_automatica, unir_ruta,
    AccionArchivo, AppConfig, Existencias,
};
use hermanar::db::{Database, DbError, ErrorAlta};
use hermanar::fecha::{marca_copia, marca_recibos, texto_fecha, texto_fecha_hora, FechaHora};
use hermanar::modelo::{Cuota, Familia, Hermano, HermanoConFamiliaData};
use hermanar::recibos::{
    configuracion_por_defecto, domicilio, formatear_fecha_alta, linea_anio, linea_total, maquetar,
    nombre_completo, preparar_recibos, ruta_pdf_recibos, ConfiguracionRecibo,
};
use hermanar::semilla::{configuracion_de_prueba, datos_de_prueba};
use hermanar::texto::{contiene_sin_mayusculas, escribir_decimal_relleno, escribir_entero, recortar};

// ============================================================================
// Datos
// ============================================================================

fn nuevo_hermano(numero: &str, nombre: &str, apellido: &str, familia_id: Option<i32>) -> Hermano {
    Hermano {
        id: None,
        numero_hermano: numero.to_string(),
        nombre: nombre.to_string(),
        primer_apellido: apellido.to_string(),
        segundo_apellido: None,
        dni: None,
        fecha_nacimiento: None,
        localidad_nacimiento: None,
        provincia_nacimiento: None,
        fecha_alta: "2024-03-15".to_string(),
        familia_id,
        telefono: None,
        email: None,
        direccion: None,
        localidad: None,
        provincia: None,
        codigo_postal: None,
        parroquia_bautismo: None,
        localidad_bautismo: None,
        provincia_bautismo: None,
        autorizacion_menores: false,
        nombre_representante_legal: None,
        dni_representante_legal: None,
        hermano_aval_1: None,
        hermano_aval_2: None,
        activo: true,
        fecha_baja: None,
        observaciones: None,
        created_at: None,
        updated_at: None,
    }
}

fn nueva_familia(nombre: &str) -> Familia {
    Familia { id: None, nombre_familia: nombre.to_string(), hermano_direccion_id: None, created_at: None, updated_at: None }
}

fn nueva_cuota(hermano_id: i32, anio: i32, centimos: i64, pagado: bool) -> Cuota {
    Cuota {
        id: None,
        hermano_id,
        anio,
        importe_centimos: centimos,
        pagado,
        fecha_pago: None,
        metodo_pago: None,
        observaciones: None,
        recibo: false,
        created_at: None,
        updated_at: None,
    }
}

/// Una familia con dos hermanos activos, un tercer hermano suelto, y cuotas de 2024.
fn almacen_con_datos() -> (Database, i32, Vec<i32>) {
    let mut db = Database::new();
    let fam = db.create_familia(&nueva_familia("García López")).unwrap();
    let a = db.create_hermano(&nuevo_hermano("001", "Juan", "García", Some(fam))).unwrap();
    let b = db.create_hermano(&nuevo_hermano("002", "Ana", "García", Some(fam))).unwrap();
    let c = db.create_hermano(&nuevo_hermano("003", "Luis", "Pérez", None)).unwrap();
    (db, fam, vec![a, b, c])
}

// ============================================================================
// Almacén
// ============================================================================

#[test]
fn prueba_ids_consecutivos() {
    let (db, fam, ids) = almacen_con_datos();
    assert_eq!(fam, 1);
    assert_eq!(ids, vec![1, 2, 3]);
    assert_eq!(db.get_all_hermanos().len(), 3);
}

#[test]
fn prueba_alta_y_lectura_hermano() {
    let (db, _, ids) = almacen_con_datos();
    let h = db.get_hermano_by_id(ids[1]).unwrap();
    assert_eq!(h.id, Some(ids[1]));
    assert_eq!(h.nombre, "Ana");
    assert_eq!(h.numero_hermano, "002");
    assert!(db.get_hermano_by_id(99).is_none());
}

#[test]
fn prueba_alta_errores() {
    let (mut db, _, _) = almacen_con_datos();
    assert_eq!(db.create_hermano(&nuevo_hermano("001", "Otro", "X", None)), Err(DbError::NumeroHermanoDuplicado));
    assert_eq!(db.create_hermano(&nuevo_hermano("009", "Otro", "X", Some(42))), Err(DbError::FamiliaNoExiste));
    let mut con_dni = nuevo_hermano("010", "Eva", "Ruiz", None);
    con_dni.dni = Some("12345678A".to_string());
    db.create_hermano(&con_dni).unwrap();
    let mut mismo_dni = nuevo_hermano("011", "Eva", "Ruiz", None);
    mismo_dni.dni = Some("12345678A".to_string());
    assert_eq!(db.create_hermano(&mismo_dni), Err(DbError::DniDuplicado));
    assert_eq!(db.create_familia(&nueva_familia("García López")), Err(DbError::NombreFamiliaDuplicado));
    assert_eq!(db.create_cuota(&nueva_cuota(77, 2024, 5000, false)), Err(DbError::HermanoNoExiste));
    db.create_cuota(&nueva_cuota(1, 2024, 5000, false)).unwrap();
    assert_eq!(db.create_cuota(&nueva_cuota(1, 2024, 100, false)), Err(DbError::CuotaDuplicada));
}

#[test]
fn prueba_update_hermano_errores_y_conserva_id() {
    let (mut db, _, ids) = almacen_con_datos();
    assert_eq!(db.update_hermano(ids[0], &nuevo_hermano("002", "Juan", "García", None)), Err(DbError::NumeroHermanoDuplicado));
    assert_eq!(db.update_hermano(ids[0], &nuevo_hermano("001", "Juan", "García", Some(50))), Err(DbError::FamiliaNoExiste));
    db.update_hermano(ids[0], &nuevo_hermano("001", "Juanito", "García", None)).unwrap();
    let h = db.get_hermano_by_id(ids[0]).unwrap();
    assert_eq!(h.id, Some(ids[0]));
    assert_eq!(h.nombre, "Juanito");
    assert_eq!(h.familia_id, None);
    // Modificar un hermano que no existe no hace nada.
    assert_eq!(db.update_hermano(1000, &nuevo_hermano("999", "Nadie", "X", None)), Ok(()));
    assert_eq!(db.get_all_hermanos().len(), 3);
}

#[test]
fn prueba_update_familia_y_cuota() {
    let (mut db, fam, ids) = almacen_con_datos();
    let otra = db.create_familia(&nueva_familia("Pérez")).unwrap();
    assert_eq!(db.update_familia(otra, &nueva_familia("García López")), Err(DbError::NombreFamiliaDuplicado));
    let mut f = nueva_familia("García-López");
    f.hermano_direccion_id = Some(ids[0]);
    db.update_familia(fam, &f).unwrap();
    let leida = db.get_familia_by_id(fam).unwrap();
    assert_eq!(leida.nombre_familia, "García-López");
    assert_eq!(leida.hermano_direccion_id, Some(ids[0]));

    let c1 = db.create_cuota(&nueva_cuota(ids[0], 2024, 5000, false)).unwrap();
    db.create_cuota(&nueva_cuota(ids[0], 2025, 5000, false)).unwrap();
    assert_eq!(db.update_cuota(c1, &nueva_cuota(ids[0], 2025, 5000, false)), Err(DbError::CuotaDuplicada));
    assert_eq!(db.update_cuota(c1, &nueva_cuota(500, 2023, 5000, false)), Err(DbError::HermanoNoExiste));
    db.update_cuota(c1, &nueva_cuota(ids[1], 2023, 4000, true)).unwrap();
    let c = db.get_cuota_by_id(c1).unwrap();
    assert_eq!((c.id, c.hermano_id, c.anio, c.importe_centimos, c.pagado), (Some(c1), ids[1], 2023, 4000, true));
}

#[test]
fn prueba_borrado_en_cascada() {
    let (mut db, _, ids) = almacen_con_datos();
    db.create_cuota(&nueva_cuota(ids[0], 2023, 5000, true)).unwrap();
    db.create_cuota(&nueva_cuota(ids[0], 2024, 5000, false)).unwrap();
    db.create_cuota(&nueva_cuota(ids[1], 2024, 5000, false)).unwrap();
    db.delete_hermano(ids[0]).unwrap();
    assert!(db.get_hermano_by_id(ids[0]).is_none());
    assert!(db.get_cuotas_by_hermano(ids[0]).is_empty());
    assert_eq!(db.get_all_cuotas().len(), 1);
    assert_eq!(db.get_all_cuotas()[0].hermano_id, ids[1]);
}

#[test]
fn prueba_borrado_inexistente_no_cambia_nada() {
    let (mut db, _, ids) = almacen_con_datos();
    db.create_cuota(&nueva_cuota(ids[0], 2024, 5000, false)).unwrap();
    db.delete_hermano(500).unwrap();
    db.delete_cuota(500).unwrap();
    assert_eq!(db.get_all_hermanos().len(), 3);
    assert_eq!(db.get_all_cuotas().len(), 1);
}

#[test]
fn prueba_delete_familia_con_activos_y_sin_ellos() {
    let (mut db, fam, ids) = almacen_con_datos();
    assert_eq!(db.delete_familia(fam), Err(DbError::FamiliaConHermanosActivos));
    db.set_hermano_inactive(ids[0], "2026-02-06").unwrap();
    db.set_hermano_inactive(ids[1], "2026-02-06").unwrap();
    db.delete_familia(fam).unwrap();
    assert!(db.get_familia_by_id(fam).is_none());
    assert_eq!(db.get_hermano_by_id(ids[0]).unwrap().familia_id, None);
    assert_eq!(db.get_hermano_by_id(ids[1]).unwrap().familia_id, None);
    assert!(!db.get_hermano_by_id(ids[1]).unwrap().activo);
}

#[test]
fn prueba_busquedas_sin_mayusculas() {
    let (mut db, _, _) = almacen_con_datos();
    db.create_familia(&nueva_familia("Romero")).unwrap();
    assert_eq!(db.search_hermanos("gARCía").len(), 2);
    assert_eq!(db.search_hermanos("00").len(), 3);
    assert_eq!(db.search_hermanos("luis").len(), 1);
    assert_eq!(db.search_hermanos("zzz").len(), 0);
    assert_eq!(db.search_familias("ROMERO").len(), 1);
    assert_eq!(db.search_familias("").len(), 2);
}

#[test]
fn prueba_familia_stats_y_direccion() {
    let (mut db, fam, ids) = almacen_con_datos();
    db.set_hermano_inactive(ids[1], "2026-02-06").unwrap();
    assert_eq!(db.get_familia_stats(fam), Ok((2, 1)));
    assert_eq!(db.get_familia_stats(99), Ok((0, 0)));
    let mut f = nueva_familia("García López");
    f.hermano_direccion_id = Some(ids[0]);
    db.update_familia(fam, &f).unwrap();
    let d = db.get_familia_with_address(fam).unwrap().unwrap();
    assert_eq!(d.familia.id, Some(fam));
    assert_eq!(d.hermano_direccion.unwrap().id, Some(ids[0]));
    assert!(db.get_familia_with_address(99).unwrap().is_none());
    assert_eq!(db.get_familia_with_hermanos(fam).unwrap().unwrap().id, Some(fam));
}

#[test]
fn prueba_marcar_cuota_pagada() {
    let (mut db, _, ids) = almacen_con_datos();
    let c = db.create_cuota(&nueva_cuota(ids[2], 2024, 2500, false)).unwrap();
    db.marcar_cuota_pagada(c, "2024-05-01", "transferencia").unwrap();
    let leida = db.get_cuota_by_id(c).unwrap();
    assert!(leida.pagado);
    assert_eq!(leida.fecha_pago.as_deref(), Some("2024-05-01"));
    assert_eq!(leida.metodo_pago.as_deref(), Some("transferencia"));
    assert_eq!(leida.importe_centimos, 2500);
    // Una cuota que no existe: no hay error y nada cambia.
    assert_eq!(db.marcar_cuota_pagada(999, "2024-05-01", "efectivo"), Ok(()));
}

#[test]
fn prueba_pago_familia_idempotente() {
    let (mut db, fam, ids) = almacen_con_datos();
    db.create_cuota(&nueva_cuota(ids[0], 2024, 5000, false)).unwrap();
    db.create_cuota(&nueva_cuota(ids[1], 2024, 5000, true)).unwrap();
    db.create_cuota(&nueva_cuota(ids[2], 2024, 5000, false)).unwrap();
    db.create_cuota(&nueva_cuota(ids[0], 2023, 5000, false)).unwrap();
    assert_eq!(db.pagar_cuotas_familia(fam, 2024, "2024-06-01", "efectivo"), Ok(1));
    assert_eq!(db.pagar_cuotas_familia(fam, 2024, "2024-06-02", "tarjeta"), Ok(0));
    let de_juan = db.get_cuotas_by_hermano(ids[0]);
    let c2024 = de_juan.iter().find(|c| c.anio == 2024).unwrap();
    assert!(c2024.pagado);
    assert_eq!(c2024.fecha_pago.as_deref(), Some("2024-06-01"));
    let c2023 = de_juan.iter().find(|c| c.anio == 2023).unwrap();
    assert!(!c2023.pagado);
    assert!(!db.get_cuotas_by_hermano(ids[2])[0].pagado);
}

#[test]
fn prueba_generar_cuotas_idempotente() {
    let (mut db, _, ids) = almacen_con_datos();
    db.set_hermano_inactive(ids[2], "2026-02-06").unwrap();
    db.create_cuota(&nueva_cuota(ids[0], 2025, 3000, true)).unwrap();
    assert_eq!(db.generar_cuotas_anio(2025, 4500), Ok(1));
    assert_eq!(db.generar_cuotas_anio(2025, 4500), Ok(0));
    let de_2025 = db.get_cuotas_by_year(2025);
    assert_eq!(de_2025.len(), 2);
    let generada = de_2025.iter().find(|c| c.hermano_id == ids[1]).unwrap();
    assert_eq!(generada.importe_centimos, 4500);
    assert!(!generada.pagado);
    assert!(!generada.recibo);
    // La que ya existía no cambia.
    let previa = de_2025.iter().find(|c| c.hermano_id == ids[0]).unwrap();
    assert_eq!(previa.importe_centimos, 3000);
}

#[test]
fn prueba_estadisticas_cuadran() {
    let (mut db, _, ids) = almacen_con_datos();
    db.create_cuota(&nueva_cuota(ids[0], 2024, 5000, true)).unwrap();
    db.create_cuota(&nueva_cuota(ids[1], 2024, 5050, true)).unwrap();
    db.create_cuota(&nueva_cuota(ids[2], 2024, 5000, false)).unwrap();
    db.create_cuota(&nueva_cuota(ids[0], 2023, 1000, false)).unwrap();
    let e = db.get_estadisticas_cuotas(Some(2024)).unwrap();
    assert_eq!(e.total_recaudado_centimos, 10050);
    assert_eq!(e.cuotas_pagadas, 2);
    assert_eq!(e.cuotas_pendientes, 1);
    assert_eq!(e.hermanos_al_dia, 2);
    assert_eq!(e.hermanos_morosos, 1);
    assert_eq!(e.hermanos_al_dia + e.hermanos_morosos, db.get_hermanos_activos().len() as i32);
    let todas = db.get_estadisticas_cuotas(None).unwrap();
    assert_eq!(todas.cuotas_pagadas + todas.cuotas_pendientes, 4);
    assert_eq!(todas.hermanos_morosos, 2);
    assert_eq!(todas.hermanos_al_dia, 1);
}

#[test]
fn prueba_marcar_recibos_generados() {
    let (mut db, _, ids) = almacen_con_datos();
    let c1 = db.create_cuota(&nueva_cuota(ids[0], 2024, 5000, false)).unwrap();
    let c2 = db.create_cuota(&nueva_cuota(ids[1], 2024, 5000, false)).unwrap();
    db.marcar_recibos_generados(&vec![c2, 999], "2024-07-01 10:00:00").unwrap();
    let sin_marcar = db.get_cuota_by_id(c1).unwrap();
    assert!(!sin_marcar.recibo);
    assert_eq!(sin_marcar.updated_at, None);
    let marcada = db.get_cuota_by_id(c2).unwrap();
    assert!(marcada.recibo);
    assert_eq!(marcada.updated_at.as_deref(), Some("2024-07-01 10:00:00"));
    assert_eq!(db.get_all_cuotas().len(), 2);
}

#[test]
fn prueba_alta_con_familia_nueva() {
    let mut db = Database::new();
    let data = HermanoConFamiliaData {
        hermano: nuevo_hermano("100", "Rosa", "Molina", None),
        nueva_familia_nombre: Some("Molina".to_string()),
    };
    let hid = db.create_hermano_con_familia(&data).unwrap();
    let h = db.get_hermano_by_id(hid).unwrap();
    let fid = h.familia_id.unwrap();
    let f = db.get_familia_by_id(fid).unwrap();
    assert_eq!(f.nombre_familia, "Molina");
    assert_eq!(f.hermano_direccion_id, Some(hid));

    // El nombre ya existe: se rechaza sin crear al hermano.
    let repetida = HermanoConFamiliaData {
        hermano: nuevo_hermano("101", "Pablo", "Molina", None),
        nueva_familia_nombre: Some("Molina".to_string()),
    };
    match db.create_hermano_con_familia(&repetida) {
        Err(ErrorAlta::Familia { nombre, error }) => {
            assert_eq!(nombre, "Molina");
            assert_eq!(error, DbError::NombreFamiliaDuplicado);
        },
        otro => panic!("resultado inesperado: {:?}", otro),
    }
    assert_eq!(db.get_all_hermanos().len(), 1);

    // La familia se crea pero el hermano no (número repetido): la familia queda.
    let numero_repetido = HermanoConFamiliaData {
        hermano: nuevo_hermano("100", "Pablo", "Soto", None),
        nueva_familia_nombre: Some("Soto".to_string()),
    };
    match db.create_hermano_con_familia(&numero_repetido) {
        Err(ErrorAlta::Hermano(e)) => assert_eq!(e, DbError::NumeroHermanoDuplicado),
        otro => panic!("resultado inesperado: {:?}", otro),
    }
    assert_eq!(db.search_familias("Soto").len(), 1);

    // Sin familia nueva: se usa la del hermano.
    let sin_nueva = HermanoConFamiliaData {
        hermano: nuevo_hermano("102", "Marta", "Molina", Some(fid)),
        nueva_familia_nombre: None,
    };
    let otro = db.create_hermano_con_familia(&sin_nueva).unwrap();
    assert_eq!(db.get_hermano_by_id(otro).unwrap().familia_id, Some(fid));
}

#[test]
fn prueba_configuracion_recibo() {
    let mut db = Database::new();
    assert!(db.get_configuracion_recibo().unwrap().is_none());
    let config = ConfiguracionRecibo {
        logo_path: None,
        nombre_hermandad: "HERMANDAD DE LA SOLEDAD".to_string(),
        ubicacion: "SEVILLA".to_string(),
        direccion: "Calle Mayor 1".to_string(),
    };
    db.guardar_configuracion_recibo(config).unwrap();
    let leida = db.get_configuracion_recibo().unwrap().unwrap();
    assert_eq!(leida.nombre_hermandad, "HERMANDAD DE LA SOLEDAD");
    assert_eq!(leida.ubicacion, "SEVILLA");
}

#[test]
fn prueba_desde_tablas_reconstruye() {
    let (mut db, fam, ids) = almacen_con_datos();
    db.create_cuota(&nueva_cuota(ids[0], 2024, 5000, false)).unwrap();
    db.delete_hermano(ids[2]).unwrap();
    let copia = Database::desde_tablas(db.get_all_hermanos(), db.get_all_familias(), db.get_all_cuotas(), None, 3, 1, 1);
    let mut copia = copia.unwrap();
    assert_eq!(copia.get_all_hermanos().len(), 2);
    assert_eq!(copia.get_familia_by_id(fam).unwrap().nombre_familia, "García López");
    // Los ids siguen tras el mayor asignado: el 3 se borró y no se reutiliza.
    assert_eq!(copia.create_hermano(&nuevo_hermano("050", "Nuevo", "X", None)), Ok(4));
    assert_eq!(copia.create_familia(&nueva_familia("Otra")), Ok(2));
    assert_eq!(copia.create_cuota(&nueva_cuota(ids[1], 2024, 5000, false)), Ok(2));

    // Sin registro de ids asignados, se sigue tras la última fila.
    let mut otra = Database::desde_tablas(db.get_all_hermanos(), vec![], vec![], None, 0, 0, 0);
    assert!(otra.is_none());
    otra = Database::desde_tablas(db.get_all_hermanos(), db.get_all_familias(), vec![], None, 0, 0, 0);
    assert_eq!(otra.unwrap().create_hermano(&nuevo_hermano("050", "Nuevo", "X", None)), Ok(3));

    let agotada = Database::desde_tablas(vec![], vec![], vec![], None, i32::MAX, 0, 0);
    assert!(agotada.is_none());
}

#[test]
fn prueba_desde_tablas_rechaza() {
    let mut h1 = nuevo_hermano("001", "A", "B", None);
    h1.id = Some(1);
    let mut h2 = nuevo_hermano("001", "C", "D", None);
    h2.id = Some(2);
    assert!(Database::desde_tablas(vec![h1, h2], vec![], vec![], None, 0, 0, 0).is_none());

    let mut h3 = nuevo_hermano("001", "A", "B", Some(7));
    h3.id = Some(1);
    assert!(Database::desde_tablas(vec![h3], vec![], vec![], None, 0, 0, 0).is_none());

    let mut h4 = nuevo_hermano("001", "A", "B", None);
    h4.id = Some(5);
    let mut h5 = nuevo_hermano("002", "A", "B", None);
    h5.id = Some(3);
    assert!(Database::desde_tablas(vec![h4, h5], vec![], vec![], None, 0, 0, 0).is_none());

    let mut c = nueva_cuota(1, 2024, 5000, false);
    c.id = Some(1);
    assert!(Database::desde_tablas(vec![], vec![], vec![c], None, 0, 0, 0).is_none());

    let mut sin_id = nueva_familia("X");
    sin_id.id = None;
    assert!(Database::desde_tablas(vec![], vec![sin_id], vec![], None, 0, 0, 0).is_none());

    let mut h6 = nuevo_hermano("001", "A", "B", None);
    h6.id = Some(i32::MAX);
    assert!(Database::desde_tablas(vec![h6], vec![], vec![], None, 0, 0, 0).is_none());
}

#[test]
fn prueba_descripcion_errores() {
    assert_eq!(DbError::NumeroHermanoDuplicado.descripcion(), "UNIQUE constraint failed: hermanos.numero_hermano");
    assert_eq!(DbError::CuotaDuplicada.descripcion(), "UNIQUE constraint failed: cuotas.hermano_id, cuotas.anio");
    assert_eq!(DbError::HermanoNoExiste.descripcion(), "FOREIGN KEY constraint failed");
    assert_eq!(DbError::CuotaNoExiste.descripcion(), "Query returned no rows");
}

// ============================================================================
// Recibos
// ============================================================================

#[test]
fn prueba_nombre_completo() {
    assert_eq!(nombre_completo(&"Juan".to_string(), &"García".to_string(), &Some("López".to_string())), "Juan García López");
    assert_eq!(nombre_completo(&"Juan".to_string(), &"García".to_string(), &None), "Juan García ");
}

#[test]
fn prueba_formatear_fecha_alta() {
    assert_eq!(formatear_fecha_alta("2024-01-15"), "15/01/2024");
    assert_eq!(formatear_fecha_alta("2024/01/15"), "2024/01/15");
    assert_eq!(formatear_fecha_alta("2024-01"), "2024-01");
    assert_eq!(formatear_fecha_alta("2024-01-15-extra"), "15/01/2024");
    assert_eq!(formatear_fecha_alta(""), "");
}

#[test]
fn prueba_domicilio() {
    let s = |x: &str| Some(x.to_string());
    assert_eq!(domicilio(&s("C/ Real 3"), &s("Osuna"), &s("Sevilla"), &s("41640")), "C/ Real 3, 41640 Osuna, Sevilla");
    assert_eq!(domicilio(&s("C/ Real 3"), &s("Osuna"), &None, &None), "C/ Real 3, Osuna");
    assert_eq!(domicilio(&s("C/ Real 3"), &None, &None, &s("41640")), "C/ Real 3, 41640");
    assert_eq!(domicilio(&s("C/ Real 3"), &None, &s("Sevilla"), &None), "C/ Real 3, Sevilla");
    assert_eq!(domicilio(&None, &s("Osuna"), &s("Sevilla"), &s("41640")), "");
    assert_eq!(domicilio(&s("C/ Real 3"), &s("  "), &None, &None), "C/ Real 3");
}

#[test]
fn prueba_lineas_importe() {
    assert_eq!(linea_anio(2025, 5000), "AÑO 2025              CUOTA ANUAL: 50 €");
    assert_eq!(linea_total(5050), "TOTAL: 50.5 €");
    assert_eq!(linea_total(1205), "TOTAL: 12.05 €");
    assert_eq!(linea_total(7), "TOTAL: 0.07 €");
    assert_eq!(linea_total(-150), "TOTAL: -1.5 €");
    // El mismo texto que escribe Rust para el importe en euros.
    for centimos in [0i64, 1, 10, 99, 100, 1234, 5000, 5050, 123456] {
        let euros = centimos as f64 / 100.0;
        assert_eq!(linea_total(centimos), format!("TOTAL: {} €", euros));
    }
}

#[test]
fn prueba_maquetar_tres_por_pagina() {
    let p = maquetar(7);
    assert_eq!(p.len(), 7);
    let paginas: Vec<usize> = p.iter().map(|x| x.pagina).collect();
    assert_eq!(paginas, vec![0, 0, 0, 1, 1, 1, 2]);
    let alturas: Vec<i32> = p.iter().map(|x| x.y_titulo).collect();
    assert_eq!(alturas, vec![2700, 1870, 1040, 2700, 1870, 1040, 2700]);
    assert_eq!(p[0].y_ubicacion, 2640);
    assert_eq!(p[0].y_direccion, 2590);
    assert_eq!(p[0].y_cabecera, 2510);
    assert_eq!(p[0].y_anio, 2390);
    assert_eq!(p[0].y_datos, 2290);
    assert_eq!(p[0].y_nota, 2010);
    assert!(maquetar(0).is_empty());
}

#[test]
fn prueba_preparar_recibos() {
    let (mut db, _, ids) = almacen_con_datos();
    let mut h = nuevo_hermano("003", "Luis", "Pérez", None);
    h.segundo_apellido = Some("Gil".to_string());
    h.direccion = Some("Plaza Nueva 2".to_string());
    h.localidad = Some("Écija".to_string());
    h.codigo_postal = Some("41400".to_string());
    db.update_hermano(ids[2], &h).unwrap();
    let c1 = db.create_cuota(&nueva_cuota(ids[2], 2024, 4550, false)).unwrap();
    let c2 = db.create_cuota(&nueva_cuota(ids[0], 2024, 5000, false)).unwrap();

    let doc = preparar_recibos(&db, &vec![c1, c2]).unwrap();
    assert_eq!(doc.configuracion.nombre_hermandad, "NOMBRE DE LA HERMANDAD");
    assert_eq!(doc.recibos.len(), 2);
    let r = &doc.recibos[0];
    assert_eq!(r.cuota.id, Some(c1));
    assert_eq!(r.numero_hermano, "003");
    assert_eq!(r.nombre_completo, "Luis Pérez Gil");
    assert_eq!(r.fecha_alta, "15/03/2024");
    assert_eq!(r.domicilio, "Plaza Nueva 2, 41400 Écija");
    assert_eq!(r.texto_anio, "AÑO 2024              CUOTA ANUAL: 45.5 €");
    assert_eq!(r.texto_total, "TOTAL: 45.5 €");
    assert_eq!(doc.recibos[1].posicion.y_titulo, 1870);

    assert!(matches!(preparar_recibos(&db, &vec![c1, 999]), Err(DbError::CuotaNoExiste)));

    db.guardar_configuracion_recibo(ConfiguracionRecibo {
        logo_path: None,
        nombre_hermandad: "COFRADÍA".to_string(),
        ubicacion: "CARMONA".to_string(),
        direccion: "Iglesia".to_string(),
    })
    .unwrap();
    assert_eq!(preparar_recibos(&db, &vec![]).unwrap().configuracion.nombre_hermandad, "COFRADÍA");
}

#[test]
fn prueba_configuracion_por_defecto() {
    let c = configuracion_por_defecto();
    assert_eq!(c.nombre_hermandad, "NOMBRE DE LA HERMANDAD");
    assert_eq!(c.ubicacion, "LOCALIDAD");
    assert_eq!(c.direccion, "Dirección completa");
    assert!(c.logo_path.is_none());
}

#[test]
fn prueba_ruta_pdf() {
    let s = |x: &str| Some(x.to_string());
    assert_eq!(ruta_pdf_recibos(&s("/home/ana"), &s("C:\\Users\\ana"), "20240101_101010"), "/home/ana/Documentos/recibos_20240101_101010.pdf");
    assert_eq!(ruta_pdf_recibos(&None, &s("C:\\Users\\ana"), "X"), "C:\\Users\\ana/Documentos/recibos_X.pdf");
    assert_eq!(ruta_pdf_recibos(&None, &None, "X"), "./Documentos/recibos_X.pdf");
}

// ============================================================================
// Fechas
// ============================================================================

fn fh(anio: i32, mes: u32, dia: u32, hora: u32, minuto: u32, segundo: u32) -> FechaHora {
    FechaHora { anio, mes, dia, hora, minuto, segundo }
}

#[test]
fn prueba_marcas_de_tiempo() {
    assert_eq!(marca_copia(&fh(2024, 2, 29, 12, 5, 9)).as_deref(), Some("2024-02-29-12-05-09"));
    assert_eq!(marca_recibos(&fh(2024, 2, 29, 12, 5, 9)).as_deref(), Some("20240229_120509"));
    assert_eq!(marca_copia(&fh(2023, 2, 29, 12, 5, 9)), None);
    assert_eq!(marca_copia(&fh(2024, 4, 31, 0, 0, 0)), None);
    assert_eq!(marca_recibos(&fh(2024, 1, 1, 24, 0, 0)), None);
    assert_eq!(marca_recibos(&fh(2024, 13, 1, 0, 0, 0)), None);
}

// ============================================================================
// Copias de seguridad
// ============================================================================

fn base_sqlite() -> Vec<u8> {
    let mut v = b"SQLite format 3\0".to_vec();
    v.extend((0..200u32).map(|i| (i % 251) as u8));
    v
}

#[test]
fn prueba_copia_ida_y_vuelta() {
    let datos = base_sqlite();
    let comprimido = comprimir_copia(&datos).unwrap();
    assert_ne!(comprimido, datos);
    assert_eq!(preparar_importacion(&comprimido), Ok(datos));
}

#[test]
fn prueba_importacion_rechaza() {
    match preparar_importacion(b"esto no es zstd") {
        Err(ErrorImportacion::Descompresion(m)) => assert!(!m.is_empty()),
        otro => panic!("resultado inesperado: {:?}", otro),
    }
    let texto = comprimir_copia(b"un archivo de texto cualquiera").unwrap();
    assert_eq!(preparar_importacion(&texto), Err(ErrorImportacion::NoEsSqlite));
    let corto = comprimir_copia(b"SQLite format 3").unwrap();
    assert_eq!(preparar_importacion(&corto), Err(ErrorImportacion::NoEsSqlite));
    assert_eq!(ErrorImportacion::NoEsSqlite.mensaje(), "El archivo no es una base de datos SQLite válida");
    assert_eq!(ErrorImportacion::Descompresion("x".to_string()).mensaje(), "Error al descomprimir: x");
}

#[test]
fn prueba_nombre_copia_exportada() {
    assert_eq!(nombre_copia_exportada("2024-02-29-12-05-09"), "hermanar-2024-02-29-12-05-09.zst");
}

// ============================================================================
// Configuración y arranque
// ============================================================================

#[test]
fn prueba_directorio_por_defecto() {
    let s = |x: &str| Some(x.to_string());
    assert_eq!(get_default_data_dir(&s("C:\\AppData"), &s("/home/ana")), "C:\\AppData/hermanar");
    assert_eq!(get_default_data_dir(&None, &s("/home/ana")), "/home/ana/.local/share/hermanar");
    assert_eq!(get_default_data_dir(&None, &None), "./hermanar");
    assert_eq!(get_config_file_path("/home/ana/.local/share/hermanar"), "/home/ana/.local/share/hermanar/config.json");
}

#[test]
fn prueba_unir_rutas() {
    assert_eq!(unir_ruta("/datos", "hermanar.db"), "/datos/hermanar.db");
    assert_eq!(unir_ruta("/datos/", "hermanar.db"), "/datos/hermanar.db");
    assert_eq!(unir_ruta("", "hermanar.db"), "hermanar.db");
    assert_eq!(ruta_base_datos("/d"), "/d/hermanar.db");
    assert_eq!(ruta_copia_automatica("/d"), "/d/hermanar.db.backup");
}

#[test]
fn prueba_directorio_efectivo() {
    let personal = AppConfig { custom_data_dir: Some("/mis/datos".to_string()) };
    let vacio = AppConfig { custom_data_dir: Some(String::new()) };
    let ninguno = AppConfig { custom_data_dir: None };
    assert_eq!(get_effective_data_dir(&personal, "/def"), "/mis/datos");
    assert_eq!(get_effective_data_dir(&vacio, "/def"), "/def");
    assert_eq!(get_effective_data_dir(&ninguno, "/def"), "/def");
    let c = get_data_dir_config(&personal, "/def");
    assert!(c.is_custom);
    assert_eq!(c.current_dir, "/mis/datos");
    assert_eq!(c.default_dir, "/def");
    assert!(!get_data_dir_config(&vacio, "/def").is_custom);
}

fn vista(a: &AccionArchivo) -> (u8, String, String) {
    match a {
        AccionArchivo::CopiarBase { origen, destino } => (0, origen.clone(), destino.clone()),
        AccionArchivo::CopiarCopiaAutomatica { origen, destino } => (1, origen.clone(), destino.clone()),
        AccionArchivo::ApartarBaseNueva { origen, destino } => (2, origen.clone(), destino.clone()),
        AccionArchivo::CopiaComprimida { origen, nombre } => (3, origen.clone(), nombre.clone()),
    }
}

#[test]
fn prueba_plan_cambio_directorio() {
    let todo = Existencias { bd_actual: true, copia_actual: true, bd_nueva: true, copia_nueva: false };
    let sin_conflicto = plan_cambio_directorio("/a", "/b", None, todo, "M");
    let v: Vec<_> = sin_conflicto.acciones.iter().map(vista).collect();
    assert_eq!(v, vec![
        (0, "/a/hermanar.db".to_string(), "/b/hermanar.db".to_string()),
        (1, "/a/hermanar.db.backup".to_string(), "/b/hermanar.db.backup".to_string()),
    ]);
    assert_eq!(sin_conflicto.config.custom_data_dir.as_deref(), Some("/b"));
    assert_eq!(sin_conflicto.mensaje, "Ruta de datos cambiada a: /b. Reinicia la aplicación para aplicar los cambios.");

    let existente = plan_cambio_directorio("/a", "/b", Some(true), todo, "2024-01-01-00-00-00");
    let v: Vec<_> = existente.acciones.iter().map(vista).collect();
    assert_eq!(v, vec![(3, "/a/hermanar.db".to_string(), "hermanar-antes-cambio-ruta-2024-01-01-00-00-00.zst".to_string())]);

    let actual = plan_cambio_directorio("/a", "/b", Some(false), todo, "M");
    let v: Vec<_> = actual.acciones.iter().map(vista).collect();
    assert_eq!(v, vec![
        (2, "/b/hermanar.db".to_string(), "/b/hermanar.db.backup".to_string()),
        (0, "/a/hermanar.db".to_string(), "/b/hermanar.db".to_string()),
    ]);

    let sin_bd_nueva = Existencias { bd_actual: true, copia_actual: true, bd_nueva: false, copia_nueva: false };
    let v: Vec<_> = plan_cambio_directorio("/a", "/b", Some(false), sin_bd_nueva, "M").acciones.iter().map(vista).collect();
    assert_eq!(v, vec![
        (0, "/a/hermanar.db".to_string(), "/b/hermanar.db".to_string()),
        (1, "/a/hermanar.db.backup".to_string(), "/b/hermanar.db.backup".to_string()),
    ]);

    let nada = Existencias { bd_actual: false, copia_actual: false, bd_nueva: false, copia_nueva: false };
    assert!(plan_cambio_directorio("/a", "/b", Some(true), nada, "M").acciones.is_empty());
}

#[test]
fn prueba_plan_restablecer() {
    let (config, mensaje) = plan_restablecer_directorio("/def/hermanar");
    assert!(config.custom_data_dir.is_none());
    assert_eq!(mensaje, "Ruta de datos restablecida al directorio por defecto: /def/hermanar. Reinicia la aplicación para aplicar los cambios.");
}

#[test]
fn prueba_plan_recuperacion() {
    let bien = plan_recuperacion(Apertura::Correcta, true, true);
    assert!(!bien.apartar_danada && !bien.restaurar_copia && !bien.reabrir && !bien.fallar && bien.estado.is_none());

    let danada = plan_recuperacion(Apertura::Danada, true, false);
    assert!(danada.apartar_danada && !danada.restaurar_copia && danada.reabrir && !danada.fallar);
    let e = danada.estado.unwrap();
    assert!(e.recovered && !e.had_backup);

    let danada_con_copia = plan_recuperacion(Apertura::Danada, true, true);
    assert!(danada_con_copia.restaurar_copia);
    assert!(danada_con_copia.estado.unwrap().had_backup);

    let fallida = plan_recuperacion(Apertura::Fallida, false, true);
    assert!(!fallida.apartar_danada && fallida.restaurar_copia && fallida.reabrir);
    assert!(fallida.estado.unwrap().had_backup);

    let sin_salida = plan_recuperacion(Apertura::Fallida, true, false);
    assert!(sin_salida.fallar && !sin_salida.reabrir && sin_salida.estado.is_none());
}

#[test]
fn prueba_rutas_y_migraciones() {
    let r = rutas_base_datos("/d/hermanar");
    assert_eq!(r.base, "/d/hermanar/hermanar.db");
    assert_eq!(r.copia, "/d/hermanar/hermanar.db.backup");
    assert_eq!(r.danada, "/d/hermanar/hermanar-corrupta.db");
    assert_eq!(migraciones_pendientes(0), vec![1, 2, 3]);
    assert_eq!(migraciones_pendientes(1), vec![2, 3]);
    assert_eq!(migraciones_pendientes(2), vec![3]);
    assert_eq!(migraciones_pendientes(3), Vec::<i32>::new());
    assert_eq!(migraciones_pendientes(-3), vec![1, 2, 3]);
}

// ============================================================================
// Texto
// ============================================================================

#[test]
fn prueba_texto() {
    assert!(contiene_sin_mayusculas("García", "GAR"));
    assert!(contiene_sin_mayusculas("abc", ""));
    assert!(!contiene_sin_mayusculas("ab", "abc"));
    // Sólo se pliegan las letras ASCII, como en LIKE de SQLite.
    assert!(!contiene_sin_mayusculas("ÑOÑO", "ñ"));
    assert_eq!(recortar("  a b \t\n"), "a b");
    assert_eq!(recortar("   "), "");
    let mut s = String::new();
    escribir_entero(-305, &mut s);
    assert_eq!(s, "-305");
    let mut t = String::from("x");
    escribir_decimal_relleno(7, 3, &mut t);
    assert_eq!(t, "x007");
}

// ============================================================================
// Datos de prueba
// ============================================================================

#[test]
fn prueba_datos_de_prueba() {
    let (familias, hermanos, cuotas) = datos_de_prueba(1, 1, 1);
    assert_eq!(familias.len(), 15);
    assert_eq!(hermanos.len(), 45);
    assert_eq!(cuotas.len(), 135);

    let h = &hermanos[0];
    assert_eq!(h.id, Some(1));
    assert_eq!(h.numero_hermano, "0001");
    assert_eq!(h.nombre, "Juan");
    assert_eq!(h.primer_apellido, "García");
    assert_eq!(h.segundo_apellido.as_deref(), Some("López"));
    assert_eq!(h.dni.as_deref(), Some("10123456B"));
    assert_eq!(h.telefono.as_deref(), Some("620012345"));
    assert_eq!(h.email.as_deref(), Some("jgarcía@email.com"));
    assert_eq!(h.fecha_alta, "2016-02-02");
    assert_eq!(h.fecha_nacimiento.as_deref(), Some("1941-02-02"));
    assert_eq!(h.direccion.as_deref(), Some("Calle Mayor, 2"));
    assert_eq!(h.codigo_postal.as_deref(), Some("13600"));
    assert_eq!(h.localidad.as_deref(), Some("Alcázar de San Juan"));
    assert_eq!(h.familia_id, Some(1));
    assert!(h.activo);

    // La segunda familia tiene tres hermanos, del tercero al quinto.
    assert_eq!(hermanos[2].familia_id, Some(2));
    assert_eq!(hermanos[4].familia_id, Some(2));
    assert_eq!(hermanos[5].familia_id, Some(3));
    assert_eq!(familias[1].hermano_direccion_id, Some(3));
    assert_eq!(familias[0].nombre_familia, "García Rodríguez");

    // Un hermano con mayúscula acentuada en el nombre.
    let angeles = hermanos.iter().find(|h| h.nombre == "Ángeles").unwrap();
    assert!(angeles.email.as_deref().unwrap().starts_with('á'));

    let c = &cuotas[0];
    assert_eq!((c.id, c.hermano_id, c.anio, c.importe_centimos), (Some(1), 1, 2024, 3500));
    assert!(c.pagado && c.recibo);
    assert_eq!(c.fecha_pago.as_deref(), Some("2024-02-02"));
    assert_eq!(c.metodo_pago.as_deref(), Some("Transferencia"));
    // Hermano 5: pagadas las de 2024 y 2025, sin recibo; la de 2026 pendiente.
    let de_5: Vec<_> = cuotas.iter().filter(|c| c.hermano_id == 5).collect();
    assert_eq!(de_5.len(), 3);
    assert!(de_5[0].pagado && !de_5[0].recibo);
    assert!(!de_5[2].pagado && de_5[2].fecha_pago.is_none());

    let db = Database::desde_tablas(hermanos, familias, cuotas, Some(configuracion_de_prueba()), 0, 0, 0);
    assert!(db.is_some());
}

#[test]
fn prueba_datos_de_prueba_ids_desplazados() {
    let (familias, hermanos, cuotas) = datos_de_prueba(16, 46, 136);
    assert_eq!(familias[0].id, Some(16));
    assert_eq!(familias[0].hermano_direccion_id, Some(46));
    assert_eq!(hermanos[0].familia_id, Some(16));
    assert_eq!(cuotas[0].hermano_id, 46);
    assert_eq!(cuotas[134].id, Some(270));
    let db = Database::desde_tablas(hermanos, familias, cuotas, None, 45, 15, 135);
    assert!(db.is_some());
}

#[test]
fn prueba_cambio_al_mismo_directorio() {
    let todo = Existencias { bd_actual: true, copia_actual: true, bd_nueva: true, copia_nueva: true };
    for opcion in [None, Some(false)] {
        assert!(plan_cambio_directorio("/a", "/a", opcion, todo, "M").acciones.is_empty());
        assert!(plan_cambio_directorio("/a", "/a/", opcion, todo, "M").acciones.is_empty());
    }
    let v: Vec<_> = plan_cambio_directorio("/a", "/a", Some(true), todo, "M").acciones.iter().map(vista).collect();
    assert_eq!(v, vec![(3, "/a/hermanar.db".to_string(), "hermanar-antes-cambio-ruta-M.zst".to_string())]);
}

#[test]
fn prueba_importa_otros_niveles() {
    let datos = base_sqlite();
    for nivel in [1, 9, 19] {
        let comprimido = zstd::encode_all(&datos[..], nivel).unwrap();
        assert_eq!(preparar_importacion(&comprimido), Ok(datos.clone()));
    }
    let texto = zstd::encode_all(&b"no es una base"[..], 19).unwrap();
    assert_eq!(preparar_importacion(&texto), Err(ErrorImportacion::NoEsSqlite));
}

#[test]
fn prueba_marca_anio_con_signo() {
    assert_eq!(marca_copia(&fh(12345, 1, 2, 3, 4, 5)).as_deref(), Some("+12345-01-02-03-04-05"));
    assert_eq!(marca_recibos(&fh(-5, 1, 2, 3, 4, 5)).as_deref(), Some("-00050102_030405"));
    assert_eq!(marca_recibos(&fh(999, 12, 31, 23, 59, 59)).as_deref(), Some("09991231_235959"));
}

// ============================================================================
// Bajas y DNI
// ============================================================================

#[test]
fn prueba_baja_con_fecha() {
    let (mut db, _, ids) = almacen_con_datos();
    db.set_hermano_inactive(ids[0], "2025-12-31").unwrap();
    let h = db.get_hermano_by_id(ids[0]).unwrap();
    assert!(!h.activo);
    assert_eq!(h.fecha_baja.as_deref(), Some("2025-12-31"));

    let mut sin_fecha = nuevo_hermano("200", "Eva", "Mora", None);
    sin_fecha.activo = false;
    assert_eq!(db.create_hermano(&sin_fecha), Err(DbError::FechaBajaObligatoria));
    sin_fecha.fecha_baja = Some("2025-01-01".to_string());
    assert!(db.create_hermano(&sin_fecha).is_ok());

    let mut datos = db.get_hermano_by_id(ids[1]).unwrap();
    datos.activo = false;
    assert_eq!(db.update_hermano(ids[1], &datos), Err(DbError::FechaBajaObligatoria));
    assert!(db.get_hermano_by_id(ids[1]).unwrap().activo);
    assert_eq!(
        DbError::FechaBajaObligatoria.descripcion(),
        "La fecha de baja es obligatoria para los hermanos inactivos"
    );
}

#[test]
fn prueba_carga_con_dni_repetido() {
    let mut a = nuevo_hermano("001", "A", "B", None);
    a.id = Some(1);
    a.dni = Some("11111111H".to_string());
    let mut b = nuevo_hermano("002", "C", "D", None);
    b.id = Some(2);
    b.dni = Some("11111111H".to_string());
    let mut db = Database::desde_tablas(vec![a, b], vec![], vec![], None, 0, 0, 0).unwrap();
    assert_eq!(db.get_all_hermanos().len(), 2);
    // Las altas nuevas siguen sin poder repetirlo.
    let mut c = nuevo_hermano("003", "E", "F", None);
    c.dni = Some("11111111H".to_string());
    assert_eq!(db.create_hermano(&c), Err(DbError::DniDuplicado));
}

#[test]
fn prueba_textos_de_fecha() {
    assert_eq!(texto_fecha(&fh(2026, 2, 6, 9, 5, 0)).as_deref(), Some("2026-02-06"));
    assert_eq!(texto_fecha_hora(&fh(2026, 2, 6, 9, 5, 0)).as_deref(), Some("2026-02-06 09:05:00"));
    assert_eq!(texto_fecha_hora(&fh(2026, 2, 30, 9, 5, 0)), None);
}
