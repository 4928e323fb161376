use hermanar::db::{Database, DbError};
use hermanar::modelo::{Cuota, Familia, Hermano};

// ============================================================================
// Datos de prueba
// ============================================================================

fn create_test_db() -> Database {
    Database::new()
}

fn hermano_basico(numero: &str, nombre: &str, primer_apellido: &str, familia_id: Option<i32>) -> Hermano {
    Hermano {
        id: None,
        numero_hermano: numero.to_string(),
        nombre: nombre.to_string(),
        primer_apellido: primer_apellido.to_string(),
        segundo_apellido: None,
        dni: None,
        fecha_nacimiento: None,
        localidad_nacimiento: None,
        provincia_nacimiento: None,
        fecha_alta: "2024-01-01".to_string(),
        familia_id,
        telefono: None,
        email: None,
        direccion: None,
        localidad: None,
        provincia: None,
        codigo_postal: None,
        parroquia_bautismo: None,
        localidad_bautismo: None,
        provincia_bautismo: None,
        autorizacion_menores: false,
        nombre_representante_legal: None,
        dni_representante_legal: None,
        hermano_aval_1: None,
        hermano_aval_2: None,
        activo: true,
        fecha_baja: None,
        observaciones: None,
        created_at: None,
        updated_at: None,
    }
}

/// Inserta una familia. Si no se da nombre, se le pone uno distinto de los demás.
fn insert_test_familia(db: &mut Database, nombre: Option<&str>) -> Result<i32, DbError> {
    let nombre = match nombre {
        Some(n) => n.to_string(),
        None => format!("Apellidos{}", db.get_all_familias().len() + 1),
    };
    db.create_familia(&Familia {
        id: None,
        nombre_familia: nombre,
        hermano_direccion_id: None,
        created_at: None,
        updated_at: None,
    })
}

/// Inserta un hermano activo. Si no se dan nombre o apellido, se inventan.
fn insert_test_hermano(
    db: &mut Database,
    numero: &str,
    nombre: Option<&str>,
    primer_apellido: Option<&str>,
    familia_id: Option<i32>,
) -> Result<i32, DbError> {
    let nombre = nombre.map(|s| s.to_string()).unwrap_or_else(|| format!("Nombre{}", numero));
    let apellido = primer_apellido.map(|s| s.to_string()).unwrap_or_else(|| format!("Apellido{}", numero));
    db.create_hermano(&hermano_basico(numero, &nombre, &apellido, familia_id))
}

fn insert_fake_hermano(db: &mut Database, numero: &str, familia_id: Option<i32>) -> Result<i32, DbError> {
    insert_test_hermano(db, numero, None, None, familia_id)
}

fn centimos(euros: f64) -> i64 {
    (euros * 100.0).round() as i64
}

fn euros(centimos: i128) -> f64 {
    centimos as f64 / 100.0
}

fn cuota_basica(hermano_id: i32, anio: i32, importe: f64, pagado: bool) -> Cuota {
    Cuota {
        id: None,
        hermano_id,
        anio,
        importe_centimos: centimos(importe),
        pagado,
        fecha_pago: None,
        metodo_pago: None,
        observaciones: None,
        recibo: false,
        created_at: None,
        updated_at: None,
    }
}

fn insert_test_cuota(db: &mut Database, hermano_id: i32, anio: i32, importe: f64, pagado: bool) -> Result<i32, DbError> {
    db.create_cuota(&cuota_basica(hermano_id, anio, importe, pagado))
}

fn contar_cuotas_de(db: &Database, hermano_id: i32) -> usize {
    db.get_cuotas_by_hermano(hermano_id).len()
}

fn suma_importes(cuotas: &[Cuota]) -> f64 {
    euros(cuotas.iter().map(|c| c.importe_centimos as i128).sum())
}

// ============================================================================
// Cuotas
// ============================================================================

#[test]
fn test_create_cuota() {
    let mut db = create_test_db();
    let hermano_id = insert_test_hermano(&mut db, "00001", Some("Juan"), Some("García"), None).unwrap();
    let cuota_id = insert_test_cuota(&mut db, hermano_id, 2025, 50.0, false).unwrap();

    assert!(cuota_id > 0);
}

#[test]
fn test_cuota_unique_constraint() {
    let mut db = create_test_db();
    let hermano_id = insert_test_hermano(&mut db, "00001", Some("Juan"), Some("García"), None).unwrap();
    insert_test_cuota(&mut db, hermano_id, 2025, 50.0, false).unwrap();

    let result = insert_test_cuota(&mut db, hermano_id, 2025, 75.0, false);
    assert!(result.is_err());
}

#[test]
fn test_get_cuotas_pendientes() {
    let mut db = create_test_db();
    let h1 = insert_test_hermano(&mut db, "00001", Some("Juan"), Some("García"), None).unwrap();
    let h2 = insert_test_hermano(&mut db, "00002", Some("Pedro"), Some("López"), None).unwrap();

    insert_test_cuota(&mut db, h1, 2025, 50.0, false).unwrap();
    insert_test_cuota(&mut db, h1, 2024, 50.0, true).unwrap();
    insert_test_cuota(&mut db, h2, 2025, 50.0, false).unwrap();

    let count = db.get_cuotas_pendientes().len();
    assert_eq!(count, 2);
}

#[test]
fn test_get_cuotas_by_year() {
    let mut db = create_test_db();
    let h1 = insert_test_hermano(&mut db, "00001", Some("Juan"), Some("García"), None).unwrap();
    let h2 = insert_test_hermano(&mut db, "00002", Some("Pedro"), Some("López"), None).unwrap();

    insert_test_cuota(&mut db, h1, 2025, 50.0, false).unwrap();
    insert_test_cuota(&mut db, h1, 2024, 50.0, false).unwrap();
    insert_test_cuota(&mut db, h2, 2025, 50.0, false).unwrap();

    assert_eq!(db.get_cuotas_by_year(2025).len(), 2);
}

#[test]
fn test_get_cuotas_by_hermano() {
    let mut db = create_test_db();
    let h1 = insert_test_hermano(&mut db, "00001", Some("Juan"), Some("García"), None).unwrap();
    let h2 = insert_test_hermano(&mut db, "00002", Some("Pedro"), Some("López"), None).unwrap();

    insert_test_cuota(&mut db, h1, 2025, 50.0, false).unwrap();
    insert_test_cuota(&mut db, h1, 2024, 50.0, false).unwrap();
    insert_test_cuota(&mut db, h2, 2025, 50.0, false).unwrap();

    assert_eq!(contar_cuotas_de(&db, h1), 2);
}

#[test]
fn test_pagar_cuota() {
    let mut db = create_test_db();
    let hermano_id = insert_test_hermano(&mut db, "00001", Some("Juan"), Some("García"), None).unwrap();
    let cuota_id = insert_test_cuota(&mut db, hermano_id, 2025, 50.0, false).unwrap();

    db.marcar_cuota_pagada(cuota_id, "2025-02-06", "Efectivo").unwrap();

    let pagado = db.get_cuota_by_id(cuota_id).unwrap().pagado;
    assert_eq!(pagado as i32, 1);
}

#[test]
fn test_delete_cuota() {
    let mut db = create_test_db();
    let hermano_id = insert_test_hermano(&mut db, "00001", Some("Juan"), Some("García"), None).unwrap();
    let cuota_id = insert_test_cuota(&mut db, hermano_id, 2025, 50.0, false).unwrap();

    db.delete_cuota(cuota_id).unwrap();

    let count = db.get_all_cuotas().iter().filter(|c| c.id == Some(cuota_id)).count();
    assert_eq!(count, 0);
}

#[test]
fn test_cuota_importe_positivo() {
    let mut db = create_test_db();
    let h1 = insert_test_hermano(&mut db, "00001", Some("Juan"), Some("García"), None).unwrap();

    // El almacén no impone que el importe sea positivo.
    let result = insert_test_cuota(&mut db, h1, 2025, -50.0, false);

    assert!(result.is_ok());
}

#[test]
fn test_cuota_boundary_anio() {
    let mut db = create_test_db();
    let h1 = insert_test_hermano(&mut db, "00001", Some("Juan"), Some("García"), None).unwrap();

    insert_test_cuota(&mut db, h1, 1900, 50.0, false).unwrap();
    insert_test_cuota(&mut db, h1, 2025, 50.0, false).unwrap();
    insert_test_cuota(&mut db, h1, 2099, 50.0, false).unwrap();

    assert_eq!(contar_cuotas_de(&db, h1), 3);
}

#[test]
fn test_multiple_hermanos_mismo_numero_anio_cuota() {
    let mut db = create_test_db();
    let h1 = insert_test_hermano(&mut db, "00001", Some("Juan"), Some("García"), None).unwrap();
    let h2 = insert_test_hermano(&mut db, "00002", Some("Pedro"), Some("López"), None).unwrap();

    let c1 = insert_test_cuota(&mut db, h1, 2025, 50.0, false).unwrap();
    let c2 = insert_test_cuota(&mut db, h2, 2025, 75.0, false).unwrap();

    assert!(c1 > 0);
    assert!(c2 > 0);
    assert_ne!(c1, c2);
}

#[test]
fn test_cuotas_total_importe_por_hermano() {
    let mut db = create_test_db();
    let h1 = insert_test_hermano(&mut db, "00001", Some("Juan"), Some("García"), None).unwrap();
    let h2 = insert_test_hermano(&mut db, "00002", Some("Pedro"), Some("López"), None).unwrap();

    insert_test_cuota(&mut db, h1, 2025, 50.0, false).unwrap();
    insert_test_cuota(&mut db, h1, 2024, 75.0, false).unwrap();
    insert_test_cuota(&mut db, h2, 2025, 100.0, false).unwrap();

    let total = suma_importes(&db.get_cuotas_by_hermano(h1));
    assert_eq!(total, 125.0);
}

#[test]
fn test_cuotas_pagadas_vs_pendientes() {
    let mut db = create_test_db();
    let h1 = insert_test_hermano(&mut db, "00001", Some("Juan"), Some("García"), None).unwrap();

    insert_test_cuota(&mut db, h1, 2025, 50.0, false).unwrap();
    insert_test_cuota(&mut db, h1, 2024, 50.0, true).unwrap();
    insert_test_cuota(&mut db, h1, 2023, 50.0, true).unwrap();

    let cuotas = db.get_cuotas_by_hermano(h1);
    let pagadas = cuotas.iter().filter(|c| c.pagado).count();
    let pendientes = cuotas.iter().filter(|c| !c.pagado).count();

    assert_eq!(pagadas, 2);
    assert_eq!(pendientes, 1);
}

#[test]
fn test_cmd_crear_cuota() {
    let mut db = create_test_db();

    let h1 = insert_test_hermano(&mut db, "00001", Some("Juan"), Some("García"), None).unwrap();
    let cuota_id = insert_test_cuota(&mut db, h1, 2025, 50.0, false).unwrap();
    assert!(cuota_id > 0, "ID debe ser válido");
}

#[test]
fn test_cmd_eliminar_cuota() {
    let mut db = create_test_db();

    let h1 = insert_test_hermano(&mut db, "00001", Some("Juan"), Some("García"), None).unwrap();
    let cuota_id = insert_test_cuota(&mut db, h1, 2025, 50.0, false).unwrap();

    db.delete_cuota(cuota_id).unwrap();

    let count = db.get_all_cuotas().iter().filter(|c| c.id == Some(cuota_id)).count();
    assert_eq!(count, 0, "Cuota debe ser eliminada");
}

#[test]
fn test_cmd_restriccion_cuota_unica_por_anio() {
    let mut db = create_test_db();

    let h1 = insert_test_hermano(&mut db, "00001", Some("Juan"), Some("García"), None).unwrap();

    insert_test_cuota(&mut db, h1, 2025, 50.0, false).unwrap();

    let cuota = Cuota {
        id: None,
        hermano_id: h1,
        anio: 2025,
        importe_centimos: centimos(60.0),
        pagado: false,
        fecha_pago: None,
        metodo_pago: None,
        observaciones: None,
        recibo: false,
        created_at: None,
        updated_at: None,
    };

    let result = db.create_cuota(&cuota);
    assert!(result.is_err(), "Debe rechazar cuota duplicada del mismo año");
}

// ============================================================================
// Familias
// ============================================================================

#[test]
fn test_create_familia() {
    let mut db = create_test_db();
    let result = insert_test_familia(&mut db, Some("García"));

    assert!(result.is_ok());
    assert!(result.unwrap() > 0);
}

#[test]
fn test_familia_unique_constraint() {
    let mut db = create_test_db();
    insert_test_familia(&mut db, Some("García")).unwrap();

    let result = insert_test_familia(&mut db, Some("García"));
    assert!(result.is_err());
}

#[test]
fn test_get_familia_count() {
    let mut db = create_test_db();
    insert_test_familia(&mut db, None).unwrap();
    insert_test_familia(&mut db, None).unwrap();
    insert_test_familia(&mut db, None).unwrap();

    assert_eq!(db.get_all_familias().len(), 3);
}

#[test]
fn test_search_familia_case_insensitive() {
    let mut db = create_test_db();
    insert_test_familia(&mut db, Some("García")).unwrap();
    insert_test_familia(&mut db, Some("López")).unwrap();

    assert_eq!(db.search_familias("garcía").len(), 1);
}

#[test]
fn test_delete_familia() {
    let mut db = create_test_db();
    let familia_id = insert_test_familia(&mut db, Some("García")).unwrap();

    db.delete_familia(familia_id).unwrap();

    let count = db.get_all_familias().iter().filter(|f| f.id == Some(familia_id)).count();
    assert_eq!(count, 0);
}

#[test]
fn test_cmd_restriccion_familia_unica() {
    let mut db = create_test_db();

    insert_test_familia(&mut db, Some("García")).unwrap();

    let familia = Familia {
        id: None,
        nombre_familia: "García".to_string(),
        hermano_direccion_id: None,
        created_at: None,
        updated_at: None,
    };

    let result = db.create_familia(&familia);
    assert!(result.is_err(), "Comando debería rechazar familia duplicada");
}

#[test]
fn test_cmd_busqueda_familias_funciona() {
    let mut db = create_test_db();

    let _familia1 = insert_test_familia(&mut db, Some("García")).unwrap();
    insert_test_familia(&mut db, None).unwrap();
    insert_test_familia(&mut db, None).unwrap();

    let resultados = db.search_familias("García");
    assert_eq!(resultados.len(), 1);

    let resultados = db.search_familias("Pérez");
    assert_eq!(resultados.len(), 0);
}

#[test]
fn test_cmd_crear_familia() {
    let mut db = create_test_db();

    let familia = Familia {
        id: None,
        nombre_familia: "García López".to_string(),
        hermano_direccion_id: None,
        created_at: None,
        updated_at: None,
    };

    let id = db.create_familia(&familia).unwrap();
    assert!(id > 0, "ID debe ser válido");

    let familia_leida = db.get_familia_by_id(id);
    assert!(familia_leida.is_some(), "Familia debe existir");
}

#[test]
fn test_cmd_eliminar_familia() {
    let mut db = create_test_db();

    let f_id = insert_test_familia(&mut db, Some("García")).unwrap();

    let familia = db.get_familia_by_id(f_id).unwrap();
    assert_eq!(familia.nombre_familia, "García");

    db.delete_familia(f_id).unwrap();

    let familia = db.get_familia_by_id(f_id);
    assert!(familia.is_none());
}

// ============================================================================
// Hermanos
// ============================================================================

#[test]
fn test_create_hermano_without_familia() {
    let mut db = create_test_db();
    let result = insert_test_hermano(&mut db, "00001", Some("Juan"), Some("García"), None);

    assert!(result.is_ok());

    assert_eq!(db.get_all_hermanos().len(), 1);
}

#[test]
fn test_create_hermano_with_familia() {
    let mut db = create_test_db();
    let familia_id = insert_test_familia(&mut db, None).unwrap();
    let hermano_id = insert_fake_hermano(&mut db, "00001", Some(familia_id)).unwrap();

    assert!(hermano_id > 0);

    let stored_familia_id = db.get_hermano_by_id(hermano_id).unwrap().familia_id.unwrap();
    assert_eq!(stored_familia_id, familia_id);
}

#[test]
fn test_hermano_numero_unique_constraint() {
    let mut db = create_test_db();
    insert_test_hermano(&mut db, "00001", Some("Juan"), Some("García"), None).unwrap();

    let result = insert_test_hermano(&mut db, "00001", Some("Pedro"), Some("López"), None);
    assert!(result.is_err());
}

#[test]
fn test_get_hermanos_activos() {
    let mut db = create_test_db();
    let _h1 = insert_test_hermano(&mut db, "00001", Some("Juan"), Some("García"), None).unwrap();
    let h2 = insert_test_hermano(&mut db, "00002", Some("Pedro"), Some("López"), None).unwrap();

    db.set_hermano_inactive(h2, "2026-02-06").unwrap();

    assert_eq!(db.get_hermanos_activos().len(), 1);
}

#[test]
fn test_search_hermano_by_nombre() {
    let mut db = create_test_db();
    insert_test_hermano(&mut db, "00001", Some("Juan"), Some("García"), None).unwrap();
    insert_fake_hermano(&mut db, "00002", None).unwrap();
    insert_fake_hermano(&mut db, "00003", None).unwrap();

    assert_eq!(db.search_hermanos("Juan").len(), 1);
}

#[test]
fn test_search_hermano_by_apellido() {
    let mut db = create_test_db();
    insert_test_hermano(&mut db, "00001", Some("Juan"), Some("García"), None).unwrap();
    insert_fake_hermano(&mut db, "00002", None).unwrap();
    insert_fake_hermano(&mut db, "00003", None).unwrap();

    assert_eq!(db.search_hermanos("García").len(), 1);
}

#[test]
fn test_get_hermanos_by_familia() {
    let mut db = create_test_db();
    let familia_id = insert_test_familia(&mut db, None).unwrap();
    insert_fake_hermano(&mut db, "00001", Some(familia_id)).unwrap();
    insert_fake_hermano(&mut db, "00002", Some(familia_id)).unwrap();
    insert_fake_hermano(&mut db, "00003", None).unwrap();

    assert_eq!(db.get_hermanos_by_familia(familia_id).len(), 2);
}

#[test]
fn test_update_hermano_nombre() {
    let mut db = create_test_db();
    let hermano_id = insert_test_hermano(&mut db, "00001", Some("Juan"), Some("García"), None).unwrap();

    let mut datos = db.get_hermano_by_id(hermano_id).unwrap();
    datos.nombre = "Carlos".to_string();
    db.update_hermano(hermano_id, &datos).unwrap();

    let nombre = db.get_hermano_by_id(hermano_id).unwrap().nombre;
    assert_eq!(nombre, "Carlos");
}

#[test]
fn test_update_hermano_familia() {
    let mut db = create_test_db();
    let f1 = insert_test_familia(&mut db, Some("García")).unwrap();
    let f2 = insert_test_familia(&mut db, Some("López")).unwrap();
    let hermano_id = insert_test_hermano(&mut db, "00001", Some("Juan"), Some("García"), Some(f1)).unwrap();

    db.update_hermano_familia(hermano_id, Some(f2)).unwrap();

    let familia_id = db.get_hermano_by_id(hermano_id).unwrap().familia_id.unwrap();
    assert_eq!(familia_id, f2);
}

#[test]
fn test_update_hermano_inactive() {
    let mut db = create_test_db();
    let hermano_id = insert_test_hermano(&mut db, "00001", Some("Juan"), Some("García"), None).unwrap();

    let mut datos = db.get_hermano_by_id(hermano_id).unwrap();
    datos.activo = false;
    datos.fecha_baja = Some("2026-02-06".to_string());
    db.update_hermano(hermano_id, &datos).unwrap();

    let activo = db.get_hermano_by_id(hermano_id).unwrap().activo;
    assert_eq!(activo as i32, 0);
}

#[test]
fn test_delete_hermano() {
    let mut db = create_test_db();
    let hermano_id = insert_test_hermano(&mut db, "00001", Some("Juan"), Some("García"), None).unwrap();

    db.delete_hermano(hermano_id).unwrap();

    let count = db.get_all_hermanos().iter().filter(|h| h.id == Some(hermano_id)).count();
    assert_eq!(count, 0);
}

#[test]
fn test_hermano_dni_unique() {
    let mut db = create_test_db();

    let mut h1 = hermano_basico("00001", "Juan", "García", None);
    h1.dni = Some("12345678A".to_string());
    let hermano1_result = db.create_hermano(&h1);

    assert!(hermano1_result.is_ok());

    let mut h2 = hermano_basico("00002", "Pedro", "López", None);
    h2.dni = Some("12345678A".to_string());
    let hermano2_result = db.create_hermano(&h2);

    assert!(hermano2_result.is_err());
}

#[test]
fn test_hermano_nombre_vacio() {
    let mut db = create_test_db();

    // El almacén admite un nombre vacío.
    let result = db.create_hermano(&hermano_basico("00001", "", "García", None));

    assert!(result.is_ok());
}

#[test]
fn test_search_hermano_combined() {
    let mut db = create_test_db();
    insert_test_hermano(&mut db, "00001", Some("Juan"), Some("García"), None).unwrap();
    insert_fake_hermano(&mut db, "00002", None).unwrap();
    insert_fake_hermano(&mut db, "00003", None).unwrap();
    insert_fake_hermano(&mut db, "00004", None).unwrap();

    let count = db.search_hermanos("García").iter().filter(|h| h.activo).count();

    assert_eq!(count, 1);
}

#[test]
fn test_hermanos_por_familia_count() {
    let mut db = create_test_db();
    let f1 = insert_test_familia(&mut db, None).unwrap();
    let f2 = insert_test_familia(&mut db, None).unwrap();

    insert_fake_hermano(&mut db, "00001", Some(f1)).unwrap();
    insert_fake_hermano(&mut db, "00002", Some(f1)).unwrap();
    insert_fake_hermano(&mut db, "00003", Some(f1)).unwrap();
    insert_fake_hermano(&mut db, "00004", Some(f2)).unwrap();

    let f1_count = db.get_hermanos_by_familia(f1).len();
    let f2_count = db.get_hermanos_by_familia(f2).len();

    assert_eq!(f1_count, 3);
    assert_eq!(f2_count, 1);
}

#[test]
fn test_busca_hermano_por_numero_exacto() {
    let mut db = create_test_db();

    insert_test_hermano(&mut db, "00001", Some("Juan"), Some("García"), None).unwrap();
    insert_test_hermano(&mut db, "00002", Some("Pedro"), Some("López"), None).unwrap();
    insert_test_hermano(&mut db, "00010", Some("Carlos"), Some("García"), None).unwrap();
    insert_test_hermano(&mut db, "00100", Some("Miguel"), Some("García"), None).unwrap();

    let count = db.get_all_hermanos().iter().filter(|h| h.numero_hermano == "00010").count();

    assert_eq!(count, 1);
}

#[test]
fn test_hermano_inactivo_no_aparece_en_activos() {
    let mut db = create_test_db();

    let _h1 = insert_fake_hermano(&mut db, "00001", None).unwrap();
    let h2 = insert_fake_hermano(&mut db, "00002", None).unwrap();
    let _h3 = insert_fake_hermano(&mut db, "00003", None).unwrap();

    let mut datos = db.get_hermano_by_id(h2).unwrap();
    datos.activo = false;
    datos.fecha_baja = Some("2026-02-06".to_string());
    db.update_hermano(h2, &datos).unwrap();

    let activos = db.get_hermanos_activos().len();
    let inactivos = db.get_all_hermanos().iter().filter(|h| !h.activo).count();

    assert_eq!(activos, 2);
    assert_eq!(inactivos, 1);
}

#[test]
fn test_cmd_restriccion_hermano_numero_unico() {
    let mut db = create_test_db();

    insert_test_hermano(&mut db, "00001", Some("Juan"), Some("García"), None).unwrap();

    let hermano = Hermano {
        id: None,
        numero_hermano: "00001".to_string(),
        nombre: "Pedro".to_string(),
        primer_apellido: "López".to_string(),
        segundo_apellido: None,
        dni: None,
        fecha_nacimiento: None,
        localidad_nacimiento: None,
        provincia_nacimiento: None,
        fecha_alta: "2026-02-06".to_string(),
        familia_id: None,
        telefono: None,
        email: None,
        direccion: None,
        localidad: None,
        provincia: None,
        codigo_postal: None,
        parroquia_bautismo: None,
        localidad_bautismo: None,
        provincia_bautismo: None,
        autorizacion_menores: false,
        nombre_representante_legal: None,
        dni_representante_legal: None,
        hermano_aval_1: None,
        hermano_aval_2: None,
        activo: true,
        fecha_baja: None,
        observaciones: None,
        created_at: None,
        updated_at: None,
    };

    let result = db.create_hermano(&hermano);
    assert!(result.is_err(), "Comando debería rechazar número de hermano duplicado");
}

#[test]
fn test_cmd_crear_hermano() {
    let mut db = create_test_db();

    let h_id = insert_test_hermano(&mut db, "00001", Some("Juan"), Some("García"), None).unwrap();
    assert!(h_id > 0, "ID debería ser válido");
}

#[test]
fn test_cmd_eliminar_hermano() {
    let mut db = create_test_db();

    let h_id = insert_test_hermano(&mut db, "00001", Some("Juan"), Some("García"), None).unwrap();

    db.delete_hermano(h_id).unwrap();

    let count = db.get_all_hermanos().iter().filter(|h| h.id == Some(h_id)).count();
    assert_eq!(count, 0, "Hermano debería estar eliminado");
}

#[test]
fn test_cmd_busqueda_hermanos_vacia() {
    let db = create_test_db();

    let resultados = db.get_all_hermanos();
    assert_eq!(resultados.len(), 0);
}

#[test]
fn test_cmd_eliminar_hermano_inexistente_es_ok() {
    let mut db = create_test_db();

    let resultado = db.delete_hermano(9999);
    assert!(resultado.is_ok(), "Debe ser Ok (operación idempotente)");
}

// ============================================================================
// Integridad referencial
// ============================================================================

#[test]
fn test_delete_familia_sets_hermano_familia_null() {
    let mut db = create_test_db();
    let familia_id = insert_test_familia(&mut db, None).unwrap();
    let hermano_id = insert_fake_hermano(&mut db, "00001", Some(familia_id)).unwrap();

    // La familia sólo se puede borrar sin hermanos activos.
    db.set_hermano_inactive(hermano_id, "2026-02-06").unwrap();
    db.delete_familia(familia_id).unwrap();

    let stored_familia_id = db.get_hermano_by_id(hermano_id).and_then(|h| h.familia_id);
    assert_eq!(stored_familia_id, None);
}

#[test]
fn test_delete_hermano_deletes_cuotas() {
    let mut db = create_test_db();
    let hermano_id = insert_fake_hermano(&mut db, "00001", None).unwrap();
    insert_test_cuota(&mut db, hermano_id, 2025, 50.0, false).unwrap();
    insert_test_cuota(&mut db, hermano_id, 2024, 50.0, false).unwrap();

    db.delete_hermano(hermano_id).unwrap();

    assert_eq!(contar_cuotas_de(&db, hermano_id), 0);
}

#[test]
fn test_foreign_key_constraint_hermano_familia() {
    let mut db = create_test_db();

    // Hermano con una familia que no existe: el almacén lo rechaza.
    let result = db.create_hermano(&hermano_basico("00001", "Juan", "García", Some(9999)));

    assert!(result.is_err());
}

#[test]
fn test_cmd_eliminar_hermano_elimina_cuotas_en_cascada() {
    let mut db = create_test_db();

    let h_id = insert_fake_hermano(&mut db, "00001", None).unwrap();
    insert_test_cuota(&mut db, h_id, 2025, 50.0, false).unwrap();
    insert_test_cuota(&mut db, h_id, 2024, 50.0, false).unwrap();

    assert_eq!(contar_cuotas_de(&db, h_id), 2);

    db.delete_hermano(h_id).unwrap();

    assert_eq!(contar_cuotas_de(&db, h_id), 0, "Cuotas deberían ser eliminadas en cascada");
}

#[test]
fn test_cmd_eliminar_familia_no_elimina_hermanos() {
    let mut db = create_test_db();

    let f_id = insert_test_familia(&mut db, None).unwrap();
    let h_id = insert_fake_hermano(&mut db, "00001", Some(f_id)).unwrap();

    db.set_hermano_inactive(h_id, "2026-02-06").unwrap();

    db.delete_familia(f_id).unwrap();

    let familia = db.get_familia_by_id(f_id);
    assert!(familia.is_none(), "Familia debería ser eliminada");
}

#[test]
fn test_cmd_eliminar_familia_inexistente_es_ok() {
    let mut db = create_test_db();

    let resultado = db.delete_familia(9999);
    assert!(resultado.is_ok(), "Debe ser Ok (operación idempotente)");
}

// ============================================================================
// Volumen
// ============================================================================

#[test]
fn test_cmd_performance_muchos_hermanos() {
    let mut db = create_test_db();

    for i in 0..100 {
        let numero = format!("{:05}", i + 1);
        let nombre = format!("Hermano{}", i);
        insert_test_hermano(&mut db, &numero, Some(&nombre), Some("Apellido"), None).unwrap();
    }

    assert_eq!(db.get_all_hermanos().len(), 100);
}

#[test]
fn test_cmd_performance_muchas_cuotas() {
    let mut db = create_test_db();

    let hermano_id = insert_test_hermano(&mut db, "00001", Some("Juan"), Some("García"), None).unwrap();

    for anio in 1975..2025 {
        insert_test_cuota(&mut db, hermano_id, anio as i32, 50.0, false).unwrap();
    }

    let cuotas = db.get_cuotas_by_hermano(hermano_id);
    let count = cuotas.len();
    let total = suma_importes(&cuotas);

    assert_eq!(count, 50);
    assert_eq!(total, 2500.0);
}

// ============================================================================
// Casos de uso
// ============================================================================

#[test]
fn test_flujo_crear_familia_con_hermanos_y_cuotas() {
    let mut db = create_test_db();

    let familia_id = insert_test_familia(&mut db, None).unwrap();
    assert!(familia_id > 0);

    let h1 = insert_fake_hermano(&mut db, "00001", Some(familia_id)).unwrap();
    let h2 = insert_fake_hermano(&mut db, "00002", Some(familia_id)).unwrap();

    insert_test_cuota(&mut db, h1, 2025, 50.0, false).unwrap();
    insert_test_cuota(&mut db, h1, 2024, 50.0, true).unwrap();
    insert_test_cuota(&mut db, h2, 2025, 50.0, false).unwrap();

    let hermanos = db.get_hermanos_by_familia(familia_id);
    let total_hermanos = hermanos.len();
    let total_cuotas: usize = hermanos.iter().map(|h| contar_cuotas_de(&db, h.id.unwrap())).sum();

    assert_eq!(total_hermanos, 2);
    assert_eq!(total_cuotas, 3);
}

#[test]
fn test_cambio_familia_hermano() {
    let mut db = create_test_db();

    let f1 = insert_test_familia(&mut db, None).unwrap();
    let f2 = insert_test_familia(&mut db, None).unwrap();

    let hermano_id = insert_fake_hermano(&mut db, "00001", Some(f1)).unwrap();

    insert_test_cuota(&mut db, hermano_id, 2025, 50.0, false).unwrap();
    insert_test_cuota(&mut db, hermano_id, 2024, 50.0, false).unwrap();

    db.update_hermano_familia(hermano_id, Some(f2)).unwrap();

    let nueva_familia = db.get_hermano_by_id(hermano_id).unwrap().familia_id.unwrap();
    let cuotas_count = contar_cuotas_de(&db, hermano_id);

    assert_eq!(nueva_familia, f2);
    assert_eq!(cuotas_count, 2);
}

#[test]
fn test_reporte_cuotas_anio() {
    let mut db = create_test_db();

    let h1 = insert_fake_hermano(&mut db, "00001", None).unwrap();
    let h2 = insert_fake_hermano(&mut db, "00002", None).unwrap();
    let h3 = insert_fake_hermano(&mut db, "00003", None).unwrap();

    insert_test_cuota(&mut db, h1, 2025, 50.0, true).unwrap();
    insert_test_cuota(&mut db, h2, 2025, 50.0, false).unwrap();
    insert_test_cuota(&mut db, h3, 2025, 50.0, true).unwrap();

    insert_test_cuota(&mut db, h1, 2024, 50.0, true).unwrap();
    insert_test_cuota(&mut db, h2, 2024, 50.0, true).unwrap();

    let cuotas_2025 = db.get_cuotas_by_year(2025).len();

    let cobrado_2025 = euros(db.get_estadisticas_cuotas(Some(2025)).unwrap().total_recaudado_centimos);

    assert_eq!(cuotas_2025, 3);
    assert_eq!(cobrado_2025, 100.0);
}

#[test]
fn test_performance_muchos_hermanos() {
    let mut db = create_test_db();

    for i in 0..100 {
        let numero = format!("{:05}", i + 1);
        let nombre = format!("Hermano{}", i);
        insert_test_hermano(&mut db, &numero, Some(&nombre), Some("Apellido"), None).unwrap();
    }

    assert_eq!(db.get_all_hermanos().len(), 100);
}

#[test]
fn test_performance_muchas_cuotas() {
    let mut db = create_test_db();

    let hermano_id = insert_test_hermano(&mut db, "00001", Some("Juan"), Some("García"), None).unwrap();

    for anio in 1975..2025 {
        insert_test_cuota(&mut db, hermano_id, anio as i32, 50.0, false).unwrap();
    }

    let cuotas = db.get_cuotas_by_hermano(hermano_id);
    let count = cuotas.len();
    let total = suma_importes(&cuotas);

    assert_eq!(count, 50);
    assert_eq!(total, 2500.0);
}

#[test]
fn test_flujo_donativo_completo() {
    let mut db = create_test_db();

    let familia = insert_test_familia(&mut db, None).unwrap();

    let h1 = insert_fake_hermano(&mut db, "00001", Some(familia)).unwrap();
    let h2 = insert_fake_hermano(&mut db, "00002", Some(familia)).unwrap();

    insert_test_cuota(&mut db, h1, 2023, 100.0, true).unwrap();
    insert_test_cuota(&mut db, h1, 2024, 100.0, true).unwrap();
    insert_test_cuota(&mut db, h1, 2025, 100.0, false).unwrap();
    insert_test_cuota(&mut db, h2, 2023, 100.0, true).unwrap();
    insert_test_cuota(&mut db, h2, 2024, 100.0, false).unwrap();
    insert_test_cuota(&mut db, h2, 2025, 100.0, false).unwrap();

    for hermano_id in [h1, h2].iter() {
        let cuotas = db.get_cuotas_by_hermano(*hermano_id);
        let pagadas = cuotas.iter().filter(|c| c.pagado).count();
        let pendientes = cuotas.iter().filter(|c| !c.pagado).count();
        let total = suma_importes(&cuotas);

        assert_eq!(pagadas + pendientes, 3);
        assert_eq!(total, 300.0);
    }
}

#[test]
fn test_gestion_hermano_inactivo() {
    let mut db = create_test_db();

    let familia = insert_test_familia(&mut db, None).unwrap();
    let h_id = insert_fake_hermano(&mut db, "00001", Some(familia)).unwrap();

    insert_test_cuota(&mut db, h_id, 2024, 50.0, true).unwrap();
    insert_test_cuota(&mut db, h_id, 2025, 50.0, false).unwrap();

    let mut datos = db.get_hermano_by_id(h_id).unwrap();
    datos.activo = false;
    datos.fecha_baja = Some("2026-02-06".to_string());
    db.update_hermano(h_id, &datos).unwrap();

    let activo = db.get_hermano_by_id(h_id).unwrap().activo;
    let cuotas_count = contar_cuotas_de(&db, h_id);

    assert_eq!(activo as i32, 0);
    assert_eq!(cuotas_count, 2);
}
