//! Arranque de la base de datos: qué hacer si no abre o está dañada, y qué
//! migraciones del esquema faltan por aplicar.

use vstd::prelude::*;
use crate::modelo::DbRecoveryStatus;

verus! {

/// Resultado de intentar abrir la base de datos y comprobar su integridad.
#[derive(Debug, Clone, Copy, PartialEq, Eq)]
pub enum Apertura {
    /// Abre y pasa la comprobación de integridad.
    Correcta,
    /// Abre pero la comprobación de integridad falla.
    Danada,
    /// No se puede abrir.
    Fallida,
}

/// Qué hacer tras intentar abrir la base de datos.
#[derive(Debug, Clone, Copy, PartialEq, Eq)]
pub struct PlanArranque {
    /// Renombrar la base actual como `hermanar-corrupta.db`.
    pub apartar_danada: bool,
    /// Renombrar la copia `hermanar.db.backup` como la base.
    pub restaurar_copia: bool,
    /// Volver a abrir la base (restaurada o nueva).
    pub reabrir: bool,
    /// No se puede continuar: se devuelve el error de apertura.
    pub fallar: bool,
    /// Estado de recuperación que queda registrado, si lo hay.
    pub estado: Option<DbRecoveryStatus>,
}

/// Plan de arranque según cómo ha ido la apertura y qué archivos existen:
/// - si abre bien, nada;
/// - si está dañada, se aparta (si existe), se restaura la copia si la hay y
///   se reabre (restaurada o nueva);
/// - si no abre, con copia se aparta la base (si existe), se restaura la copia
///   y se reabre; sin copia se falla.
pub open spec fn plan_de(apertura: Apertura, bd_existe: bool, copia_existe: bool) -> PlanArranque {
    match apertura {
        Apertura::Correcta => PlanArranque {
            apartar_danada: false,
            restaurar_copia: false,
            reabrir: false,
            fallar: false,
            estado: None,
        },
        Apertura::Danada => PlanArranque {
            apartar_danada: bd_existe,
            restaurar_copia: copia_existe,
            reabrir: true,
            fallar: false,
            estado: Some(DbRecoveryStatus { recovered: true, had_backup: copia_existe }),
        },
        Apertura::Fallida => if copia_existe {
            PlanArranque {
                apartar_danada: bd_existe,
                restaurar_copia: true,
                reabrir: true,
                fallar: false,
                estado: Some(DbRecoveryStatus { recovered: true, had_backup: true }),
            }
        } else {
            PlanArranque { apartar_danada: false, restaurar_copia: false, reabrir: false, fallar: true, estado: None }
        },
    }
}

/// Decide cómo seguir el arranque.
pub fn plan_recuperacion(apertura: Apertura, bd_existe: bool, copia_existe: bool) -> (r: PlanArranque)
    ensures
        r == plan_de(apertura, bd_existe, copia_existe),
{
    match apertura {
        Apertura::Correcta => PlanArranque {
            apartar_danada: false,
            restaurar_copia: false,
            reabrir: false,
            fallar: false,
            estado: None,
        },
        Apertura::Danada => PlanArranque {
            apartar_danada: bd_existe,
            restaurar_copia: copia_existe,
            reabrir: true,
            fallar: false,
            estado: Some(DbRecoveryStatus { recovered: true, had_backup: copia_existe }),
        },
        Apertura::Fallida => if copia_existe {
            PlanArranque {
                apartar_danada: bd_existe,
                restaurar_copia: true,
                reabrir: true,
                fallar: false,
                estado: Some(DbRecoveryStatus { recovered: true, had_backup: true }),
            }
        } else {
            PlanArranque { apartar_danada: false, restaurar_copia: false, reabrir: false, fallar: true, estado: None }
        },
    }
}

/// Rutas de la base, de su copia automática y de la base apartada por dañada.
#[derive(Debug)]
pub struct RutasBaseDatos {
    pub base: String,
    pub copia: String,
    pub danada: String,
}

/// Rutas de los archivos de la base dentro del directorio de datos.
pub fn rutas_base_datos(dir: &str) -> (r: RutasBaseDatos)
    ensures
        r.base@ == dir@ + "/hermanar.db"@,
        r.copia@ == dir@ + "/hermanar.db.backup"@,
        r.danada@ == dir@ + "/hermanar-corrupta.db"@,
{
    let mut base = String::from_str(dir);
    base.append("/hermanar.db");
    let mut copia = String::from_str(dir);
    copia.append("/hermanar.db.backup");
    let mut danada = String::from_str(dir);
    danada.append("/hermanar-corrupta.db");
    RutasBaseDatos { base, copia, danada }
}

/// Versiones del esquema que faltan por aplicar desde `actual`, en orden.
pub open spec fn pendientes_desde(actual: i32) -> Seq<i32> {
    if actual < 1 {
        seq![1i32, 2i32, 3i32]
    } else if actual < 2 {
        seq![2i32, 3i32]
    } else if actual < 3 {
        seq![3i32]
    } else {
        Seq::empty()
    }
}

/// Migraciones pendientes desde la versión actual del esquema (1: columna
/// `recibo` en cuotas; 2: tabla de configuración de recibos; 3: columna
/// `fecha_baja` en hermanos).
pub fn migraciones_pendientes(version_actual: i32) -> (r: Vec<i32>)
    ensures
        r@ == pendientes_desde(version_actual),
{
    let mut r: Vec<i32> = Vec::new();
    if version_actual < 1 {
        r.push(1);
    }
    if version_actual < 2 {
        r.push(2);
    }
    if version_actual < 3 {
        r.push(3);
    }
    proof {
        if version_actual < 1 {
            assert(r@ =~= seq![1i32, 2i32, 3i32]);
        } else if version_actual < 2 {
            assert(r@ =~= seq![2i32, 3i32]);
        } else if version_actual < 3 {
            assert(r@ =~= seq![3i32]);
        } else {
            assert(r@ =~= Seq::<i32>::empty());
        }
    }
    r
}

} // verus!
