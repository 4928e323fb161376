//! Configuración de la aplicación: directorio de datos por defecto o
//! personalizado, y el plan de archivos para cambiar de directorio.

use vstd::prelude::*;

verus! {

/// Configuración guardada (siempre en el directorio por defecto).
#[derive(Debug)]
pub struct AppConfig {
    /// Directorio personalizado para la base de datos; si es `None` se usa el
    /// de por defecto.
    pub custom_data_dir: Option<String>,
}

/// Información de la ruta de datos para la interfaz.
#[derive(Debug)]
pub struct DataDirConfig {
    /// Directorio actualmente en uso.
    pub current_dir: String,
    /// Hay ruta personalizada activa.
    pub is_custom: bool,
    /// Directorio por defecto del sistema.
    pub default_dir: String,
}

/// Resultado de comprobar si ya hay base de datos en la nueva ruta.
#[derive(Debug, Clone, Copy, PartialEq, Eq)]
pub struct CheckDataDirResult {
    pub db_exists_in_new_dir: bool,
}

/// `base` seguida del componente `nombre`, separados por `/` (como
/// `Path::join` en Unix con un nombre relativo).
pub open spec fn ruta_unida(base: Seq<char>, nombre: Seq<char>) -> Seq<char> {
    if base.len() == 0 {
        nombre
    } else if base.last() == '/' {
        base + nombre
    } else {
        base + seq!['/'] + nombre
    }
}

/// Une una ruta y un nombre de archivo.
pub fn unir_ruta(base: &str, nombre: &str) -> (r: String)
    ensures
        r@ == ruta_unida(base@, nombre@),
{
    proof { reveal_strlit("/"); }
    let n = base.unicode_len();
    if n == 0 {
        return String::from_str(nombre);
    }
    let mut r = String::from_str(base);
    if base.get_char(n - 1) != '/' {
        r.append("/");
    }
    r.append(nombre);
    r
}

/// Directorio de datos por defecto a partir de las variables `APPDATA` y
/// `HOME`: `APPDATA/hermanar`, o `HOME/.local/share/hermanar`, o `./hermanar`.
pub open spec fn directorio_por_defecto(appdata: Option<String>, home: Option<String>) -> Seq<char> {
    let base = match appdata {
        Some(a) => a@,
        None => match home {
            Some(h) => h@ + "/.local/share"@,
            None => "."@,
        },
    };
    base + "/hermanar"@
}

/// Directorio de datos por defecto del sistema, dadas las variables de entorno
/// `APPDATA` y `HOME` (si están definidas).
pub fn get_default_data_dir(appdata: &Option<String>, home: &Option<String>) -> (r: String)
    ensures
        r@ == directorio_por_defecto(*appdata, *home),
{
    let mut base = match appdata {
        Some(a) => a.clone(),
        None => match home {
            Some(h) => {
                let mut b = h.clone();
                b.append("/.local/share");
                b
            },
            None => String::from_str("."),
        },
    };
    base.append("/hermanar");
    base
}

/// Ruta del archivo de configuración dentro del directorio por defecto.
pub fn get_config_file_path(default_dir: &str) -> (r: String)
    ensures
        r@ == ruta_unida(default_dir@, "config.json"@),
{
    unir_ruta(default_dir, "config.json")
}

/// Ruta de la base de datos dentro de un directorio de datos.
pub fn ruta_base_datos(dir: &str) -> (r: String)
    ensures
        r@ == ruta_unida(dir@, "hermanar.db"@),
{
    unir_ruta(dir, "hermanar.db")
}

/// Ruta de la copia automática dentro de un directorio de datos.
pub fn ruta_copia_automatica(dir: &str) -> (r: String)
    ensures
        r@ == ruta_unida(dir@, "hermanar.db.backup"@),
{
    unir_ruta(dir, "hermanar.db.backup")
}

/// Hay un directorio personalizado no vacío.
pub open spec fn es_personalizado(custom: Option<String>) -> bool {
    custom is Some && custom.unwrap()@.len() > 0
}

/// El directorio de datos en uso: el personalizado si lo hay, si no el de por defecto.
pub open spec fn directorio_efectivo(custom: Option<String>, default_dir: Seq<char>) -> Seq<char> {
    if es_personalizado(custom) {
        custom.unwrap()@
    } else {
        default_dir
    }
}

fn personalizado(config: &AppConfig) -> (r: bool)
    ensures
        r == es_personalizado(config.custom_data_dir),
{
    match &config.custom_data_dir {
        Some(s) => s.as_str().unicode_len() > 0,
        None => false,
    }
}

/// Directorio de datos efectivo según la configuración.
pub fn get_effective_data_dir(config: &AppConfig, default_dir: &str) -> (r: String)
    ensures
        r@ == directorio_efectivo(config.custom_data_dir, default_dir@),
{
    if personalizado(config) {
        match &config.custom_data_dir {
            Some(s) => s.clone(),
            None => String::from_str(default_dir),
        }
    } else {
        String::from_str(default_dir)
    }
}

/// Información de la ruta de datos actual para la interfaz.
pub fn get_data_dir_config(config: &AppConfig, default_dir: &str) -> (r: DataDirConfig)
    ensures
        r.is_custom == es_personalizado(config.custom_data_dir),
        r.current_dir@ == directorio_efectivo(config.custom_data_dir, default_dir@),
        r.default_dir@ == default_dir@,
{
    let is_custom = personalizado(config);
    DataDirConfig {
        current_dir: get_effective_data_dir(config, default_dir),
        is_custom,
        default_dir: String::from_str(default_dir),
    }
}

// ---------------------------------------------------------------------------
// Cambio de directorio de datos
// ---------------------------------------------------------------------------

/// Una operación sobre archivos del cambio de directorio.
#[derive(Debug)]
pub enum AccionArchivo {
    /// Copiar la base de datos actual (`origen`) en el nuevo directorio (`destino`).
    CopiarBase { origen: String, destino: String },
    /// Copiar la copia automática actual (`origen`) en el nuevo directorio (`destino`).
    CopiarCopiaAutomatica { origen: String, destino: String },
    /// Renombrar la base que ya había en el nuevo directorio (`origen`) como
    /// su copia automática (`destino`).
    ApartarBaseNueva { origen: String, destino: String },
    /// Guardar la base actual (`origen`) comprimida en la carpeta de
    /// descargas con el nombre dado.
    CopiaComprimida { origen: String, nombre: String },
}

/// Qué archivos existen al empezar el cambio.
#[derive(Debug, Clone, Copy, PartialEq, Eq)]
pub struct Existencias {
    pub bd_actual: bool,
    pub copia_actual: bool,
    pub bd_nueva: bool,
    pub copia_nueva: bool,
}

/// Las operaciones a hacer, la configuración a guardar y el mensaje final.
#[derive(Debug)]
pub struct PlanCambioDirectorio {
    pub acciones: Vec<AccionArchivo>,
    pub config: AppConfig,
    pub mensaje: String,
}

/// Una acción vista como (tipo, origen, destino o nombre): 0 copiar la base,
/// 1 copiar la copia automática, 2 apartar la base del nuevo directorio,
/// 3 copia comprimida.
pub open spec fn vista_accion(a: AccionArchivo) -> (int, Seq<char>, Seq<char>) {
    match a {
        AccionArchivo::CopiarBase { origen, destino } => (0, origen@, destino@),
        AccionArchivo::CopiarCopiaAutomatica { origen, destino } => (1, origen@, destino@),
        AccionArchivo::ApartarBaseNueva { origen, destino } => (2, origen@, destino@),
        AccionArchivo::CopiaComprimida { origen, nombre } => (3, origen@, nombre@),
    }
}

/// Nombre de la copia de la base actual que se guarda antes de pasar a usar
/// la base que ya había en el nuevo directorio.
pub open spec fn nombre_copia_cambio(marca: Seq<char>) -> Seq<char> {
    "hermanar-antes-cambio-ruta-"@ + marca + ".zst"@
}

/// Operaciones del cambio de directorio:
/// - sin conflicto (`None`): se copian la base y su copia automática al nuevo directorio;
/// - usando la base que ya hay en el nuevo (`Some(true)`): sólo se guarda una
///   copia comprimida de la actual en descargas;
/// - usando la actual (`Some(false)`): la base del nuevo directorio pasa a ser
///   su copia automática, se copia la actual, y la copia automática actual se
///   copia sólo si en el nuevo directorio no queda ya una.
///
/// Si el nuevo directorio es el actual (la base está en la misma ruta), sin
/// conflicto o usando la actual no hay ningún archivo que tocar: la base
/// actual sigue en su sitio. Usando la existente se guarda igualmente la
/// copia comprimida de la actual.
pub open spec fn acciones_cambio(
    actual: Seq<char>,
    nuevo: Seq<char>,
    usar_existente: Option<bool>,
    ex: Existencias,
    marca: Seq<char>,
) -> Seq<(int, Seq<char>, Seq<char>)> {
    let bd_a = ruta_unida(actual, "hermanar.db"@);
    let cp_a = ruta_unida(actual, "hermanar.db.backup"@);
    let bd_n = ruta_unida(nuevo, "hermanar.db"@);
    let cp_n = ruta_unida(nuevo, "hermanar.db.backup"@);
    let vacia = Seq::<(int, Seq<char>, Seq<char>)>::empty();
    match usar_existente {
        Some(true) => if ex.bd_actual { seq![(3int, bd_a, nombre_copia_cambio(marca))] } else { vacia },
        _ => if bd_a == bd_n {
            vacia
        } else if usar_existente is None {
            (if ex.bd_actual { seq![(0int, bd_a, bd_n)] } else { vacia })
                + (if ex.copia_actual { seq![(1int, cp_a, cp_n)] } else { vacia })
        } else {
            (if ex.bd_nueva { seq![(2int, bd_n, cp_n)] } else { vacia })
                + (if ex.bd_actual { seq![(0int, bd_a, bd_n)] } else { vacia })
                + (if ex.copia_actual && !(ex.copia_nueva || ex.bd_nueva) { seq![(1int, cp_a, cp_n)] } else { vacia })
        },
    }
}

/// Mensaje tras cambiar de directorio.
pub open spec fn mensaje_cambio(nuevo: Seq<char>) -> Seq<char> {
    "Ruta de datos cambiada a: "@ + nuevo + ". Reinicia la aplicación para aplicar los cambios."@
}

/// Planifica el cambio del directorio de datos de `dir_actual` a `dir_nuevo`.
/// `marca` es la marca de tiempo para el nombre de la copia comprimida.
pub fn plan_cambio_directorio(
    dir_actual: &str,
    dir_nuevo: &str,
    usar_existente: Option<bool>,
    ex: Existencias,
    marca: &str,
) -> (r: PlanCambioDirectorio)
    ensures
        r.acciones@.len() == acciones_cambio(dir_actual@, dir_nuevo@, usar_existente, ex, marca@).len(),
        forall|i: int| 0 <= i < r.acciones@.len() ==> vista_accion(#[trigger] r.acciones@[i])
            == acciones_cambio(dir_actual@, dir_nuevo@, usar_existente, ex, marca@)[i],
        r.config.custom_data_dir is Some && r.config.custom_data_dir.unwrap()@ == dir_nuevo@,
        r.mensaje@ == mensaje_cambio(dir_nuevo@),
{
    let bd_a = ruta_base_datos(dir_actual);
    let cp_a = ruta_copia_automatica(dir_actual);
    let bd_n = ruta_base_datos(dir_nuevo);
    let cp_n = ruta_copia_automatica(dir_nuevo);
    let ghost esperadas = acciones_cambio(dir_actual@, dir_nuevo@, usar_existente, ex, marca@);
    let mut acciones: Vec<AccionArchivo> = Vec::new();
    let misma_ruta = bd_a == bd_n;
    match usar_existente {
        Some(true) => {
            if ex.bd_actual {
                let mut nombre = String::from_str("hermanar-antes-cambio-ruta-");
                nombre.append(marca);
                nombre.append(".zst");
                acciones.push(AccionArchivo::CopiaComprimida { origen: bd_a.clone(), nombre });
            }
        },
        None => {
            if !misma_ruta {
                if ex.bd_actual {
                    acciones.push(AccionArchivo::CopiarBase { origen: bd_a.clone(), destino: bd_n.clone() });
                }
                if ex.copia_actual {
                    acciones.push(AccionArchivo::CopiarCopiaAutomatica { origen: cp_a.clone(), destino: cp_n.clone() });
                }
            }
        },
        Some(false) => {
            if !misma_ruta {
                if ex.bd_nueva {
                    acciones.push(AccionArchivo::ApartarBaseNueva { origen: bd_n.clone(), destino: cp_n.clone() });
                }
                if ex.bd_actual {
                    acciones.push(AccionArchivo::CopiarBase { origen: bd_a.clone(), destino: bd_n.clone() });
                }
                if ex.copia_actual && !(ex.copia_nueva || ex.bd_nueva) {
                    acciones.push(AccionArchivo::CopiarCopiaAutomatica { origen: cp_a.clone(), destino: cp_n.clone() });
                }
            }
        },
    }
    proof {
        assert forall|i: int| 0 <= i < acciones@.len() implies vista_accion(#[trigger] acciones@[i]) == esperadas[i] by {}
    }
    let mut mensaje = String::from_str("Ruta de datos cambiada a: ");
    mensaje.append(dir_nuevo);
    mensaje.append(". Reinicia la aplicación para aplicar los cambios.");
    PlanCambioDirectorio {
        acciones,
        config: AppConfig { custom_data_dir: Some(String::from_str(dir_nuevo)) },
        mensaje,
    }
}

/// Mensaje tras volver al directorio por defecto.
pub open spec fn mensaje_restablecido(default_dir: Seq<char>) -> Seq<char> {
    "Ruta de datos restablecida al directorio por defecto: "@ + default_dir
        + ". Reinicia la aplicación para aplicar los cambios."@
}

/// Vuelta al directorio por defecto: la configuración a guardar y el mensaje.
pub fn plan_restablecer_directorio(default_dir: &str) -> (r: (AppConfig, String))
    ensures
        r.0.custom_data_dir is None,
        r.1@ == mensaje_restablecido(default_dir@),
{
    let mut mensaje = String::from_str("Ruta de datos restablecida al directorio por defecto: ");
    mensaje.append(default_dir);
    mensaje.append(". Reinicia la aplicación para aplicar los cambios.");
    (AppConfig { custom_data_dir: None }, mensaje)
}

} // verus!
