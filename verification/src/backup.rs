//! Copias de seguridad de la base de datos: compresión con zstd al exportar,
//! y descompresión y comprobación de que es una base SQLite al importar.

use vstd::prelude::*;

verus! {

/// Lo que produce `zstd::encode_all` con esos datos y ese nivel.
pub uninterp spec fn zstd_comprimido(datos: Seq<u8>, nivel: i32) -> Seq<u8>;

/// Lo que produce `zstd::decode_all` con esos datos: los datos descomprimidos,
/// o `None` si no son un flujo zstd que se pueda descomprimir.
pub uninterp spec fn zstd_descomprimido(datos: Seq<u8>) -> Option<Seq<u8>>;

/// Niveles de compresión con los que se da por hecho que se puede descomprimir
/// lo comprimido.
pub open spec fn nivel_zstd(nivel: i32) -> bool {
    1 <= nivel <= 22
}

/// Comprime con `zstd::encode_all`. Se supone que el resultado depende sólo de
/// los datos y del nivel, y que con un nivel admitido acaba bien: el nivel se
/// pasa a zstd, que lo ajusta a su rango, el diccionario es vacío, y escribir
/// en un `Vec` o leer de un `&[u8]` no falla (agotar la memoria no se
/// contempla). El error, si lo hay, se devuelve como texto.
#[verifier::external_body]
fn zstd_encode(datos: &[u8], nivel: i32) -> (r: Result<Vec<u8>, String>)
    ensures
        r matches Ok(v) ==> v@ == zstd_comprimido(datos@, nivel),
        nivel_zstd(nivel) ==> r is Ok,
{
    match zstd::encode_all(datos, nivel) {
        Ok(v) => Ok(v),
        Err(e) => Err(e.to_string()),
    }
}

/// Descomprime con `zstd::decode_all`. Se supone que el resultado, éxito o
/// fallo, depende sólo de los datos, y que lo comprimido con
/// `zstd::encode_all` a un nivel admitido se descomprime sin error en los
/// datos originales (compresión sin pérdida). El error se devuelve como texto.
#[verifier::external_body]
fn zstd_decode(datos: &[u8]) -> (r: Result<Vec<u8>, String>)
    ensures
        r is Ok <==> zstd_descomprimido(datos@) is Some,
        r matches Ok(v) ==> zstd_descomprimido(datos@) == Some(v@),
        forall|x: Seq<u8>, nivel: i32|
            nivel_zstd(nivel) && datos@ == #[trigger] zstd_comprimido(x, nivel) ==> r is Ok && r.unwrap()@ == x,
{
    match zstd::decode_all(datos) {
        Ok(v) => Ok(v),
        Err(e) => Err(e.to_string()),
    }
}

/// Nivel de compresión de las copias.
pub open spec fn nivel_copia() -> i32 {
    3
}

/// Comprime el contenido de la base de datos para guardarlo como copia, al
/// nivel de las copias.
pub fn comprimir_copia(datos: &[u8]) -> (r: Result<Vec<u8>, String>)
    ensures
        r is Ok,
        r matches Ok(v) ==> v@ == zstd_comprimido(datos@, nivel_copia()),
{
    zstd_encode(datos, 3)
}

/// Los primeros bytes de todo archivo SQLite: "SQLite format 3".
pub open spec fn firma_sqlite() -> Seq<u8> {
    seq![83u8, 81u8, 76u8, 105u8, 116u8, 101u8, 32u8, 102u8, 111u8, 114u8, 109u8, 97u8, 116u8, 32u8, 51u8]
}

/// Tiene aspecto de base de datos SQLite: al menos 16 bytes y empieza por la firma.
pub open spec fn parece_sqlite(d: Seq<u8>) -> bool {
    d.len() >= 16 && d.subrange(0, 15) == firma_sqlite()
}

/// Por qué se rechaza un archivo de copia al importarlo.
#[derive(Debug, PartialEq, Eq)]
pub enum ErrorImportacion {
    /// No se pudo descomprimir (mensaje de zstd).
    Descompresion(String),
    /// Lo descomprimido no es una base de datos SQLite.
    NoEsSqlite,
}

fn empieza_por_firma(d: &Vec<u8>) -> (r: bool)
    ensures
        r == parece_sqlite(d@),
{
    if d.len() < 16 {
        return false;
    }
    let firma: [u8; 15] = [83, 81, 76, 105, 116, 101, 32, 102, 111, 114, 109, 97, 116, 32, 51];
    let mut i: usize = 0;
    while i < 15
        invariant
            d@.len() >= 16,
            i <= 15,
            firma@ == firma_sqlite(),
            forall|j: int| 0 <= j < i ==> d@[j] == firma@[j],
        decreases 15 - i,
    {
        if d[i] != firma[i] {
            assert(d@.subrange(0, 15)[i as int] != firma_sqlite()[i as int]);
            return false;
        }
        i = i + 1;
    }
    assert(d@.subrange(0, 15) =~= firma_sqlite());
    true
}

/// Descomprime un archivo de copia y comprueba que contiene una base SQLite:
/// si no se puede descomprimir, error de descompresión; si lo descomprimido no
/// es una base SQLite, `NoEsSqlite`; si no, lo descomprimido. Una copia de una
/// base SQLite comprimida con zstd a cualquier nivel admitido (como las de
/// [`comprimir_copia`]) se recupera íntegra.
pub fn preparar_importacion(comprimido: &[u8]) -> (r: Result<Vec<u8>, ErrorImportacion>)
    ensures
        match zstd_descomprimido(comprimido@) {
            None => r matches Err(ErrorImportacion::Descompresion(_)),
            Some(d) => if parece_sqlite(d) {
                r matches Ok(v) && v@ == d
            } else {
                r == Err::<Vec<u8>, ErrorImportacion>(ErrorImportacion::NoEsSqlite)
            },
        },
        forall|x: Seq<u8>, nivel: i32|
            nivel_zstd(nivel) && comprimido@ == #[trigger] zstd_comprimido(x, nivel) && parece_sqlite(x)
                ==> r is Ok && r.unwrap()@ == x,
{
    match zstd_decode(comprimido) {
        Err(e) => Err(ErrorImportacion::Descompresion(e)),
        Ok(d) => {
            if empieza_por_firma(&d) {
                Ok(d)
            } else {
                Err(ErrorImportacion::NoEsSqlite)
            }
        },
    }
}

impl ErrorImportacion {
    /// Texto del error para el usuario.
    pub open spec fn mensaje_de(self) -> Seq<char> {
        match self {
            ErrorImportacion::Descompresion(e) => "Error al descomprimir: "@ + e@,
            ErrorImportacion::NoEsSqlite => "El archivo no es una base de datos SQLite válida"@,
        }
    }

    /// Texto del error para el usuario.
    pub fn mensaje(&self) -> (r: String)
        ensures
            r@ == self.mensaje_de(),
    {
        match self {
            ErrorImportacion::Descompresion(e) => {
                let mut m = String::from_str("Error al descomprimir: ");
                m.append(e.as_str());
                m
            },
            ErrorImportacion::NoEsSqlite => String::from_str("El archivo no es una base de datos SQLite válida"),
        }
    }
}

/// Nombre del archivo de una copia exportada con la marca de tiempo dada.
pub fn nombre_copia_exportada(marca: &str) -> (r: String)
    ensures
        r@ == "hermanar-"@ + marca@ + ".zst"@,
{
    let mut r = String::from_str("hermanar-");
    r.append(marca);
    r.append(".zst");
    r
}

} // verus!
