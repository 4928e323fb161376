//! Marcas de fecha y hora para los nombres de archivo (copias de seguridad y
//! recibos), escritas con `chrono`.

use vstd::prelude::*;
use crate::texto::decimal_relleno;

verus! {

/// Una fecha y hora local, por campos.
#[derive(Debug, Clone, Copy, PartialEq, Eq)]
pub struct FechaHora {
    pub anio: i32,
    pub mes: u32,
    pub dia: u32,
    pub hora: u32,
    pub minuto: u32,
    pub segundo: u32,
}

/// Año bisiesto del calendario gregoriano proléptico.
pub open spec fn bisiesto(anio: int) -> bool {
    (anio % 4 == 0 && anio % 100 != 0) || anio % 400 == 0
}

/// Días del mes `mes` (1 a 12) del año dado.
pub open spec fn dias_del_mes(anio: int, mes: int) -> int {
    if mes == 2 {
        if bisiesto(anio) { 29 } else { 28 }
    } else if mes == 4 || mes == 6 || mes == 9 || mes == 11 {
        30
    } else {
        31
    }
}

/// La fecha y hora existe (y está en el rango de años que admite `chrono`).
pub open spec fn fecha_hora_valida(f: FechaHora) -> bool {
    &&& -262143 <= f.anio <= 262142
    &&& 1 <= f.mes <= 12
    &&& 1 <= f.dia <= dias_del_mes(f.anio as int, f.mes as int)
    &&& f.hora < 24
    &&& f.minuto < 60
    &&& f.segundo < 60
}

/// Formato de la marca en los nombres de las copias de seguridad.
pub open spec fn formato_copia() -> Seq<char> {
    "%Y-%m-%d-%H-%M-%S"@
}

/// Formato de las fechas guardadas en la base ("AAAA-MM-DD").
pub open spec fn formato_fecha() -> Seq<char> {
    "%Y-%m-%d"@
}

/// Formato de las marcas de fecha y hora guardadas en la base, el mismo que
/// usa `CURRENT_TIMESTAMP` de SQLite ("AAAA-MM-DD hh:mm:ss").
pub open spec fn formato_fecha_hora() -> Seq<char> {
    "%Y-%m-%d %H:%M:%S"@
}

/// Formato de la marca en los nombres de los PDF de recibos.
pub open spec fn formato_recibos() -> Seq<char> {
    "%Y%m%d_%H%M%S"@
}

/// Un año como lo escribe `%Y` de `chrono`: con cuatro cifras (rellenas con
/// ceros) entre 0 y 9999, y fuera de ese rango con signo delante.
pub open spec fn anio_chrono(anio: int) -> Seq<char> {
    if 0 <= anio <= 9999 {
        decimal_relleno(anio as nat, 4)
    } else if anio > 9999 {
        "+"@ + decimal_relleno(anio as nat, 4)
    } else {
        "-"@ + decimal_relleno((-anio) as nat, 4)
    }
}

/// Un campo de dos cifras como lo escriben `%m`, `%d`, `%H`, `%M` y `%S`.
pub open spec fn dos_cifras(n: int) -> Seq<char> {
    decimal_relleno(n as nat, 2)
}

/// Lo que escribe `chrono` para la fecha y hora `f` con uno de los formatos
/// de este módulo.
pub open spec fn texto_chrono(f: FechaHora, formato: Seq<char>) -> Seq<char> {
    if formato == formato_fecha() {
        anio_chrono(f.anio as int) + "-"@ + dos_cifras(f.mes as int) + "-"@ + dos_cifras(f.dia as int)
    } else if formato == formato_fecha_hora() {
        anio_chrono(f.anio as int) + "-"@ + dos_cifras(f.mes as int) + "-"@ + dos_cifras(f.dia as int) + " "@
            + dos_cifras(f.hora as int) + ":"@ + dos_cifras(f.minuto as int) + ":"@ + dos_cifras(f.segundo as int)
    } else if formato == formato_copia() {
        anio_chrono(f.anio as int) + "-"@ + dos_cifras(f.mes as int) + "-"@ + dos_cifras(f.dia as int) + "-"@
            + dos_cifras(f.hora as int) + "-"@ + dos_cifras(f.minuto as int) + "-"@ + dos_cifras(f.segundo as int)
    } else {
        anio_chrono(f.anio as int) + dos_cifras(f.mes as int) + dos_cifras(f.dia as int) + "_"@
            + dos_cifras(f.hora as int) + dos_cifras(f.minuto as int) + dos_cifras(f.segundo as int)
    }
}

/// Escribe la fecha y hora con `chrono` (`NaiveDate::from_ymd_opt`,
/// `and_hms_opt` y `format`). Se supone que da `None` exactamente cuando la
/// fecha u hora no existen, y que el texto es el que escribe `format` con
/// esos formatos: el año con `%Y` (cuatro cifras, con signo fuera de
/// 0..9999) y los demás campos con dos cifras rellenas con ceros.
#[verifier::external_body]
fn escribir_fecha_hora(f: &FechaHora, formato: &str) -> (r: Option<String>)
    requires
        formato@ == formato_copia() || formato@ == formato_recibos() || formato@ == formato_fecha()
            || formato@ == formato_fecha_hora(),
    ensures
        r is Some <==> fecha_hora_valida(*f),
        r matches Some(s) ==> s@ == texto_chrono(*f, formato@),
{
    match chrono::NaiveDate::from_ymd_opt(f.anio, f.mes, f.dia) {
        None => None,
        Some(d) => match d.and_hms_opt(f.hora, f.minuto, f.segundo) {
            None => None,
            Some(dt) => Some(dt.format(formato).to_string()),
        },
    }
}

/// Marca de tiempo de una copia de seguridad ("AAAA-MM-DD-hh-mm-ss").
pub fn marca_copia(f: &FechaHora) -> (r: Option<String>)
    ensures
        r is Some <==> fecha_hora_valida(*f),
        r matches Some(s) ==> s@ == texto_chrono(*f, formato_copia()),
{
    escribir_fecha_hora(f, "%Y-%m-%d-%H-%M-%S")
}

/// Marca de tiempo de un PDF de recibos ("AAAAMMDD_hhmmss").
pub fn marca_recibos(f: &FechaHora) -> (r: Option<String>)
    ensures
        r is Some <==> fecha_hora_valida(*f),
        r matches Some(s) ==> s@ == texto_chrono(*f, formato_recibos()),
{
    escribir_fecha_hora(f, "%Y%m%d_%H%M%S")
}

/// Una fecha tal como se guarda en la base ("AAAA-MM-DD").
pub fn texto_fecha(f: &FechaHora) -> (r: Option<String>)
    ensures
        r is Some <==> fecha_hora_valida(*f),
        r matches Some(s) ==> s@ == texto_chrono(*f, formato_fecha()),
{
    escribir_fecha_hora(f, "%Y-%m-%d")
}

/// Una fecha y hora tal como la guarda `CURRENT_TIMESTAMP` de SQLite
/// ("AAAA-MM-DD hh:mm:ss").
pub fn texto_fecha_hora(f: &FechaHora) -> (r: Option<String>)
    ensures
        r is Some <==> fecha_hora_valida(*f),
        r matches Some(s) ==> s@ == texto_chrono(*f, formato_fecha_hora()),
{
    escribir_fecha_hora(f, "%Y-%m-%d %H:%M:%S")
}

} // verus!
