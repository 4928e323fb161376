//! Recibos anuales de cuota: datos, textos y maquetación de la página.
//!
//! Las medidas se expresan en décimas de milímetro sobre una página A4
//! (2100 × 2970), con el origen abajo a la izquierda.

use vstd::prelude::*;
use crate::modelo::{Hermano, Cuota};
use crate::db::{Database, DbError, existe_cuota, cuota_por_id, hermano_por_id, existe_hermano};
use crate::texto::{decimal, decimal_con_signo, caracter_cifra, recortado, recortar, escribir_decimal, escribir_entero};

verus! {

/// Datos de la hermandad que encabezan cada recibo.
#[derive(Debug)]
pub struct ConfiguracionRecibo {
    pub logo_path: Option<String>,
    pub nombre_hermandad: String,
    pub ubicacion: String,
    pub direccion: String,
}

impl ConfiguracionRecibo {
    /// Copia exacta de la configuración.
    pub fn copia(&self) -> (r: ConfiguracionRecibo)
        ensures
            r == *self,
    {
        ConfiguracionRecibo {
            logo_path: crate::modelo::copiar_texto_opcional(&self.logo_path),
            nombre_hermandad: self.nombre_hermandad.clone(),
            ubicacion: self.ubicacion.clone(),
            direccion: self.direccion.clone(),
        }
    }
}

/// La configuración con la que se imprimen los recibos si no se ha guardado ninguna.
pub open spec fn es_configuracion_por_defecto(c: ConfiguracionRecibo) -> bool {
    &&& c.logo_path is None
    &&& c.nombre_hermandad@ == "NOMBRE DE LA HERMANDAD"@
    &&& c.ubicacion@ == "LOCALIDAD"@
    &&& c.direccion@ == "Dirección completa"@
}

/// Configuración de recibos por defecto.
pub fn configuracion_por_defecto() -> (r: ConfiguracionRecibo)
    ensures
        es_configuracion_por_defecto(r),
{
    ConfiguracionRecibo {
        logo_path: None,
        nombre_hermandad: String::from_str("NOMBRE DE LA HERMANDAD"),
        ubicacion: String::from_str("LOCALIDAD"),
        direccion: String::from_str("Dirección completa"),
    }
}

// ---------------------------------------------------------------------------
// Textos del recibo
// ---------------------------------------------------------------------------

/// El texto opcional, o vacío si no hay.
pub open spec fn o_vacio(o: Option<String>) -> Seq<char> {
    match o {
        Some(s) => s@,
        None => Seq::empty(),
    }
}

/// "nombre primer_apellido segundo_apellido" (con el segundo vacío si no hay).
pub open spec fn nombre_completo_de(nombre: Seq<char>, primero: Seq<char>, segundo: Seq<char>) -> Seq<char> {
    nombre + seq![' '] + primero + seq![' '] + segundo
}

/// Nombre completo del hermano tal como aparece en el recibo.
pub fn nombre_completo(nombre: &String, primer_apellido: &String, segundo_apellido: &Option<String>) -> (r: String)
    ensures
        r@ == nombre_completo_de(nombre@, primer_apellido@, o_vacio(*segundo_apellido)),
{
    proof { reveal_strlit(" "); }
    let mut r = String::from_str(nombre.as_str());
    r.append(" ");
    r.append(primer_apellido.as_str());
    r.append(" ");
    match segundo_apellido {
        Some(s) => r.append(s.as_str()),
        None => {},
    }
    r
}

/// Primera posición desde `i` donde hay un guion, o -1.
pub open spec fn guion_desde(s: Seq<char>, i: int) -> int
    decreases s.len() - i,
{
    if i < 0 || i >= s.len() {
        -1
    } else if s[i] == '-' {
        i
    } else {
        guion_desde(s, i + 1)
    }
}

/// La fecha "AAAA-MM-DD" escrita "DD/MM/AAAA": si el texto tiene al menos tres
/// trozos separados por guiones, los tres primeros en orden inverso separados
/// por barras; si no, el texto tal cual.
pub open spec fn fecha_formateada(s: Seq<char>) -> Seq<char> {
    let a = guion_desde(s, 0);
    if a < 0 {
        s
    } else {
        let b = guion_desde(s, a + 1);
        if b < 0 {
            s
        } else {
            let c0 = guion_desde(s, b + 1);
            let c = if c0 < 0 { s.len() as int } else { c0 };
            s.subrange(b + 1, c) + seq!['/'] + s.subrange(a + 1, b) + seq!['/'] + s.subrange(0, a)
        }
    }
}

fn buscar_guion(s: &str, n: usize, desde: usize) -> (r: Option<usize>)
    requires
        n == s@.len(),
        desde <= n,
    ensures
        match r {
            Some(k) => k as int == guion_desde(s@, desde as int) && desde <= k < n,
            None => guion_desde(s@, desde as int) == -1,
        },
{
    let mut i = desde;
    while i < n
        invariant
            n == s@.len(),
            desde <= i <= n,
            guion_desde(s@, i as int) == guion_desde(s@, desde as int),
        decreases n - i,
    {
        if s.get_char(i) == '-' {
            return Some(i);
        }
        i = i + 1;
    }
    None
}

/// Convierte la fecha de alta de "AAAA-MM-DD" a "DD/MM/AAAA".
pub fn formatear_fecha_alta(fecha: &str) -> (r: String)
    ensures
        r@ == fecha_formateada(fecha@),
{
    proof { reveal_strlit("/"); }
    let n = fecha.unicode_len();
    let a = match buscar_guion(fecha, n, 0) {
        None => {
            return String::from_str(fecha);
        },
        Some(a) => a,
    };
    let b = match buscar_guion(fecha, n, a + 1) {
        None => {
            return String::from_str(fecha);
        },
        Some(b) => b,
    };
    let c = match buscar_guion(fecha, n, b + 1) {
        None => n,
        Some(c) => c,
    };
    let mut r = String::from_str(fecha.substring_char(b + 1, c));
    r.append("/");
    r.append(fecha.substring_char(a + 1, b));
    r.append("/");
    r.append(fecha.substring_char(0, a));
    r
}

/// Domicilio en una línea: "dirección, CP localidad, provincia", omitiendo
/// lo que falte; vacío si no hay dirección.
pub open spec fn domicilio_de(direccion: Seq<char>, localidad: Seq<char>, provincia: Seq<char>, cp: Seq<char>) -> Seq<char> {
    if direccion.len() == 0 {
        Seq::empty()
    } else {
        let lugar = recortado(cp + seq![' '] + localidad);
        let con_lugar = if (cp.len() > 0 || localidad.len() > 0) && lugar.len() > 0 {
            direccion + seq![',', ' '] + lugar
        } else {
            direccion
        };
        if provincia.len() > 0 {
            con_lugar + seq![',', ' '] + provincia
        } else {
            con_lugar
        }
    }
}

/// Domicilio del hermano tal como aparece en el recibo.
pub fn domicilio(
    direccion: &Option<String>,
    localidad: &Option<String>,
    provincia: &Option<String>,
    codigo_postal: &Option<String>,
) -> (r: String)
    ensures
        r@ == domicilio_de(o_vacio(*direccion), o_vacio(*localidad), o_vacio(*provincia), o_vacio(*codigo_postal)),
{
    proof {
        reveal_strlit(" ");
        reveal_strlit(", ");
        assert(" "@ =~= seq![' ']);
        assert(", "@ =~= seq![',', ' ']);
    }
    let dir = match direccion {
        Some(s) => s.clone(),
        None => String::new(),
    };
    let loc = match localidad {
        Some(s) => s.clone(),
        None => String::new(),
    };
    let prov = match provincia {
        Some(s) => s.clone(),
        None => String::new(),
    };
    let cp = match codigo_postal {
        Some(s) => s.clone(),
        None => String::new(),
    };
    if dir.as_str().unicode_len() == 0 {
        return String::new();
    }
    let mut r = String::from_str(dir.as_str());
    if cp.as_str().unicode_len() > 0 || loc.as_str().unicode_len() > 0 {
        let mut junto = String::from_str(cp.as_str());
        junto.append(" ");
        junto.append(loc.as_str());
        let lugar = recortar(junto.as_str());
        if lugar.as_str().unicode_len() > 0 {
            r.append(", ");
            r.append(lugar.as_str());
        }
    }
    if prov.as_str().unicode_len() > 0 {
        r.append(", ");
        r.append(prov.as_str());
    }
    r
}

/// Un importe en céntimos escrito en euros como lo escribe Rust para un
/// número real: sin decimales si es entero, y sin ceros finales en otro caso.
pub open spec fn importe_texto(c: int) -> Seq<char> {
    let a = if c < 0 { -c } else { c };
    let e = a / 100;
    let f = a % 100;
    let signo = if c < 0 { seq!['-'] } else { Seq::<char>::empty() };
    if f == 0 {
        signo + decimal(e as nat)
    } else if f % 10 == 0 {
        signo + decimal(e as nat) + seq!['.', caracter_cifra(f / 10)]
    } else {
        signo + decimal(e as nat) + seq!['.', caracter_cifra(f / 10), caracter_cifra(f % 10)]
    }
}

/// Añade a `out` el importe `centimos` escrito en euros.
pub fn escribir_importe(centimos: i64, out: &mut String)
    ensures
        final(out)@ == old(out)@ + importe_texto(centimos as int),
{
    proof {
        reveal_strlit("-");
        reveal_strlit(".");
    }
    let a: u64 = if centimos < 0 { (-(centimos as i128)) as u64 } else { centimos as u64 };
    let e = a / 100;
    let f = a % 100;
    if centimos < 0 {
        out.append("-");
    }
    escribir_decimal(e, out);
    if f != 0 {
        out.append(".");
        let mut d = String::new();
        escribir_decimal(f / 10, &mut d);
        out.append(d.as_str());
        if f % 10 != 0 {
            let mut d2 = String::new();
            escribir_decimal(f % 10, &mut d2);
            out.append(d2.as_str());
        }
    }
}

/// "AÑO <año>              CUOTA ANUAL: <importe> €"
pub open spec fn texto_anio(anio: int, centimos: int) -> Seq<char> {
    "AÑO "@ + decimal_con_signo(anio) + "              CUOTA ANUAL: "@ + importe_texto(centimos) + " €"@
}

/// "TOTAL: <importe> €"
pub open spec fn texto_total(centimos: int) -> Seq<char> {
    "TOTAL: "@ + importe_texto(centimos) + " €"@
}

/// Línea del año y la cuota anual del recibo.
pub fn linea_anio(anio: i32, centimos: i64) -> (r: String)
    ensures
        r@ == texto_anio(anio as int, centimos as int),
{
    let mut r = String::from_str("AÑO ");
    escribir_entero(anio as i64, &mut r);
    r.append("              CUOTA ANUAL: ");
    escribir_importe(centimos, &mut r);
    r.append(" €");
    r
}

/// Línea del total del recibo.
pub fn linea_total(centimos: i64) -> (r: String)
    ensures
        r@ == texto_total(centimos as int),
{
    let mut r = String::from_str("TOTAL: ");
    escribir_importe(centimos, &mut r);
    r.append(" €");
    r
}

// ---------------------------------------------------------------------------
// Maquetación
// ---------------------------------------------------------------------------

/// Altura de la zona del primer encabezado de cada página.
pub open spec fn y_inicial() -> int { 2700 }

/// Lo que baja el cursor por cada recibo.
pub open spec fn alto_recibo() -> int { 830 }

/// Posición de un recibo: página y alturas de sus bloques.
#[derive(Debug, Clone, Copy, PartialEq, Eq)]
pub struct PosicionRecibo {
    /// Página (la primera es la 0).
    pub pagina: usize,
    /// Nombre de la hermandad.
    pub y_titulo: i32,
    /// Ubicación.
    pub y_ubicacion: i32,
    /// Dirección de la hermandad.
    pub y_direccion: i32,
    /// Número de hermano y "RECIBO ANUAL DE HERMANO".
    pub y_cabecera: i32,
    /// Año, cuota y total.
    pub y_anio: i32,
    /// Datos del hermano.
    pub y_datos: i32,
    /// Nota al pie.
    pub y_nota: i32,
}

/// Posición del recibo en la altura `y` de la página `pagina`.
pub open spec fn posicion_en(pagina: int, y: int) -> PosicionRecibo {
    PosicionRecibo {
        pagina: pagina as usize,
        y_titulo: y as i32,
        y_ubicacion: (y - 60) as i32,
        y_direccion: (y - 110) as i32,
        y_cabecera: (y - 190) as i32,
        y_anio: (y - 310) as i32,
        y_datos: (y - 410) as i32,
        y_nota: (y - 690) as i32,
    }
}

/// El recibo `k` (desde 0) va en la página `k / 3`, en el hueco `k % 3`.
pub open spec fn posicion_recibo(k: int) -> PosicionRecibo {
    posicion_en(k / 3, y_inicial() - alto_recibo() * (k % 3))
}

fn posicion_de(pagina: usize, y: i32) -> (r: PosicionRecibo)
    requires
        1000 <= y <= 2700,
    ensures
        r == posicion_en(pagina as int, y as int),
{
    PosicionRecibo {
        pagina: pagina,
        y_titulo: y,
        y_ubicacion: y - 60,
        y_direccion: y - 110,
        y_cabecera: y - 190,
        y_anio: y - 310,
        y_datos: y - 410,
        y_nota: y - 690,
    }
}

/// Coloca `n` recibos seguidos: cada uno baja el cursor lo que mide, y cuando
/// el siguiente ya no cabe se empieza una página nueva.
pub fn maquetar(n: usize) -> (r: Vec<PosicionRecibo>)
    ensures
        r@.len() == n,
        forall|k: int| 0 <= k < n ==> #[trigger] r@[k] == posicion_recibo(k),
{
    let mut r: Vec<PosicionRecibo> = Vec::new();
    let mut pagina: usize = 0;
    let mut y: i32 = 2700;
    let mut k: usize = 0;
    while k < n
        invariant
            k <= n,
            r@.len() == k,
            forall|j: int| 0 <= j < k ==> #[trigger] r@[j] == posicion_recibo(j),
            k == 0 ==> pagina == 0 && y == 2700,
            k > 0 ==> pagina == (k - 1) / 3 && y == 2700 - 830 * ((k - 1) % 3 + 1),
        decreases n - k,
    {
        if y < 1030 {
            pagina = pagina + 1;
            y = 2700;
        }
        assert(pagina == k / 3 && y == 2700 - 830 * (k % 3));
        r.push(posicion_de(pagina, y));
        y = y - 830;
        k = k + 1;
    }
    r
}

// ---------------------------------------------------------------------------
// Preparación del documento
// ---------------------------------------------------------------------------

/// Un recibo con todos sus textos ya compuestos y su posición.
#[derive(Debug)]
pub struct ReciboPreparado {
    pub cuota: Cuota,
    pub numero_hermano: String,
    pub nombre_completo: String,
    pub fecha_alta: String,
    pub domicilio: String,
    pub texto_anio: String,
    pub texto_total: String,
    pub posicion: PosicionRecibo,
}

/// Los recibos a imprimir y la configuración con que se encabezan.
#[derive(Debug)]
pub struct DocumentoRecibos {
    pub configuracion: ConfiguracionRecibo,
    pub recibos: Vec<ReciboPreparado>,
}

/// `r` es el recibo `k` del documento para la cuota `c` del hermano `h`.
pub open spec fn recibo_de(r: ReciboPreparado, c: Cuota, h: Hermano, k: int) -> bool {
    &&& r.cuota == c
    &&& r.numero_hermano == h.numero_hermano
    &&& r.nombre_completo@ == nombre_completo_de(h.nombre@, h.primer_apellido@, o_vacio(h.segundo_apellido))
    &&& r.fecha_alta@ == fecha_formateada(h.fecha_alta@)
    &&& r.domicilio@ == domicilio_de(o_vacio(h.direccion), o_vacio(h.localidad), o_vacio(h.provincia), o_vacio(h.codigo_postal))
    &&& r.texto_anio@ == texto_anio(c.anio as int, c.importe_centimos as int)
    &&& r.texto_total@ == texto_total(c.importe_centimos as int)
    &&& r.posicion == posicion_recibo(k)
}

/// Prepara los recibos de las cuotas pedidas, en el orden pedido. Falla si
/// alguna de las cuotas no existe. Sin configuración guardada se usa la de
/// por defecto.
pub fn preparar_recibos(db: &Database, cuotas_ids: &Vec<i32>) -> (r: Result<DocumentoRecibos, DbError>)
    requires
        db.wf(),
    ensures
        r is Err <==> exists|t: int| 0 <= t < cuotas_ids@.len() && !existe_cuota(db.cuotas(), #[trigger] cuotas_ids@[t]),
        r matches Err(e) ==> e == DbError::CuotaNoExiste,
        r matches Ok(doc) ==> {
            &&& match db.configuracion() {
                Some(c) => doc.configuracion == c,
                None => es_configuracion_por_defecto(doc.configuracion),
            }
            &&& doc.recibos@.len() == cuotas_ids@.len()
            &&& forall|k: int| 0 <= k < cuotas_ids@.len() ==> {
                let c = cuota_por_id(db.cuotas(), cuotas_ids@[k]).unwrap();
                recibo_de(#[trigger] doc.recibos@[k], c, hermano_por_id(db.hermanos(), c.hermano_id).unwrap(), k)
            }
        },
{
    let n = cuotas_ids.len();
    let mut cuotas: Vec<Cuota> = Vec::new();
    let mut t: usize = 0;
    while t < n
        invariant
            n == cuotas_ids@.len(),
            db.wf(),
            t <= n,
            cuotas@.len() == t,
            forall|j: int| 0 <= j < t ==> existe_cuota(db.cuotas(), #[trigger] cuotas_ids@[j])
                && cuotas@[j] == cuota_por_id(db.cuotas(), cuotas_ids@[j]).unwrap(),
        decreases n - t,
    {
        match db.get_cuota_by_id(cuotas_ids[t]) {
            Some(c) => {
                cuotas.push(c);
            },
            None => {
                return Err(DbError::CuotaNoExiste);
            },
        }
        t = t + 1;
    }
    let posiciones = maquetar(n);
    let mut recibos: Vec<ReciboPreparado> = Vec::new();
    let mut k: usize = 0;
    while k < n
        invariant
            n == cuotas_ids@.len(),
            db.wf(),
            k <= n,
            cuotas@.len() == n,
            posiciones@.len() == n,
            forall|j: int| 0 <= j < n ==> #[trigger] posiciones@[j] == posicion_recibo(j),
            forall|j: int| 0 <= j < n ==> existe_cuota(db.cuotas(), #[trigger] cuotas_ids@[j])
                && cuotas@[j] == cuota_por_id(db.cuotas(), cuotas_ids@[j]).unwrap(),
            recibos@.len() == k,
            forall|j: int| 0 <= j < k ==> {
                let c = cuota_por_id(db.cuotas(), cuotas_ids@[j]).unwrap();
                recibo_de(#[trigger] recibos@[j], c, hermano_por_id(db.hermanos(), c.hermano_id).unwrap(), j)
            },
        decreases n - k,
    {
        let c = cuotas[k].copia();
        proof {
            let cs = db.cuotas();
            let id = cuotas_ids@[k as int];
            assert(existe_cuota(cs, id));
            let i = choose|i: int| 0 <= i < cs.len() && (#[trigger] cs[i]).id == Some(id);
            assert(existe_hermano(db.hermanos(), cs[i].hermano_id));
        }
        let h = match db.get_hermano_by_id(c.hermano_id) {
            Some(h) => h,
            None => {
                return Err(DbError::HermanoNoExiste);
            },
        };
        let recibo = ReciboPreparado {
            numero_hermano: h.numero_hermano.clone(),
            nombre_completo: nombre_completo(&h.nombre, &h.primer_apellido, &h.segundo_apellido),
            fecha_alta: formatear_fecha_alta(h.fecha_alta.as_str()),
            domicilio: domicilio(&h.direccion, &h.localidad, &h.provincia, &h.codigo_postal),
            texto_anio: linea_anio(c.anio, c.importe_centimos),
            texto_total: linea_total(c.importe_centimos),
            posicion: posiciones[k],
            cuota: c,
        };
        recibos.push(recibo);
        k = k + 1;
    }
    let configuracion = match db.get_configuracion_recibo() {
        Ok(Some(c)) => c,
        _ => configuracion_por_defecto(),
    };
    Ok(DocumentoRecibos { configuracion, recibos })
}

// ---------------------------------------------------------------------------
// Archivo de salida
// ---------------------------------------------------------------------------

/// Carpeta personal según las variables `HOME` y `USERPROFILE` (la primera
/// que esté definida), o `.` si no hay ninguna.
pub open spec fn carpeta_personal(home: Option<String>, perfil: Option<String>) -> Seq<char> {
    match home {
        Some(h) => h@,
        None => match perfil {
            Some(p) => p@,
            None => "."@,
        },
    }
}

/// "<carpeta personal>/Documentos/recibos_<marca>.pdf"
pub open spec fn ruta_pdf_de(home: Option<String>, perfil: Option<String>, marca: Seq<char>) -> Seq<char> {
    carpeta_personal(home, perfil) + "/Documentos/recibos_"@ + marca + ".pdf"@
}

/// Ruta del PDF de recibos, dadas las variables de entorno `HOME` y
/// `USERPROFILE` (si están definidas) y la marca de tiempo.
pub fn ruta_pdf_recibos(home: &Option<String>, perfil: &Option<String>, marca: &str) -> (r: String)
    ensures
        r@ == ruta_pdf_de(*home, *perfil, marca@),
{
    let mut r = match home {
        Some(h) => h.clone(),
        None => match perfil {
            Some(p) => p.clone(),
            None => String::from_str("."),
        },
    };
    r.append("/Documentos/recibos_");
    r.append(marca);
    r.append(".pdf");
    r
}

} // verus!
