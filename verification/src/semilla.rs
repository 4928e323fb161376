//! Datos de prueba para llenar una base de datos vacía: familias, hermanos
//! con todos sus datos, tres años de cuotas y la configuración de recibos.
//! Todo se deduce de contadores, sin azar.

use vstd::prelude::*;
use crate::modelo::{Hermano, Familia, Cuota};
use crate::recibos::ConfiguracionRecibo;
use crate::texto::{decimal, decimal_relleno, escribir_decimal, escribir_decimal_relleno};

verus! {

// ---------------------------------------------------------------------------
// Listas de valores
// ---------------------------------------------------------------------------

/// Nombres de las familias de prueba.
pub open spec fn familias_prueba() -> Seq<Seq<char>> {
    seq!["García Rodríguez"@, "Martínez López"@, "Sánchez Fernández"@, "Pérez Gómez"@, "López Martín"@, "González Jiménez"@, "Rodríguez Ruiz"@, "Fernández Díaz"@, "Díaz Moreno"@, "Moreno Muñoz"@, "Jiménez Álvarez"@, "Ruiz Romero"@, "Hernández Alonso"@, "Álvarez Gutiérrez"@, "Romero Navarro"@]
}

fn familia_prueba(i: usize) -> (r: &'static str)
    requires
        i < 15,
    ensures
        r@ == familias_prueba()[i as int],
{
    let a: [&'static str; 15] = ["García Rodríguez", "Martínez López", "Sánchez Fernández", "Pérez Gómez", "López Martín", "González Jiménez", "Rodríguez Ruiz", "Fernández Díaz", "Díaz Moreno", "Moreno Muñoz", "Jiménez Álvarez", "Ruiz Romero", "Hernández Alonso", "Álvarez Gutiérrez", "Romero Navarro"];
    a[i]
}

/// Nombres de pila de los hermanos de prueba.
pub open spec fn nombres_prueba() -> Seq<Seq<char>> {
    seq!["Juan"@, "María"@, "José"@, "Ana"@, "Carlos"@, "Laura"@, "Antonio"@, "Carmen"@, "Francisco"@, "Isabel"@, "Manuel"@, "Dolores"@, "David"@, "Pilar"@, "Javier"@, "Teresa"@, "Miguel"@, "Rosa"@, "Pedro"@, "Ángeles"@, "Jesús"@, "Concepción"@, "Fernando"@, "Mercedes"@, "Luis"@, "Josefa"@, "Ángel"@, "Francisca"@, "Rafael"@, "Antonia"@, "Enrique"@, "Cristina"@, "Pablo"@, "Lucía"@, "Sergio"@, "Elena"@]
}

fn nombre_prueba(i: usize) -> (r: &'static str)
    requires
        i < 36,
    ensures
        r@ == nombres_prueba()[i as int],
{
    let a: [&'static str; 36] = ["Juan", "María", "José", "Ana", "Carlos", "Laura", "Antonio", "Carmen", "Francisco", "Isabel", "Manuel", "Dolores", "David", "Pilar", "Javier", "Teresa", "Miguel", "Rosa", "Pedro", "Ángeles", "Jesús", "Concepción", "Fernando", "Mercedes", "Luis", "Josefa", "Ángel", "Francisca", "Rafael", "Antonia", "Enrique", "Cristina", "Pablo", "Lucía", "Sergio", "Elena"];
    a[i]
}

/// Primeros apellidos (uno por familia).
pub open spec fn apellidos_prueba() -> Seq<Seq<char>> {
    seq!["García"@, "Martínez"@, "López"@, "Sánchez"@, "González"@, "Rodríguez"@, "Fernández"@, "Pérez"@, "Gómez"@, "Martín"@, "Jiménez"@, "Ruiz"@, "Hernández"@, "Díaz"@, "Moreno"@, "Álvarez"@, "Romero"@, "Muñoz"@, "Navarro"@, "Gutiérrez"@]
}

fn apellido_prueba(i: usize) -> (r: &'static str)
    requires
        i < 20,
    ensures
        r@ == apellidos_prueba()[i as int],
{
    let a: [&'static str; 20] = ["García", "Martínez", "López", "Sánchez", "González", "Rodríguez", "Fernández", "Pérez", "Gómez", "Martín", "Jiménez", "Ruiz", "Hernández", "Díaz", "Moreno", "Álvarez", "Romero", "Muñoz", "Navarro", "Gutiérrez"];
    a[i]
}

/// Segundos apellidos.
pub open spec fn segundos_apellidos_prueba() -> Seq<Seq<char>> {
    seq!["López"@, "García"@, "Martínez"@, "Rodríguez"@, "Fernández"@, "Sánchez"@, "Pérez"@, "González"@, "Romero"@, "Díaz"@, "Moreno"@, "Ruiz"@, "Álvarez"@, "Jiménez"@, "Gutiérrez"@, "Navarro"@, "Torres"@, "Domínguez"@, "Vázquez"@, "Ramos"@]
}

fn segundo_apellido_prueba(i: usize) -> (r: &'static str)
    requires
        i < 20,
    ensures
        r@ == segundos_apellidos_prueba()[i as int],
{
    let a: [&'static str; 20] = ["López", "García", "Martínez", "Rodríguez", "Fernández", "Sánchez", "Pérez", "González", "Romero", "Díaz", "Moreno", "Ruiz", "Álvarez", "Jiménez", "Gutiérrez", "Navarro", "Torres", "Domínguez", "Vázquez", "Ramos"];
    a[i]
}

/// Localidades (una por familia).
pub open spec fn localidades_prueba() -> Seq<Seq<char>> {
    seq!["Alcázar de San Juan"@, "Madrid"@, "Toledo"@, "Ciudad Real"@, "Tomelloso"@, "Manzanares"@, "Valdepeñas"@, "Puertollano"@, "Daimiel"@, "La Solana"@]
}

fn localidad_prueba(i: usize) -> (r: &'static str)
    requires
        i < 10,
    ensures
        r@ == localidades_prueba()[i as int],
{
    let a: [&'static str; 10] = ["Alcázar de San Juan", "Madrid", "Toledo", "Ciudad Real", "Tomelloso", "Manzanares", "Valdepeñas", "Puertollano", "Daimiel", "La Solana"];
    a[i]
}

/// Provincias (una por familia).
pub open spec fn provincias_prueba() -> Seq<Seq<char>> {
    seq!["Ciudad Real"@, "Madrid"@, "Toledo"@, "Albacete"@, "Cuenca"@]
}

fn provincia_prueba(i: usize) -> (r: &'static str)
    requires
        i < 5,
    ensures
        r@ == provincias_prueba()[i as int],
{
    let a: [&'static str; 5] = ["Ciudad Real", "Madrid", "Toledo", "Albacete", "Cuenca"];
    a[i]
}

/// Calles de las direcciones.
pub open spec fn calles_prueba() -> Seq<Seq<char>> {
    seq!["Calle Mayor"@, "Calle Real"@, "Avenida de la Constitución"@, "Plaza del Ayuntamiento"@, "Calle de la Iglesia"@, "Paseo de la Estación"@, "Calle Nueva"@, "Calle del Carmen"@, "Avenida de España"@, "Calle del Molino"@, "Calle de la Paz"@, "Plaza de España"@]
}

fn calle_prueba(i: usize) -> (r: &'static str)
    requires
        i < 12,
    ensures
        r@ == calles_prueba()[i as int],
{
    let a: [&'static str; 12] = ["Calle Mayor", "Calle Real", "Avenida de la Constitución", "Plaza del Ayuntamiento", "Calle de la Iglesia", "Paseo de la Estación", "Calle Nueva", "Calle del Carmen", "Avenida de España", "Calle del Molino", "Calle de la Paz", "Plaza de España"];
    a[i]
}

/// Métodos de pago de las cuotas pagadas.
pub open spec fn metodos_pago_prueba() -> Seq<Seq<char>> {
    seq!["Efectivo"@, "Transferencia"@, "Tarjeta"@]
}

fn metodo_pago_prueba(i: usize) -> (r: &'static str)
    requires
        i < 3,
    ensures
        r@ == metodos_pago_prueba()[i as int],
{
    let a: [&'static str; 3] = ["Efectivo", "Transferencia", "Tarjeta"];
    a[i]
}

/// Letras con que acaban los DNI.
pub open spec fn letras_dni() -> Seq<Seq<char>> {
    seq!["A"@, "B"@, "C"@, "D"@, "E"@, "F"@, "G"@, "H"@, "I"@, "J"@, "K"@, "L"@, "M"@, "N"@, "O"@, "P"@, "Q"@, "R"@, "S"@, "T"@, "U"@, "V"@, "W"@, "X"@, "Y"@, "Z"@]
}

fn letra_dni(i: usize) -> (r: &'static str)
    requires
        i < 26,
    ensures
        r@ == letras_dni()[i as int],
{
    let a: [&'static str; 26] = ["A", "B", "C", "D", "E", "F", "G", "H", "I", "J", "K", "L", "M", "N", "O", "P", "Q", "R", "S", "T", "U", "V", "W", "X", "Y", "Z"];
    a[i]
}
/// Minúscula de una letra mayúscula del alfabeto español (las demás letras
/// quedan igual).
pub open spec fn minuscula(c: char) -> char {
    match c {
        'A' => 'a',
        'B' => 'b',
        'C' => 'c',
        'D' => 'd',
        'E' => 'e',
        'F' => 'f',
        'G' => 'g',
        'H' => 'h',
        'I' => 'i',
        'J' => 'j',
        'K' => 'k',
        'L' => 'l',
        'M' => 'm',
        'N' => 'n',
        'O' => 'o',
        'P' => 'p',
        'Q' => 'q',
        'R' => 'r',
        'S' => 's',
        'T' => 't',
        'U' => 'u',
        'V' => 'v',
        'W' => 'w',
        'X' => 'x',
        'Y' => 'y',
        'Z' => 'z',
        'Á' => 'á',
        'É' => 'é',
        'Í' => 'í',
        'Ó' => 'ó',
        'Ú' => 'ú',
        'Ñ' => 'ñ',
        'Ü' => 'ü',
        _ => c,
    }
}

/// El texto con sus mayúsculas pasadas a minúsculas.
pub open spec fn minusculas(s: Seq<char>) -> Seq<char> {
    s.map_values(|c: char| minuscula(c))
}

/// La minúscula de `c`, como texto, si `c` es una mayúscula.
fn letra_minuscula(c: char) -> (r: Option<&'static str>)
    ensures
        match r {
            Some(m) => m@ == seq![minuscula(c)],
            None => minuscula(c) == c,
        },
{
    match c {
        'A' => {
            proof { reveal_strlit("a"); }
            Some("a")
        },
        'B' => {
            proof { reveal_strlit("b"); }
            Some("b")
        },
        'C' => {
            proof { reveal_strlit("c"); }
            Some("c")
        },
        'D' => {
            proof { reveal_strlit("d"); }
            Some("d")
        },
        'E' => {
            proof { reveal_strlit("e"); }
            Some("e")
        },
        'F' => {
            proof { reveal_strlit("f"); }
            Some("f")
        },
        'G' => {
            proof { reveal_strlit("g"); }
            Some("g")
        },
        'H' => {
            proof { reveal_strlit("h"); }
            Some("h")
        },
        'I' => {
            proof { reveal_strlit("i"); }
            Some("i")
        },
        'J' => {
            proof { reveal_strlit("j"); }
            Some("j")
        },
        'K' => {
            proof { reveal_strlit("k"); }
            Some("k")
        },
        'L' => {
            proof { reveal_strlit("l"); }
            Some("l")
        },
        'M' => {
            proof { reveal_strlit("m"); }
            Some("m")
        },
        'N' => {
            proof { reveal_strlit("n"); }
            Some("n")
        },
        'O' => {
            proof { reveal_strlit("o"); }
            Some("o")
        },
        'P' => {
            proof { reveal_strlit("p"); }
            Some("p")
        },
        'Q' => {
            proof { reveal_strlit("q"); }
            Some("q")
        },
        'R' => {
            proof { reveal_strlit("r"); }
            Some("r")
        },
        'S' => {
            proof { reveal_strlit("s"); }
            Some("s")
        },
        'T' => {
            proof { reveal_strlit("t"); }
            Some("t")
        },
        'U' => {
            proof { reveal_strlit("u"); }
            Some("u")
        },
        'V' => {
            proof { reveal_strlit("v"); }
            Some("v")
        },
        'W' => {
            proof { reveal_strlit("w"); }
            Some("w")
        },
        'X' => {
            proof { reveal_strlit("x"); }
            Some("x")
        },
        'Y' => {
            proof { reveal_strlit("y"); }
            Some("y")
        },
        'Z' => {
            proof { reveal_strlit("z"); }
            Some("z")
        },
        'Á' => {
            proof { reveal_strlit("á"); }
            Some("á")
        },
        'É' => {
            proof { reveal_strlit("é"); }
            Some("é")
        },
        'Í' => {
            proof { reveal_strlit("í"); }
            Some("í")
        },
        'Ó' => {
            proof { reveal_strlit("ó"); }
            Some("ó")
        },
        'Ú' => {
            proof { reveal_strlit("ú"); }
            Some("ú")
        },
        'Ñ' => {
            proof { reveal_strlit("ñ"); }
            Some("ñ")
        },
        'Ü' => {
            proof { reveal_strlit("ü"); }
            Some("ü")
        },
        _ => None,
    }
}

/// Importes de las cuotas, en céntimos.
pub open spec fn importes_prueba() -> Seq<i64> {
    seq![3000i64, 3500i64, 4000i64, 4500i64, 5000i64]
}

fn importe_prueba(i: usize) -> (r: i64)
    requires
        i < 5,
    ensures
        r == importes_prueba()[i as int],
{
    let a: [i64; 5] = [3000, 3500, 4000, 4500, 5000];
    a[i]
}

// ---------------------------------------------------------------------------
// Textos
// ---------------------------------------------------------------------------

/// El primer carácter del texto (vacío si no tiene).
pub open spec fn primera(s: Seq<char>) -> Seq<char> {
    if s.len() > 0 { s.subrange(0, 1) } else { Seq::empty() }
}

/// Pasa a minúsculas las mayúsculas del texto.
fn minusculas_de(s: &str) -> (r: String)
    ensures
        r@ == minusculas(s@),
{
    let n = s.unicode_len();
    let mut r = String::new();
    let mut i: usize = 0;
    while i < n
        invariant
            n == s@.len(),
            i <= n,
            r@ == minusculas(s@.subrange(0, i as int)),
        decreases n - i,
    {
        let c = s.get_char(i);
        match letra_minuscula(c) {
            Some(m) => r.append(m),
            None => r.append(s.substring_char(i, i + 1)),
        }
        proof {
            assert(s@.subrange(0, i + 1) =~= s@.subrange(0, i as int).push(c));
            assert(minusculas(s@.subrange(0, i + 1)) =~= minusculas(s@.subrange(0, i as int)).push(minuscula(c)));
            assert(s@.subrange(i as int, i + 1) =~= seq![c]);
        }
        i = i + 1;
    }
    proof {
        assert(s@.subrange(0, n as int) =~= s@);
    }
    r
}

/// "AAAA-MM-DD" con ceros a la izquierda.
pub open spec fn fecha_texto(anio: nat, mes: nat, dia: nat) -> Seq<char> {
    decimal_relleno(anio, 4) + "-"@ + decimal_relleno(mes, 2) + "-"@ + decimal_relleno(dia, 2)
}

fn texto_fecha(anio: u64, mes: u64, dia: u64) -> (r: String)
    ensures
        r@ == fecha_texto(anio as nat, mes as nat, dia as nat),
{
    let mut r = String::new();
    escribir_decimal_relleno(anio, 4, &mut r);
    r.append("-");
    escribir_decimal_relleno(mes, 2, &mut r);
    r.append("-");
    escribir_decimal_relleno(dia, 2, &mut r);
    r
}

// ---------------------------------------------------------------------------
// Reparto de hermanos en familias
// ---------------------------------------------------------------------------

/// Número de familias de prueba.
pub open spec fn num_familias_prueba() -> int { 15 }

/// Número de hermanos de prueba.
pub open spec fn num_hermanos_prueba() -> int { 45 }

/// Número de cuotas de prueba: tres por hermano.
pub open spec fn num_cuotas_prueba() -> int { 135 }

/// La familia `k` (desde 0) tiene 2, 3 o 4 hermanos, según `k % 3`.
pub open spec fn miembros(k: int) -> int {
    2 + k % 3
}

/// Posición (desde 0) del primer hermano de la familia `k`: los hermanos van
/// por familias, en orden.
pub open spec fn primer_miembro(k: int) -> int {
    9 * (k / 3) + if k % 3 == 0 { 0int } else if k % 3 == 1 { 2int } else { 5int }
}

/// La familia del hermano en la posición `t`.
pub open spec fn familia_de(t: int) -> int {
    3 * (t / 9) + if t % 9 < 2 { 0int } else if t % 9 < 5 { 1int } else { 2int }
}

/// Los hermanos van por familias: el de la posición `t` está entre el primero
/// de su familia y el último, y cada familia empieza donde acaba la anterior.
pub proof fn ley_reparto_familias()
    ensures
        primer_miembro(0) == 0,
        primer_miembro(num_familias_prueba()) == num_hermanos_prueba(),
        forall|k: int| 0 <= k ==> #[trigger] primer_miembro(k + 1) == primer_miembro(k) + miembros(k),
        forall|t: int| 0 <= t ==>
            primer_miembro(#[trigger] familia_de(t)) <= t < primer_miembro(familia_de(t)) + miembros(familia_de(t)),
{
    assert forall|k: int| 0 <= k implies #[trigger] primer_miembro(k + 1) == primer_miembro(k) + miembros(k) by {
        lema_division_3(k);
    }
    assert forall|t: int| 0 <= t implies
        primer_miembro(#[trigger] familia_de(t)) <= t < primer_miembro(familia_de(t)) + miembros(familia_de(t)) by {
        lema_familia_de(t);
    }
}

proof fn lema_division_3(k: int)
    requires
        0 <= k,
    ensures
        (k + 1) / 3 == if k % 3 == 2 { k / 3 + 1 } else { k / 3 },
        (k + 1) % 3 == if k % 3 == 2 { 0 } else { k % 3 + 1 },
{
}

proof fn lema_familia_de(t: int)
    requires
        0 <= t,
    ensures
        familia_de(t) / 3 == t / 9,
        familia_de(t) % 3 == if t % 9 < 2 { 0int } else if t % 9 < 5 { 1int } else { 2int },
        primer_miembro(familia_de(t)) == 9 * (t / 9) + if t % 9 < 2 { 0int } else if t % 9 < 5 { 2int } else { 5int },
        primer_miembro(familia_de(t)) <= t < primer_miembro(familia_de(t)) + miembros(familia_de(t)),
{
    let q = t / 9;
    let s = if t % 9 < 2 { 0int } else if t % 9 < 5 { 1int } else { 2int };
    assert((3 * q + s) / 3 == q && (3 * q + s) % 3 == s);
}

// ---------------------------------------------------------------------------
// Filas de prueba
// ---------------------------------------------------------------------------

/// `f` es la familia de prueba `k` (desde 0), con ids de familia desde `pf` y
/// de hermano desde `ph`: su hermano de referencia es el primero de ella.
pub open spec fn es_familia_de_prueba(f: Familia, k: int, pf: int, ph: int) -> bool {
    &&& f.id == Some((pf + k) as i32)
    &&& f.nombre_familia@ == familias_prueba()[k]
    &&& f.hermano_direccion_id == Some((ph + primer_miembro(k)) as i32)
    &&& f.created_at is None
    &&& f.updated_at is None
}

/// El texto opcional existe y es `s`.
pub open spec fn es_texto(o: Option<String>, s: Seq<char>) -> bool {
    o is Some && o.unwrap()@ == s
}

/// `h` es el hermano de prueba en la posición `t` (desde 0; su contador es
/// `t + 1`), con ids de familia desde `pf` y de hermano desde `ph`.
pub open spec fn es_hermano_de_prueba(h: Hermano, t: int, pf: int, ph: int) -> bool {
    let c = t + 1;
    let k = familia_de(t);
    let i = t - primer_miembro(k);
    let nombre = nombres_prueba()[t % 36];
    let apellido = apellidos_prueba()[k % 20];
    let localidad = localidades_prueba()[k % 10];
    let provincia = provincias_prueba()[k % 5];
    &&& h.id == Some((ph + t) as i32)
    &&& h.numero_hermano@ == decimal_relleno(c as nat, 4)
    &&& h.nombre@ == nombre
    &&& h.primer_apellido@ == apellido
    &&& es_texto(h.segundo_apellido, segundos_apellidos_prueba()[(k + i) % 20])
    &&& es_texto(h.dni, decimal_relleno((10000000 + (c * 123456) % 90000000) as nat, 8) + letras_dni()[c % 26])
    &&& es_texto(h.fecha_nacimiento, fecha_texto((1940 + c % 70) as nat, (1 + c % 12) as nat, (1 + c % 28) as nat))
    &&& es_texto(h.localidad_nacimiento, localidad)
    &&& es_texto(h.provincia_nacimiento, provincia)
    &&& h.fecha_alta@ == fecha_texto((2015 + c % 10) as nat, (1 + c % 12) as nat, (1 + c % 28) as nat)
    &&& h.familia_id == Some((pf + k) as i32)
    &&& es_texto(h.telefono, "6"@ + decimal_relleno((20000000 + (c * 12345) % 80000000) as nat, 8))
    &&& es_texto(h.email, minusculas(primera(nombre)) + minusculas(apellido) + "@email.com"@)
    &&& es_texto(h.direccion, calles_prueba()[t % 12] + ", "@ + decimal((1 + c % 100) as nat))
    &&& es_texto(h.localidad, localidad)
    &&& es_texto(h.provincia, provincia)
    &&& es_texto(h.codigo_postal, "13"@ + decimal_relleno((600 + k % 100) as nat, 3))
    &&& h.parroquia_bautismo is None
    &&& h.localidad_bautismo is None
    &&& h.provincia_bautismo is None
    &&& !h.autorizacion_menores
    &&& h.nombre_representante_legal is None
    &&& h.dni_representante_legal is None
    &&& h.hermano_aval_1 is None
    &&& h.hermano_aval_2 is None
    &&& h.activo
    &&& h.fecha_baja is None
    &&& h.observaciones is None
    &&& h.created_at is None
    &&& h.updated_at is None
}

/// Está pagada la cuota de prueba del hermano `hid` en el año `anio`: las de
/// años anteriores al último, si `hid % 10 < 7`; las del último, si `hid % 10 < 3`.
pub open spec fn pagada_de_prueba(hid: int, anio: int) -> bool {
    if anio < 2026 { hid % 10 < 7 } else { hid % 10 < 3 }
}

/// `q` es la cuota de prueba en la posición `u` (desde 0): la del año
/// `2024 + u % 3` del hermano en la posición `u / 3`, con ids de hermano desde
/// `ph` y de cuota desde `pc`.
pub open spec fn es_cuota_de_prueba(q: Cuota, u: int, ph: int, pc: int) -> bool {
    let hid = ph + u / 3;
    let anio = 2024 + u % 3;
    let pagada = pagada_de_prueba(hid, anio);
    &&& q.id == Some((pc + u) as i32)
    &&& q.hermano_id == hid
    &&& q.anio == anio
    &&& q.importe_centimos == importes_prueba()[hid % 5]
    &&& q.pagado == pagada
    &&& (if pagada {
        es_texto(q.fecha_pago, fecha_texto(anio as nat, (1 + hid % 12) as nat, (1 + hid % 28) as nat))
            && es_texto(q.metodo_pago, metodos_pago_prueba()[hid % 3])
    } else {
        q.fecha_pago is None && q.metodo_pago is None
    })
    &&& q.recibo == (pagada && hid % 5 != 0)
    &&& q.observaciones is None
    &&& q.created_at is None
    &&& q.updated_at is None
}

fn familia_de_prueba(k: usize, pf: i32, ph: i32) -> (r: Familia)
    requires
        k < 15,
        1 <= pf <= i32::MAX - 15,
        1 <= ph <= i32::MAX - 45,
    ensures
        es_familia_de_prueba(r, k as int, pf as int, ph as int),
{
    let primero: i32 = if k % 3 == 0 { 0 } else if k % 3 == 1 { 2 } else { 5 };
    Familia {
        id: Some(pf + k as i32),
        nombre_familia: String::from_str(familia_prueba(k)),
        hermano_direccion_id: Some(ph + 9 * (k / 3) as i32 + primero),
        created_at: None,
        updated_at: None,
    }
}

fn hermano_de_prueba(t: usize, pf: i32, ph: i32) -> (r: Hermano)
    requires
        t < 45,
        1 <= pf <= i32::MAX - 15,
        1 <= ph <= i32::MAX - 45,
    ensures
        es_hermano_de_prueba(r, t as int, pf as int, ph as int),
{
    proof {
        lema_familia_de(t as int);
    }
    let c: u64 = t as u64 + 1;
    let k: usize = 3 * (t / 9) + if t % 9 < 2 { 0 } else if t % 9 < 5 { 1 } else { 2 };
    let primero: usize = 9 * (t / 9) + if t % 9 < 2 { 0 } else if t % 9 < 5 { 2 } else { 5 };
    let i: usize = t - primero;
    let nombre = nombre_prueba(t % 36);
    let apellido = apellido_prueba(k % 20);
    let localidad = localidad_prueba(k % 10);
    let provincia = provincia_prueba(k % 5);

    let mut numero = String::new();
    escribir_decimal_relleno(c, 4, &mut numero);
    let mut dni = String::new();
    escribir_decimal_relleno(10000000 + (c * 123456) % 90000000, 8, &mut dni);
    dni.append(letra_dni((c % 26) as usize));
    let mut telefono = String::from_str("6");
    escribir_decimal_relleno(20000000 + (c * 12345) % 80000000, 8, &mut telefono);
    let inicial = if nombre.unicode_len() > 0 { nombre.substring_char(0, 1) } else { "" };
    let mut email = minusculas_de(inicial);
    email.append(minusculas_de(apellido).as_str());
    email.append("@email.com");
    let mut direccion = String::from_str(calle_prueba(t % 12));
    direccion.append(", ");
    escribir_decimal(1 + c % 100, &mut direccion);
    let mut codigo_postal = String::from_str("13");
    escribir_decimal_relleno(600 + (k as u64) % 100, 3, &mut codigo_postal);
    proof {
        reveal_strlit("");
        assert(inicial@ =~= primera(nombre@));
    }
    Hermano {
        id: Some(ph + t as i32),
        numero_hermano: numero,
        nombre: String::from_str(nombre),
        primer_apellido: String::from_str(apellido),
        segundo_apellido: Some(String::from_str(segundo_apellido_prueba((k + i) % 20))),
        dni: Some(dni),
        fecha_nacimiento: Some(texto_fecha(1940 + c % 70, 1 + c % 12, 1 + c % 28)),
        localidad_nacimiento: Some(String::from_str(localidad)),
        provincia_nacimiento: Some(String::from_str(provincia)),
        fecha_alta: texto_fecha(2015 + c % 10, 1 + c % 12, 1 + c % 28),
        familia_id: Some(pf + k as i32),
        telefono: Some(telefono),
        email: Some(email),
        direccion: Some(direccion),
        localidad: Some(String::from_str(localidad)),
        provincia: Some(String::from_str(provincia)),
        codigo_postal: Some(codigo_postal),
        parroquia_bautismo: None,
        localidad_bautismo: None,
        provincia_bautismo: None,
        autorizacion_menores: false,
        nombre_representante_legal: None,
        dni_representante_legal: None,
        hermano_aval_1: None,
        hermano_aval_2: None,
        activo: true,
        fecha_baja: None,
        observaciones: None,
        created_at: None,
        updated_at: None,
    }
}

fn cuota_de_prueba(u: usize, ph: i32, pc: i32) -> (r: Cuota)
    requires
        u < 135,
        1 <= ph <= i32::MAX - 45,
        1 <= pc <= i32::MAX - 135,
    ensures
        es_cuota_de_prueba(r, u as int, ph as int, pc as int),
{
    let hid: i32 = ph + (u / 3) as i32;
    let anio: i32 = 2024 + (u % 3) as i32;
    let h = hid as u64;
    let pagada = if anio < 2026 { h % 10 < 7 } else { h % 10 < 3 };
    let (fecha_pago, metodo_pago) = if pagada {
        (
            Some(texto_fecha(anio as u64, 1 + h % 12, 1 + h % 28)),
            Some(String::from_str(metodo_pago_prueba((h % 3) as usize))),
        )
    } else {
        (None, None)
    };
    Cuota {
        id: Some(pc + u as i32),
        hermano_id: hid,
        anio,
        importe_centimos: importe_prueba((h % 5) as usize),
        pagado: pagada,
        fecha_pago,
        metodo_pago,
        observaciones: None,
        recibo: pagada && h % 5 != 0,
        created_at: None,
        updated_at: None,
    }
}

/// Los datos de prueba: 15 familias, 45 hermanos repartidos por familias (la
/// familia `k` tiene `2 + k % 3`) y tres cuotas por hermano (años 2024 a
/// 2026). Los ids de cada tabla empiezan en el dado, como los asignaría la
/// base de datos tras el último que asignó.
pub fn datos_de_prueba(primer_familia: i32, primer_hermano: i32, primera_cuota: i32)
    -> (r: (Vec<Familia>, Vec<Hermano>, Vec<Cuota>))
    requires
        1 <= primer_familia <= i32::MAX - 15,
        1 <= primer_hermano <= i32::MAX - 45,
        1 <= primera_cuota <= i32::MAX - 135,
    ensures
        r.0@.len() == num_familias_prueba(),
        forall|k: int| 0 <= k < num_familias_prueba() ==>
            es_familia_de_prueba(#[trigger] r.0@[k], k, primer_familia as int, primer_hermano as int),
        r.1@.len() == num_hermanos_prueba(),
        forall|t: int| 0 <= t < num_hermanos_prueba() ==>
            es_hermano_de_prueba(#[trigger] r.1@[t], t, primer_familia as int, primer_hermano as int),
        r.2@.len() == num_cuotas_prueba(),
        forall|u: int| 0 <= u < num_cuotas_prueba() ==>
            es_cuota_de_prueba(#[trigger] r.2@[u], u, primer_hermano as int, primera_cuota as int),
{
    let mut familias: Vec<Familia> = Vec::new();
    let mut k: usize = 0;
    while k < 15
        invariant
            k <= 15,
            1 <= primer_familia <= i32::MAX - 15,
            1 <= primer_hermano <= i32::MAX - 45,
            familias@.len() == k,
            forall|j: int| 0 <= j < k ==>
                es_familia_de_prueba(#[trigger] familias@[j], j, primer_familia as int, primer_hermano as int),
        decreases 15 - k,
    {
        familias.push(familia_de_prueba(k, primer_familia, primer_hermano));
        k = k + 1;
    }
    let mut hermanos: Vec<Hermano> = Vec::new();
    let mut t: usize = 0;
    while t < 45
        invariant
            t <= 45,
            1 <= primer_familia <= i32::MAX - 15,
            1 <= primer_hermano <= i32::MAX - 45,
            hermanos@.len() == t,
            forall|j: int| 0 <= j < t ==>
                es_hermano_de_prueba(#[trigger] hermanos@[j], j, primer_familia as int, primer_hermano as int),
        decreases 45 - t,
    {
        hermanos.push(hermano_de_prueba(t, primer_familia, primer_hermano));
        t = t + 1;
    }
    let mut cuotas: Vec<Cuota> = Vec::new();
    let mut u: usize = 0;
    while u < 135
        invariant
            u <= 135,
            1 <= primer_hermano <= i32::MAX - 45,
            1 <= primera_cuota <= i32::MAX - 135,
            cuotas@.len() == u,
            forall|j: int| 0 <= j < u ==>
                es_cuota_de_prueba(#[trigger] cuotas@[j], j, primer_hermano as int, primera_cuota as int),
        decreases 135 - u,
    {
        cuotas.push(cuota_de_prueba(u, primer_hermano, primera_cuota));
        u = u + 1;
    }
    (familias, hermanos, cuotas)
}

/// La configuración de recibos de los datos de prueba.
pub open spec fn es_configuracion_de_prueba(c: ConfiguracionRecibo) -> bool {
    &&& c.logo_path is None
    &&& c.nombre_hermandad@ == "HERMANDAD DE SAN ISIDRO LABRADOR"@
    &&& c.ubicacion@ == "ALCÁZAR DE SAN JUAN"@
    &&& c.direccion@ == "Altozano de la Inmaculada – 13600 Alcázar de San Juan (Ciudad Real)"@
}

/// Configuración de recibos de los datos de prueba.
pub fn configuracion_de_prueba() -> (r: ConfiguracionRecibo)
    ensures
        es_configuracion_de_prueba(r),
{
    ConfiguracionRecibo {
        logo_path: None,
        nombre_hermandad: String::from_str("HERMANDAD DE SAN ISIDRO LABRADOR"),
        ubicacion: String::from_str("ALCÁZAR DE SAN JUAN"),
        direccion: String::from_str("Altozano de la Inmaculada – 13600 Alcázar de San Juan (Ciudad Real)"),
    }
}

} // verus!
