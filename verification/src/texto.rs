//! Utilidades de texto: comparación sin distinguir mayúsculas (como `LIKE` de
//! SQLite, que sólo pliega las letras ASCII).

use vstd::prelude::*;

verus! {

/// Código del carácter con las mayúsculas ASCII pasadas a minúsculas.
pub open spec fn codigo_plegado(c: char) -> int {
    if 65 <= (c as int) && (c as int) <= 90 {
        (c as int) + 32
    } else {
        c as int
    }
}

/// `patron` aparece en `texto` a partir de `pos`, sin distinguir mayúsculas ASCII.
pub open spec fn aparece_en(texto: Seq<char>, patron: Seq<char>, pos: int) -> bool {
    &&& 0 <= pos
    &&& pos + patron.len() <= texto.len()
    &&& forall|j: int| 0 <= j < patron.len() ==> codigo_plegado(#[trigger] texto[pos + j]) == codigo_plegado(patron[j])
}

/// `texto` contiene `patron` sin distinguir mayúsculas ASCII.
pub open spec fn contiene_plegado(texto: Seq<char>, patron: Seq<char>) -> bool {
    exists|pos: int| aparece_en(texto, patron, pos)
}

fn plegar(c: char) -> (r: u32)
    ensures
        r as int == codigo_plegado(c),
{
    let n = c as u32;
    if 65 <= n && n <= 90 {
        n + 32
    } else {
        n
    }
}

/// Decide si `texto` contiene `patron` sin distinguir mayúsculas ASCII.
pub fn contiene_sin_mayusculas(texto: &str, patron: &str) -> (r: bool)
    ensures
        r == contiene_plegado(texto@, patron@),
{
    let n = texto.unicode_len();
    let m = patron.unicode_len();
    if m > n {
        assert forall|pos: int| !aparece_en(texto@, patron@, pos) by {}
        return false;
    }
    let mut pos: usize = 0;
    while pos <= n - m
        invariant
            n == texto@.len(),
            m == patron@.len(),
            m <= n,
            pos <= n - m + 1,
            forall|p: int| 0 <= p < pos ==> !aparece_en(texto@, patron@, p),
        decreases n - m + 1 - pos,
    {
        let mut j: usize = 0;
        let mut iguales = true;
        while j < m
            invariant
                n == texto@.len(),
                m == patron@.len(),
                pos + m <= n,
                j <= m,
                iguales == (forall|k: int| 0 <= k < j ==> codigo_plegado(#[trigger] texto@[pos + k]) == codigo_plegado(patron@[k])),
            decreases m - j,
        {
            let a = plegar(texto.get_char(pos + j));
            let b = plegar(patron.get_char(j));
            if a != b {
                iguales = false;
            }
            j = j + 1;
        }
        if iguales {
            assert(aparece_en(texto@, patron@, pos as int));
            return true;
        }
        pos = pos + 1;
    }
    assert forall|p: int| !aparece_en(texto@, patron@, p) by {
        if 0 <= p && p + m <= n {
            assert(p < pos);
        }
    }
    false
}


/// El carácter de la cifra `d` (0 a 9).
pub open spec fn caracter_cifra(d: int) -> char {
    if d == 0 { '0' } else if d == 1 { '1' } else if d == 2 { '2' } else if d == 3 { '3' } else if d == 4 { '4' }
    else if d == 5 { '5' } else if d == 6 { '6' } else if d == 7 { '7' } else if d == 8 { '8' } else { '9' }
}

/// Escritura decimal de un natural, sin ceros a la izquierda.
pub open spec fn decimal(n: nat) -> Seq<char>
    decreases n,
{
    if n < 10 {
        seq![caracter_cifra(n as int)]
    } else {
        decimal(n / 10) + seq![caracter_cifra((n % 10) as int)]
    }
}

/// Escritura decimal de un entero, con `-` delante si es negativo.
pub open spec fn decimal_con_signo(n: int) -> Seq<char> {
    if n < 0 {
        seq!['-'] + decimal((-n) as nat)
    } else {
        decimal(n as nat)
    }
}

/// Escritura decimal con ceros a la izquierda hasta `ancho` cifras.
pub open spec fn decimal_relleno(n: nat, ancho: nat) -> Seq<char>
    decreases ancho,
{
    if decimal(n).len() >= ancho || ancho == 0 {
        decimal(n)
    } else {
        seq!['0'] + decimal_relleno(n, (ancho - 1) as nat)
    }
}

fn cifra(d: u64) -> (r: &'static str)
    requires
        d < 10,
    ensures
        r@ == seq![caracter_cifra(d as int)],
{
    if d == 0 {
        proof { reveal_strlit("0"); }
        "0"
    } else if d == 1 {
        proof { reveal_strlit("1"); }
        "1"
    } else if d == 2 {
        proof { reveal_strlit("2"); }
        "2"
    } else if d == 3 {
        proof { reveal_strlit("3"); }
        "3"
    } else if d == 4 {
        proof { reveal_strlit("4"); }
        "4"
    } else if d == 5 {
        proof { reveal_strlit("5"); }
        "5"
    } else if d == 6 {
        proof { reveal_strlit("6"); }
        "6"
    } else if d == 7 {
        proof { reveal_strlit("7"); }
        "7"
    } else if d == 8 {
        proof { reveal_strlit("8"); }
        "8"
    } else {
        proof { reveal_strlit("9"); }
        "9"
    }
}

/// Añade a `out` la escritura decimal de `n`.
pub fn escribir_decimal(n: u64, out: &mut String)
    ensures
        final(out)@ == old(out)@ + decimal(n as nat),
    decreases n,
{
    if n >= 10 {
        escribir_decimal(n / 10, out);
    }
    out.append(cifra(n % 10));
    proof {
        if n >= 10 {
            assert(decimal(n as nat) == decimal((n / 10) as nat) + seq![caracter_cifra((n % 10) as int)]);
        }
    }
}

/// Añade a `out` la escritura decimal de `n`, con signo si es negativo.
pub fn escribir_entero(n: i64, out: &mut String)
    ensures
        final(out)@ == old(out)@ + decimal_con_signo(n as int),
{
    if n < 0 {
        proof { reveal_strlit("-"); }
        out.append("-");
        let a: u64 = (-(n as i128)) as u64;
        escribir_decimal(a, out);
    } else {
        escribir_decimal(n as u64, out);
    }
}

/// Añade a `out` la escritura decimal de `n` rellenada con ceros hasta `ancho` cifras.
pub fn escribir_decimal_relleno(n: u64, ancho: u64, out: &mut String)
    ensures
        final(out)@ == old(out)@ + decimal_relleno(n as nat, ancho as nat),
    decreases ancho,
{
    let mut tmp = String::new();
    escribir_decimal(n, &mut tmp);
    let largo = tmp.as_str().unicode_len();
    if largo as u64 >= ancho || ancho == 0 {
        out.append(tmp.as_str());
    } else {
        proof { reveal_strlit("0"); }
        out.append("0");
        escribir_decimal_relleno(n, ancho - 1, out);
    }
}

/// Carácter blanco según Unicode (lo que `trim` de Rust quita).
pub open spec fn es_blanco(c: char) -> bool {
    let n = c as int;
    ||| 9 <= n <= 13
    ||| n == 32
    ||| n == 0x85
    ||| n == 0xA0
    ||| n == 0x1680
    ||| 0x2000 <= n <= 0x200A
    ||| n == 0x2028
    ||| n == 0x2029
    ||| n == 0x202F
    ||| n == 0x205F
    ||| n == 0x3000
}

fn blanco(c: char) -> (r: bool)
    ensures
        r == es_blanco(c),
{
    let n = c as u32;
    (9 <= n && n <= 13) || n == 32 || n == 0x85 || n == 0xA0 || n == 0x1680 || (0x2000 <= n && n <= 0x200A)
        || n == 0x2028 || n == 0x2029 || n == 0x202F || n == 0x205F || n == 0x3000
}

/// Primera posición desde `i` que no es un blanco (o la longitud).
pub open spec fn primer_no_blanco(s: Seq<char>, i: int) -> int
    decreases s.len() - i,
{
    if i >= s.len() || i < 0 {
        s.len() as int
    } else if es_blanco(s[i]) {
        primer_no_blanco(s, i + 1)
    } else {
        i
    }
}

/// Posición tras el último no blanco antes de `j` (o 0).
pub open spec fn fin_no_blanco(s: Seq<char>, j: int) -> int
    decreases j,
{
    if j <= 0 || j > s.len() {
        0
    } else if es_blanco(s[j - 1]) {
        fin_no_blanco(s, j - 1)
    } else {
        j
    }
}

/// El texto sin blancos al principio ni al final.
pub open spec fn recortado(s: Seq<char>) -> Seq<char> {
    let a = primer_no_blanco(s, 0);
    let b = fin_no_blanco(s, s.len() as int);
    if a < b {
        s.subrange(a, b)
    } else {
        Seq::empty()
    }
}

/// Quita los blancos del principio y del final.
pub fn recortar(s: &str) -> (r: String)
    ensures
        r@ == recortado(s@),
{
    let n = s.unicode_len();
    let mut a: usize = 0;
    while a < n && blanco(s.get_char(a))
        invariant
            n == s@.len(),
            a <= n,
            primer_no_blanco(s@, a as int) == primer_no_blanco(s@, 0),
        decreases n - a,
    {
        a = a + 1;
    }
    let mut b: usize = n;
    while b > 0 && blanco(s.get_char(b - 1))
        invariant
            n == s@.len(),
            b <= n,
            fin_no_blanco(s@, b as int) == fin_no_blanco(s@, n as int),
        decreases b,
    {
        b = b - 1;
    }
    proof {
        assert(primer_no_blanco(s@, 0) == a);
        assert(fin_no_blanco(s@, n as int) == b);
    }
    if a < b {
        String::from_str(s.substring_char(a, b))
    } else {
        String::new()
    }
}

} // verus!
