//! Utilidades de texto: relleno, limpieza de caracteres y conversion de
//! numeros a texto decimal.

use vstd::prelude::*;

verus! {

/// Apoya en String::push de std: agrega exactamente un caracter al final.
#[verifier::external_body]
pub fn empujar_caracter(s: &mut String, c: char)
    ensures
        final(s)@ == old(s)@.push(c),
{
    s.push(c);
}

/// Compara dos textos caracter a caracter.
pub fn textos_iguales(a: &str, b: &str) -> (r: bool)
    ensures
        r == (a@ == b@),
{
    let la = a.unicode_len();
    let lb = b.unicode_len();
    if la != lb {
        return false;
    }
    let mut i: usize = 0;
    while i < la
        invariant
            i <= la,
            la == a@.len(),
            la == b@.len(),
            forall|j: int| 0 <= j < i ==> a@[j] == b@[j],
        decreases la - i,
    {
        if a.get_char(i) != b.get_char(i) {
            return false;
        }
        i = i + 1;
    }
    proof {
        assert(a@ =~= b@);
    }
    true
}

/// Completa con un caracter a la izquierda hasta alcanzar la longitud deseada.
pub fn pad_left(input: &str, target_len: usize, pad_char: char) -> (r: String)
    ensures
        input@.len() >= target_len ==> r@ == input@,
        input@.len() < target_len ==> r@ == Seq::new(
            (target_len - input@.len()) as nat,
            |i: int| pad_char,
        ) + input@,
{
    let len = input.unicode_len();
    if len >= target_len {
        return input.to_owned();
    }
    let pad_len = target_len - len;
    let mut result = String::new();
    let mut k: usize = 0;
    while k < pad_len
        invariant
            k <= pad_len,
            result@ == Seq::new(k as nat, |i: int| pad_char),
        decreases pad_len - k,
    {
        empujar_caracter(&mut result, pad_char);
        assert(result@ =~= Seq::new((k + 1) as nat, |i: int| pad_char));
        k = k + 1;
    }
    result.append(input);
    result
}

/// Completa con un caracter a la derecha hasta alcanzar la longitud deseada.
pub fn pad_right(input: &str, target_len: usize, pad_char: char) -> (r: String)
    ensures
        input@.len() >= target_len ==> r@ == input@,
        input@.len() < target_len ==> r@ == input@ + Seq::new(
            (target_len - input@.len()) as nat,
            |i: int| pad_char,
        ),
{
    let len = input.unicode_len();
    if len >= target_len {
        return input.to_owned();
    }
    let pad_len = target_len - len;
    let mut result = input.to_owned();
    let mut k: usize = 0;
    while k < pad_len
        invariant
            k <= pad_len,
            result@ == input@ + Seq::new(k as nat, |i: int| pad_char),
        decreases pad_len - k,
    {
        empujar_caracter(&mut result, pad_char);
        assert(result@ =~= input@ + Seq::new((k + 1) as nat, |i: int| pad_char));
        k = k + 1;
    }
    result
}

/// Espacio en blanco Unicode (la propiedad White_Space): los controles
/// \t..\r, el espacio, NEL, el espacio duro y los espacios tipograficos.
pub open spec fn es_espacio_en_blanco(c: char) -> bool {
    ||| ('\u{9}' <= c && c <= '\u{d}')
    ||| c == ' '
    ||| c == '\u{85}'
    ||| c == '\u{a0}'
    ||| c == '\u{1680}'
    ||| ('\u{2000}' <= c && c <= '\u{200a}')
    ||| c == '\u{2028}'
    ||| c == '\u{2029}'
    ||| c == '\u{202f}'
    ||| c == '\u{205f}'
    ||| c == '\u{3000}'
}

/// Comprueba si un caracter es espacio en blanco Unicode.
pub fn caracter_espacio_en_blanco(c: char) -> (r: bool)
    ensures
        r == es_espacio_en_blanco(c),
{
    ('\u{9}' <= c && c <= '\u{d}') || c == ' ' || c == '\u{85}' || c == '\u{a0}' || c == '\u{1680}'
        || ('\u{2000}' <= c && c <= '\u{200a}') || c == '\u{2028}' || c == '\u{2029}' || c
        == '\u{202f}' || c == '\u{205f}' || c == '\u{3000}'
}

/// Caracteres que sobreviven a la limpieza: alfanumericos, espacios en
/// blanco, guion y guion bajo.
pub open spec fn es_caracter_permitido(c: char) -> bool {
    ||| ('a' <= c && c <= 'z')
    ||| ('A' <= c && c <= 'Z')
    ||| ('0' <= c && c <= '9')
    ||| es_espacio_en_blanco(c)
    ||| c == '-'
    ||| c == '_'
}

fn caracter_permitido(c: char) -> (r: bool)
    ensures
        r == es_caracter_permitido(c),
{
    ('a' <= c && c <= 'z') || ('A' <= c && c <= 'Z') || ('0' <= c && c <= '9')
        || caracter_espacio_en_blanco(c) || c == '-' || c == '_'
}

/// Elimina de una cadena todo caracter que no sea alfanumerico, espacio en
/// blanco, guion o guion bajo.
pub fn clean_special_chars(input: &str) -> (r: String)
    ensures
        r@ == input@.filter(|c: char| es_caracter_permitido(c)),
{
    let len = input.unicode_len();
    let mut result = String::new();
    let mut i: usize = 0;
    while i < len
        invariant
            i <= len,
            len == input@.len(),
            result@ == input@.subrange(0, i as int).filter(|c: char| es_caracter_permitido(c)),
        decreases len - i,
    {
        let c = input.get_char(i);
        if caracter_permitido(c) {
            empujar_caracter(&mut result, c);
        }
        proof {
            reveal(Seq::filter);
            let antes = input@.subrange(0, i as int);
            let ahora = input@.subrange(0, i + 1 as int);
            assert(ahora.drop_last() =~= antes);
            assert(ahora.last() == c);
        }
        i = i + 1;
    }
    assert(input@.subrange(0, len as int) =~= input@);
    result
}

/// Digito decimal como caracter.
pub open spec fn caracter_digito(d: nat) -> char {
    if d == 0 {
        '0'
    } else if d == 1 {
        '1'
    } else if d == 2 {
        '2'
    } else if d == 3 {
        '3'
    } else if d == 4 {
        '4'
    } else if d == 5 {
        '5'
    } else if d == 6 {
        '6'
    } else if d == 7 {
        '7'
    } else if d == 8 {
        '8'
    } else {
        '9'
    }
}

/// Escritura decimal de un natural, sin ceros a la izquierda.
pub open spec fn digitos(n: nat) -> Seq<char>
    decreases n,
{
    if n < 10 {
        seq![caracter_digito(n)]
    } else {
        digitos(n / 10) + seq![caracter_digito(n % 10)]
    }
}

/// Escritura decimal de un entero, con signo cuando es negativo.
pub open spec fn digitos_entero(v: int) -> Seq<char> {
    if v >= 0 {
        digitos(v as nat)
    } else {
        seq!['-'] + digitos((-v) as nat)
    }
}

fn caracter_de_digito(d: u64) -> (c: char)
    requires
        d < 10,
    ensures
        c == caracter_digito(d as nat),
{
    if d == 0 {
        '0'
    } else if d == 1 {
        '1'
    } else if d == 2 {
        '2'
    } else if d == 3 {
        '3'
    } else if d == 4 {
        '4'
    } else if d == 5 {
        '5'
    } else if d == 6 {
        '6'
    } else if d == 7 {
        '7'
    } else if d == 8 {
        '8'
    } else {
        '9'
    }
}

/// Convierte un natural a su escritura decimal.
pub fn texto_u64(n: u64) -> (r: String)
    ensures
        r@ == digitos(n as nat),
    decreases n,
{
    if n < 10 {
        let mut r = String::new();
        empujar_caracter(&mut r, caracter_de_digito(n));
        assert(r@ =~= digitos(n as nat));
        r
    } else {
        let mut r = texto_u64(n / 10);
        empujar_caracter(&mut r, caracter_de_digito(n % 10));
        assert(r@ =~= digitos(n as nat));
        r
    }
}

/// Convierte un entero a su escritura decimal con signo.
pub fn texto_i64(v: i64) -> (r: String)
    ensures
        r@ == digitos_entero(v as int),
{
    if v >= 0 {
        texto_u64(v as u64)
    } else {
        let magnitud: u64 = (-(v as i128)) as u64;
        let mut r = String::new();
        empujar_caracter(&mut r, '-');
        let d = texto_u64(magnitud);
        r.append(d.as_str());
        assert(r@ =~= digitos_entero(v as int));
        r
    }
}

/// Escritura de un monto en centimos como cantidad con dos decimales.
pub open spec fn digitos_centimos(c: int) -> Seq<char> {
    let m = if c >= 0 {
        c
    } else {
        -c
    };
    let signo: Seq<char> = if c < 0 {
        seq!['-']
    } else {
        Seq::empty()
    };
    let fraccion = if m % 100 < 10 {
        seq!['0'] + digitos((m % 100) as nat)
    } else {
        digitos((m % 100) as nat)
    };
    signo + digitos((m / 100) as nat) + seq!['.'] + fraccion
}

/// Convierte centimos a texto monetario con dos decimales, como "123.45".
pub fn texto_centimos(c: i64) -> (r: String)
    ensures
        r@ == digitos_centimos(c as int),
{
    let magnitud: u64 = if c >= 0 {
        c as u64
    } else {
        (-(c as i128)) as u64
    };
    let mut r = String::new();
    if c < 0 {
        empujar_caracter(&mut r, '-');
    }
    let entera = texto_u64(magnitud / 100);
    r.append(entera.as_str());
    empujar_caracter(&mut r, '.');
    let resto = magnitud % 100;
    if resto < 10 {
        empujar_caracter(&mut r, '0');
    }
    let fraccion = texto_u64(resto);
    r.append(fraccion.as_str());
    proof {
        assert(r@ =~= digitos_centimos(c as int));
    }
    r
}

} // verus!
