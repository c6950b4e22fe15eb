//! Resumen MD5 de textos, presentado en hexadecimal.

use vstd::prelude::*;

verus! {

/// Nombre para el resumen MD5 de los bytes de un texto.
pub uninterp spec fn md5_de(texto: Seq<char>) -> Seq<u8>;

/// Apoya en Md5 del crate md-5: el resumen MD5 de un texto depende solo de
/// sus bytes, lo que `md5_de` nombra, y mide dieciseis bytes.
#[verifier::external_body]
fn resumen_md5(texto: &str) -> (r: Vec<u8>)
    ensures
        r@ == md5_de(texto@),
        r@.len() == 16,
{
    let mut hasher = <md5::Md5 as md5::Digest>::new();
    md5::Digest::update(&mut hasher, texto.as_bytes());
    md5::Digest::finalize(hasher).to_vec()
}

/// Cifra hexadecimal en minuscula.
pub open spec fn caracter_hex(d: nat) -> char {
    if d < 10 {
        crate::texto::caracter_digito(d)
    } else if d == 10 {
        'a'
    } else if d == 11 {
        'b'
    } else if d == 12 {
        'c'
    } else if d == 13 {
        'd'
    } else if d == 14 {
        'e'
    } else {
        'f'
    }
}

/// Escritura hexadecimal de una lista de bytes, dos cifras por byte.
pub open spec fn hex_de(bytes: Seq<u8>) -> Seq<char>
    decreases bytes.len(),
{
    if bytes.len() == 0 {
        Seq::empty()
    } else {
        hex_de(bytes.drop_last()) + seq![
            caracter_hex((bytes.last() / 16) as nat),
            caracter_hex((bytes.last() % 16) as nat),
        ]
    }
}

fn cifra_hex(d: u8) -> (c: char)
    requires
        d < 16,
    ensures
        c == caracter_hex(d as nat),
{
    if d == 0 {
        '0'
    } else if d == 1 {
        '1'
    } else if d == 2 {
        '2'
    } else if d == 3 {
        '3'
    } else if d == 4 {
        '4'
    } else if d == 5 {
        '5'
    } else if d == 6 {
        '6'
    } else if d == 7 {
        '7'
    } else if d == 8 {
        '8'
    } else if d == 9 {
        '9'
    } else if d == 10 {
        'a'
    } else if d == 11 {
        'b'
    } else if d == 12 {
        'c'
    } else if d == 13 {
        'd'
    } else if d == 14 {
        'e'
    } else {
        'f'
    }
}

/// Calcula el resumen MD5 de un texto, en hexadecimal de 32 cifras.
pub fn md5_string(input: &str) -> (r: String)
    ensures
        r@ == hex_de(md5_de(input@)),
        r@.len() == 32,
{
    let bytes = resumen_md5(input);
    let mut r = String::new();
    let mut i: usize = 0;
    proof {
        assert(hex_de(bytes@.subrange(0, 0)) =~= Seq::<char>::empty());
        assert(r@ =~= Seq::<char>::empty());
    }
    while i < bytes.len()
        invariant
            i <= bytes.len(),
            bytes@.len() == 16,
            r@ == hex_de(bytes@.subrange(0, i as int)),
            r@.len() == 2 * i,
        decreases bytes.len() - i,
    {
        let b = bytes[i];
        crate::texto::empujar_caracter(&mut r, cifra_hex(b / 16));
        crate::texto::empujar_caracter(&mut r, cifra_hex(b % 16));
        proof {
            let ahora = bytes@.subrange(0, i + 1 as int);
            assert(ahora.drop_last() =~= bytes@.subrange(0, i as int));
            assert(ahora.last() == bytes@[i as int]);
            assert(r@ =~= hex_de(ahora));
        }
        i = i + 1;
    }
    proof {
        assert(bytes@.subrange(0, bytes@.len() as int) =~= bytes@);
    }
    r
}

} // verus!
