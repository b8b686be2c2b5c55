//! Text utilities shared by the codec, the command handlers and the snapshot
//! format: conversions between strings and character vectors, ASCII
//! upper-casing, decimal numerals and splitting on a separator character.
//!
//! Every function is specified over `Seq<char>`, the view of a string.
use vstd::prelude::*;
use vstd::string::*;

verus! {

/// `String::push` of the standard library: the character is appended at the
/// end and nothing else changes. Assumed, not proved.
pub assume_specification[ String::push ](s: &mut String, c: char)
    ensures
        final(s)@ == old(s)@.push(c),
;

/// The views of a sequence of strings, element by element.
pub open spec fn vista_textos(v: Seq<String>) -> Seq<Seq<char>> {
    v.map_values(|s: String| s@)
}

pub proof fn lema_vista_textos_push(v: Seq<String>, s: String)
    ensures
        vista_textos(v.push(s)) == vista_textos(v).push(s@),
{
    assert(vista_textos(v.push(s)) =~= vista_textos(v).push(s@));
}

/// The characters of `s`, in order.
pub fn caracteres(s: &str) -> (v: Vec<char>)
    ensures
        v@ == s@,
{
    let mut v: Vec<char> = Vec::new();
    for c in it: s.chars()
        invariant
            v@ == it.seq().take(it.index() as int),
            it.seq() == s@,
    {
        v.push(c);
    }
    v
}

/// Whether two strings hold the same characters.
pub fn mismo_texto(a: &str, b: &str) -> (r: bool)
    ensures
        r == (a@ == b@),
{
    let x = a.to_owned();
    let y = b.to_owned();
    x == y
}

/// The ASCII upper-case form of a character: `a`..`z` move to `A`..`Z`, every
/// other character stays.
pub open spec fn mayuscula(c: char) -> char {
    if 'a' <= c && c <= 'z' {
        ((c as u8) - 32) as char
    } else {
        c
    }
}

pub open spec fn en_mayusculas(s: Seq<char>) -> Seq<char> {
    s.map_values(|c: char| mayuscula(c))
}

pub fn a_mayuscula(c: char) -> (r: char)
    ensures
        r == mayuscula(c),
{
    if 'a' <= c && c <= 'z' {
        ((c as u8) - 32) as char
    } else {
        c
    }
}

/// The ASCII upper-case form of `s`.
pub fn a_mayusculas(s: &str) -> (r: String)
    ensures
        r@ == en_mayusculas(s@),
{
    let v = caracteres(s);
    let mut r = String::new();
    let mut i: usize = 0;
    while i < v.len()
        invariant
            i <= v.len(),
            v@ == s@,
            r@ == en_mayusculas(s@.take(i as int)),
        decreases v.len() - i,
    {
        r.push(a_mayuscula(v[i]));
        assert(r@ =~= en_mayusculas(s@.take(i + 1)));
        i += 1;
    }
    assert(s@.take(v.len() as int) =~= s@);
    r
}

pub open spec fn es_digito(c: char) -> bool {
    '0' <= c && c <= '9'
}

pub open spec fn valor_digito(c: char) -> nat {
    ((c as u8) - 48) as nat
}

pub open spec fn digito_de(d: nat) -> char {
    ((48 + d) as u8) as char
}

pub open spec fn son_digitos(s: Seq<char>) -> bool {
    forall|i: int| 0 <= i < s.len() ==> es_digito(#[trigger] s[i])
}

/// The number that a run of decimal digits denotes; 0 for the empty run.
pub open spec fn valor_decimal(s: Seq<char>) -> nat
    decreases s.len(),
{
    if s.len() == 0 {
        0
    } else {
        valor_decimal(s.drop_last()) * 10 + valor_digito(s.last())
    }
}

/// The decimal numeral of `n`, without leading zeros.
pub open spec fn decimal_nat(n: nat) -> Seq<char>
    decreases n,
{
    if n < 10 {
        seq![digito_de(n)]
    } else {
        decimal_nat(n / 10).push(digito_de(n % 10))
    }
}

/// The decimal numeral of an integer: a minus sign in front of a negative one.
pub open spec fn decimal(n: int) -> Seq<char> {
    if n < 0 {
        seq!['-'] + decimal_nat((-n) as nat)
    } else {
        decimal_nat(n as nat)
    }
}

/// What a non-empty run of digits denotes; nothing for any other text.
pub open spec fn natural_de(s: Seq<char>) -> Option<nat> {
    if s.len() > 0 && son_digitos(s) {
        Some(valor_decimal(s))
    } else {
        None
    }
}

/// What a decimal numeral with an optional sign (`+` or `-`) denotes.
pub open spec fn entero_de(s: Seq<char>) -> Option<int> {
    if s.len() > 0 && s[0] == '-' {
        match natural_de(s.subrange(1, s.len() as int)) {
            Some(v) => Some(-(v as int)),
            None => None,
        }
    } else if s.len() > 0 && s[0] == '+' {
        match natural_de(s.subrange(1, s.len() as int)) {
            Some(v) => Some(v as int),
            None => None,
        }
    } else {
        match natural_de(s) {
            Some(v) => Some(v as int),
            None => None,
        }
    }
}

/// The signed 32-bit integer that `s` denotes, if it denotes one that fits.
pub open spec fn i32_de(s: Seq<char>) -> Option<i32> {
    match entero_de(s) {
        Some(v) => if -2147483648 <= v <= 2147483647 {
            Some(v as i32)
        } else {
            None
        },
        None => None,
    }
}

/// The unsigned 64-bit integer that `s` denotes: digits with an optional `+`
/// in front, of a value that fits.
pub open spec fn u64_de(s: Seq<char>) -> Option<u64> {
    let digitos = if s.len() > 0 && s[0] == '+' {
        s.subrange(1, s.len() as int)
    } else {
        s
    };
    match natural_de(digitos) {
        Some(v) => if v <= u64::MAX {
            Some(v as u64)
        } else {
            None
        },
        None => None,
    }
}

/// What a run of digits denotes if it is not empty and its value is at most
/// `limite`.
pub open spec fn natural_acotado(s: Seq<char>, limite: nat) -> Option<u64> {
    match natural_de(s) {
        Some(v) => if v <= limite {
            Some(v as u64)
        } else {
            None
        },
        None => None,
    }
}

pub proof fn lema_valor_decimal_push(s: Seq<char>, c: char)
    ensures
        valor_decimal(s.push(c)) == valor_decimal(s) * 10 + valor_digito(c),
{
    assert(s.push(c).drop_last() =~= s);
}

pub proof fn lema_decimal_nat(n: nat)
    ensures
        decimal_nat(n).len() > 0,
        son_digitos(decimal_nat(n)),
        valor_decimal(decimal_nat(n)) == n,
    decreases n,
{
    if n < 10 {
        let s = seq![digito_de(n)];
        assert(s.drop_last() =~= Seq::<char>::empty());
        assert(valor_decimal(s.drop_last()) == 0);
        assert(s.last() == digito_de(n));
    } else {
        lema_decimal_nat(n / 10);
        lema_valor_decimal_push(decimal_nat(n / 10), digito_de(n % 10));
    }
}

/// Reading back the numeral of a number gives the number.
pub proof fn lema_entero_de_decimal(n: int)
    ensures
        entero_de(decimal(n)) == Some(n),
{
    if n < 0 {
        let m = (-n) as nat;
        lema_decimal_nat(m);
        let s = decimal(n);
        assert(s.subrange(1, s.len() as int) =~= decimal_nat(m));
    } else {
        lema_decimal_nat(n as nat);
        let s = decimal(n);
        assert(es_digito(s[0]));
    }
}

pub proof fn lema_u64_de_decimal(n: u64)
    ensures
        u64_de(decimal_nat(n as nat)) == Some(n),
{
    lema_decimal_nat(n as nat);
    let s = decimal_nat(n as nat);
    assert(es_digito(s[0]));
}

/// The value of the digits `chars[desde..]`, if that range is a non-empty run
/// of decimal digits of a value not above `limite`.
fn leer_natural(chars: &Vec<char>, desde: usize, limite: u64) -> (r: Option<u64>)
    requires
        desde <= chars.len(),
    ensures
        r == natural_acotado(chars@.subrange(desde as int, chars.len() as int), limite as nat),
{
    let ghost todo = chars@.subrange(desde as int, chars.len() as int);
    let mut i: usize = desde;
    let mut acumulado: u64 = 0;
    let mut excedido: bool = false;
    while i < chars.len()
        invariant
            desde <= i <= chars.len(),
            todo == chars@.subrange(desde as int, chars.len() as int),
            son_digitos(chars@.subrange(desde as int, i as int)),
            !excedido ==> acumulado == valor_decimal(chars@.subrange(desde as int, i as int))
                && acumulado <= limite,
            excedido ==> valor_decimal(chars@.subrange(desde as int, i as int)) > limite,
        decreases chars.len() - i,
    {
        let c = chars[i];
        if !('0' <= c && c <= '9') {
            proof {
                assert(todo[i - desde] == c);
            }
            return None;
        }
        let d: u64 = ((c as u8) - 48) as u64;
        proof {
            let antes = chars@.subrange(desde as int, i as int);
            assert(chars@.subrange(desde as int, i + 1) =~= antes.push(c));
            lema_valor_decimal_push(antes, c);
        }
        if !excedido {
            let nuevo: u128 = (acumulado as u128) * 10 + (d as u128);
            if nuevo > limite as u128 {
                excedido = true;
            } else {
                acumulado = nuevo as u64;
            }
        }
        i += 1;
    }
    assert(chars@.subrange(desde as int, i as int) =~= todo);
    if i == desde || excedido {
        None
    } else {
        Some(acumulado)
    }
}

/// Reads a signed 32-bit integer in decimal notation, as `str::parse::<i32>`
/// accepts it: an optional sign, then at least one digit, nothing else.
pub fn parsear_i32(s: &str) -> (r: Option<i32>)
    ensures
        r == i32_de(s@),
{
    let chars = caracteres(s);
    if chars.len() == 0 {
        return None;
    }
    let c = chars[0];
    if c == '-' {
        match leer_natural(&chars, 1, 2147483648) {
            Some(v) => Some((0 - (v as i64)) as i32),
            None => None,
        }
    } else if c == '+' {
        match leer_natural(&chars, 1, 2147483647) {
            Some(v) => Some(v as i32),
            None => None,
        }
    } else {
        assert(chars@.subrange(0, chars.len() as int) =~= s@);
        match leer_natural(&chars, 0, 2147483647) {
            Some(v) => Some(v as i32),
            None => None,
        }
    }
}

/// Reads an unsigned 64-bit integer in decimal notation, as
/// `str::parse::<u64>` accepts it: an optional `+`, then at least one digit.
pub fn parsear_u64(s: &str) -> (r: Option<u64>)
    ensures
        r == u64_de(s@),
{
    let chars = caracteres(s);
    if chars.len() > 0 && chars[0] == '+' {
        leer_natural(&chars, 1, u64::MAX)
    } else {
        assert(chars@.subrange(0, chars.len() as int) =~= s@);
        leer_natural(&chars, 0, u64::MAX)
    }
}

fn digito(d: u64) -> (c: char)
    requires
        d < 10,
    ensures
        c == digito_de(d as nat),
{
    ((48 + d) as u8) as char
}

/// The decimal numeral of `n`.
pub fn u64_a_cadena(n: u64) -> (s: String)
    ensures
        s@ == decimal_nat(n as nat),
    decreases n,
{
    if n < 10 {
        let mut s = String::new();
        s.push(digito(n));
        assert(s@ =~= seq![digito_de(n as nat)]);
        s
    } else {
        let mut s = u64_a_cadena(n / 10);
        s.push(digito(n % 10));
        s
    }
}

/// The decimal numeral of `n`, with a minus sign if it is negative.
pub fn i32_a_cadena(n: i32) -> (s: String)
    ensures
        s@ == decimal(n as int),
{
    if n < 0 {
        let m: u64 = (0 - (n as i64)) as u64;
        let mut s = String::new();
        s.push('-');
        let d = u64_a_cadena(m);
        s.append(d.as_str());
        assert(s@ =~= seq!['-'] + decimal_nat(m as nat));
        s
    } else {
        u64_a_cadena(n as u64)
    }
}

/// The pieces of `s` between occurrences of `sep`: one piece more than there
/// are separators, so the empty text has the one empty piece.
pub open spec fn partir(s: Seq<char>, sep: char) -> Seq<Seq<char>>
    decreases s.len(),
{
    if s.len() == 0 {
        seq![Seq::<char>::empty()]
    } else {
        let p = partir(s.drop_last(), sep);
        if s.last() == sep {
            p.push(Seq::<char>::empty())
        } else {
            p.drop_last().push(p.last().push(s.last()))
        }
    }
}

pub proof fn lema_partir_no_vacio(s: Seq<char>, sep: char)
    ensures
        partir(s, sep).len() > 0,
    decreases s.len(),
{
    if s.len() > 0 {
        lema_partir_no_vacio(s.drop_last(), sep);
    }
}

/// Splits `s` on every occurrence of `sep`, as `str::split` does.
pub fn partir_texto(s: &str, sep: char) -> (r: Vec<String>)
    ensures
        vista_textos(r@) == partir(s@, sep),
{
    let v = caracteres(s);
    let mut piezas: Vec<String> = Vec::new();
    let mut actual = String::new();
    let mut i: usize = 0;
    assert(s@.take(0) =~= Seq::<char>::empty());
    assert(vista_textos(piezas@).push(actual@) =~= partir(s@.take(0), sep));
    while i < v.len()
        invariant
            i <= v.len(),
            v@ == s@,
            vista_textos(piezas@).push(actual@) == partir(s@.take(i as int), sep),
        decreases v.len() - i,
    {
        let c = v[i];
        let ghost antes = vista_textos(piezas@).push(actual@);
        proof {
            assert(s@.take(i + 1).drop_last() =~= s@.take(i as int));
            assert(s@.take(i + 1).last() == c);
        }
        if c == sep {
            let ghost viejo = piezas@;
            piezas.push(actual);
            proof {
                lema_vista_textos_push(viejo, actual);
            }
            actual = String::new();
        } else {
            actual.push(c);
            assert(antes.drop_last() =~= vista_textos(piezas@));
        }
        i += 1;
    }
    assert(s@.take(v.len() as int) =~= s@);
    let ghost viejo = piezas@;
    piezas.push(actual);
    proof {
        lema_vista_textos_push(viejo, actual);
    }
    piezas
}

/// The length of a text in bytes, as UTF-8.
pub open spec fn longitud(s: Seq<char>) -> nat {
    vstd::utf8::encode_utf8(s).len()
}

/// The length of `s` in bytes.
pub fn longitud_de(s: &str) -> (n: usize)
    ensures
        n == longitud(s@),
{
    s.as_bytes().len()
}

/// The 32-bit integer that `x` wraps around to.
pub open spec fn envuelto(x: int) -> i32 {
    if x > 2147483647 {
        (x - 4294967296) as i32
    } else if x < -2147483648 {
        (x + 4294967296) as i32
    } else {
        x as i32
    }
}

/// The pieces joined into one text, with `sep` between each two.
pub open spec fn unir(piezas: Seq<Seq<char>>, sep: char) -> Seq<char>
    decreases piezas.len(),
{
    if piezas.len() == 0 {
        Seq::<char>::empty()
    } else if piezas.len() == 1 {
        piezas[0]
    } else {
        unir(piezas.drop_last(), sep) + seq![sep] + piezas.last()
    }
}

/// Joins `piezas` into one string, with `sep` between each two.
pub fn unir_textos(piezas: &Vec<String>, sep: char) -> (r: String)
    ensures
        r@ == unir(vista_textos(piezas@), sep),
{
    let mut r = String::new();
    let mut i: usize = 0;
    let ghost todas = vista_textos(piezas@);
    assert(todas.take(0) =~= Seq::<Seq<char>>::empty());
    while i < piezas.len()
        invariant
            i <= piezas.len(),
            todas == vista_textos(piezas@),
            r@ == unir(todas.take(i as int), sep),
        decreases piezas.len() - i,
    {
        proof {
            assert(todas.take(i + 1).drop_last() =~= todas.take(i as int));
            assert(todas.take(i + 1).last() == piezas@[i as int]@);
        }
        if i > 0 {
            r.push(sep);
        }
        r.append(piezas[i].as_str());
        proof {
            if i == 0 {
                assert(r@ =~= piezas@[0]@);
                assert(todas.take(1)[0] == piezas@[0]@);
            } else {
                assert(r@ =~= unir(todas.take(i as int), sep) + seq![sep] + piezas@[i as int]@);
            }
        }
        i += 1;
    }
    assert(todas.take(i as int) =~= todas);
    r
}

/// `sep` does not occur in the text.
pub open spec fn sin_separador(s: Seq<char>, sep: char) -> bool {
    forall|i: int| 0 <= i < s.len() ==> s[i] != sep
}

/// Splitting a text that ends in a piece without separators: that piece
/// goes on where the last piece of the text before it stopped.
pub proof fn lema_partir_concatenado(a: Seq<char>, b: Seq<char>, sep: char)
    requires
        sin_separador(b, sep),
    ensures
        partir(a, sep).len() > 0,
        partir(a + b, sep) == partir(a, sep).drop_last().push(partir(a, sep).last() + b),
    decreases b.len(),
{
    lema_partir_no_vacio(a, sep);
    let p = partir(a, sep);
    if b.len() == 0 {
        assert(a + b =~= a);
        assert(p.last() + b =~= p.last());
        assert(p.drop_last().push(p.last()) =~= p);
    } else {
        let b1 = b.drop_last();
        let c = b.last();
        lema_partir_concatenado(a, b1, sep);
        assert((a + b).drop_last() =~= a + b1);
        assert((a + b).last() == c);
        let p1 = partir(a + b1, sep);
        assert(p1.drop_last() =~= p.drop_last());
        assert(p1.last().push(c) =~= p.last() + b);
    }
}

/// Splitting what was joined gives the pieces back, as long as no piece
/// holds the separator.
pub proof fn lema_partir_unir(piezas: Seq<Seq<char>>, sep: char)
    requires
        piezas.len() > 0,
        forall|i: int| 0 <= i < piezas.len() ==> sin_separador(#[trigger] piezas[i], sep),
    ensures
        partir(unir(piezas, sep), sep) == piezas,
    decreases piezas.len(),
{
    let vacio = Seq::<char>::empty();
    if piezas.len() == 1 {
        lema_partir_concatenado(vacio, piezas[0], sep);
        assert(vacio + piezas[0] =~= piezas[0]);
        assert(partir(vacio, sep) =~= seq![vacio]);
        assert(seq![vacio].drop_last().push(vacio + piezas[0]) =~= piezas);
    } else {
        let antes = piezas.drop_last();
        lema_partir_unir(antes, sep);
        let a = unir(antes, sep) + seq![sep];
        assert(a.drop_last() =~= unir(antes, sep));
        assert(partir(a, sep) == antes.push(vacio));
        lema_partir_concatenado(a, piezas.last(), sep);
        assert(antes.push(vacio).drop_last() =~= antes);
        assert(vacio + piezas.last() =~= piezas.last());
        assert(antes.push(piezas.last()) =~= piezas);
    }
}

} // verus!
