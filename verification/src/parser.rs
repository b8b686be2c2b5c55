//! The RESP codec: replies are framed as text for the wire, and a request,
//! an array of bulk strings, is read from the bytes that came in.
use vstd::prelude::*;
use vstd::slice::*;
use vstd::string::*;
use vstd::utf8::{decode_utf8, valid_utf8};
use crate::comando::{lema_vista_respuestas, Respuesta, ResultadoRedis};
use crate::comando_info::{ComandoInfo, ComandoVista};
use crate::texto::{
    decimal_nat, es_digito, lema_decimal_nat, lema_valor_decimal_push, lema_vista_textos_push,
    longitud, longitud_de, natural_de, son_digitos, u64_a_cadena, valor_decimal, vista_textos,
};

verus! {

/// The end of every RESP line.
pub open spec fn crlf() -> Seq<char> {
    seq!['\r', '\n']
}

/// The frame of a reply:
/// a simple string is `+<text>\r\n`, an error `-<text>\r\n`, an integer
/// `:<decimal>\r\n`, a bulk string `$<length in bytes>\r\n<text>\r\n`, an
/// array `*<count>\r\n` and then the frames of its elements; the absent bulk
/// string is `$-1\r\n` and the absent array `*-1\r\n`.
pub open spec fn codificada(r: Respuesta) -> Seq<char>
    decreases r,
{
    match r {
        Respuesta::StrSimple(s) => seq!['+'] + s + crlf(),
        Respuesta::Error(s) => seq!['-'] + s + crlf(),
        Respuesta::Int(n) => seq![':'] + decimal_nat(n) + crlf(),
        Respuesta::BulkStr(s) => seq!['$'] + decimal_nat(longitud(s)) + crlf() + s + crlf(),
        Respuesta::Vector(v) => seq!['*'] + decimal_nat(v.len()) + crlf() + codificadas(
            v,
            v.len() as int,
        ),
        Respuesta::Nulo => seq!['$', '-', '1'] + crlf(),
        Respuesta::VectorNulo => seq!['*', '-', '1'] + crlf(),
    }
}

/// The frames of the first `n` replies of `v`, one after the other.
pub open spec fn codificadas(v: Seq<Respuesta>, n: int) -> Seq<char>
    decreases v, n,
{
    if n <= 0 || n > v.len() {
        Seq::<char>::empty()
    } else {
        codificadas(v, n - 1) + codificada(v[n - 1])
    }
}

fn cerrar_linea(s: &mut String)
    ensures
        final(s)@ == old(s)@ + crlf(),
{
    s.push('\r');
    s.push('\n');
    assert(s@ =~= old(s)@ + crlf());
}

fn linea_de(marca: char, texto: &str) -> (s: String)
    ensures
        s@ == seq![marca] + texto@ + crlf(),
{
    let mut s = String::new();
    s.push(marca);
    s.append(texto);
    cerrar_linea(&mut s);
    assert(s@ =~= seq![marca] + texto@ + crlf());
    s
}

/// Frames a reply for the wire.
pub fn parsear_respuesta(resultado: &ResultadoRedis) -> (s: String)
    ensures
        s@ == codificada(resultado@),
    decreases resultado,
{
    match resultado {
        ResultadoRedis::StrSimple(t) => linea_de('+', t.as_str()),
        ResultadoRedis::Error(t) => linea_de('-', t.as_str()),
        ResultadoRedis::Int(n) => {
            let d = u64_a_cadena(*n as u64);
            linea_de(':', d.as_str())
        },
        ResultadoRedis::BulkStr(t) => {
            let d = u64_a_cadena(longitud_de(t.as_str()) as u64);
            let mut s = linea_de('$', d.as_str());
            s.append(t.as_str());
            cerrar_linea(&mut s);
            assert(s@ =~= codificada(resultado@));
            s
        },
        ResultadoRedis::Vector(v) => {
            let d = u64_a_cadena(v.len() as u64);
            let mut s = linea_de('*', d.as_str());
            let ghost vistas = crate::comando::vista_respuestas(v@, v@.len() as int);
            proof {
                lema_vista_respuestas(v@, v@.len() as int);
            }
            let ghost inicio = s@;
            let mut i: usize = 0;
            assert(s@ =~= inicio + codificadas(vistas, 0));
            while i < v.len()
                invariant
                    i <= v.len(),
                    resultado is Vector,
                    resultado->Vector_0 == *v,
                    vistas.len() == v@.len(),
                    forall|k: int| 0 <= k < v@.len() ==> (#[trigger] vistas[k]) == v@[k]@,
                    s@ == inicio + codificadas(vistas, i as int),
                decreases v.len() - i,
            {
                proof {
                    vstd::std_specs::vec::axiom_vec_index_decreases(*v, i as int);
                    assert(decreases_to!(*resultado => resultado->Vector_0));
                }
                let t = parsear_respuesta(&v[i]);
                s.append(t.as_str());
                proof {
                    assert(vistas[i as int] == v@[i as int]@);
                    assert(s@ =~= inicio + codificadas(vistas, i + 1));
                }
                i += 1;
            }
            s
        },
        ResultadoRedis::Nulo => {
            let mut s = String::new();
            s.push('$');
            s.push('-');
            s.push('1');
            cerrar_linea(&mut s);
            assert(s@ =~= codificada(resultado@));
            s
        },
        ResultadoRedis::VectorNulo => {
            let mut s = String::new();
            s.push('*');
            s.push('-');
            s.push('1');
            cerrar_linea(&mut s);
            assert(s@ =~= codificada(resultado@));
            s
        },
    }
}

/// Why a request could not be read.
#[derive(Clone, Copy, Debug, PartialEq, Eq, Structural)]
pub enum ParseError {
    /// The bytes end before the frame does.
    Truncado,
    /// Something other than an array of bulk strings.
    TipoInesperado,
    /// A length that is no decimal number.
    LongitudInvalida,
    /// A bulk string that is not followed by the end of line where its
    /// length says that it ends.
    LongitudInconsistente,
    /// A bulk string that is not UTF-8.
    TextoInvalido,
}

/// The bytes as characters, one for one.
pub open spec fn como_texto(b: Seq<u8>) -> Seq<char> {
    b.map_values(|x: u8| x as char)
}

/// The first position at or after `desde` where an end of line stands.
pub open spec fn fin_de_linea(s: Seq<u8>, desde: int) -> Option<int>
    decreases s.len() - desde,
{
    if desde < 0 || desde + 1 >= s.len() {
        None
    } else if s[desde] == 13 && s[desde + 1] == 10 {
        Some(desde)
    } else {
        fin_de_linea(s, desde + 1)
    }
}

/// The bulk string that starts at `pos`, and where the next frame starts.
/// `$<n>\r\n` is followed by `n` bytes, taken as they are, and an end of
/// line; `$-1\r\n` is the absent bulk string.
pub open spec fn bulk(s: Seq<u8>, pos: int) -> Result<(Option<Seq<u8>>, int), ParseError> {
    if pos < 0 || pos >= s.len() {
        Err(ParseError::Truncado)
    } else if s[pos] != 36 {
        Err(ParseError::TipoInesperado)
    } else {
        match fin_de_linea(s, pos + 1) {
            None => Err(ParseError::Truncado),
            Some(f) => {
                let numero = como_texto(s.subrange(pos + 1, f));
                if numero == seq!['-', '1'] {
                    Ok((None, f + 2))
                } else {
                    match natural_de(numero) {
                        None => Err(ParseError::LongitudInvalida),
                        Some(n) => if f + 2 + n + 2 > s.len() {
                            Err(ParseError::Truncado)
                        } else if s[f + 2 + n] != 13 || s[f + 2 + n + 1] != 10 {
                            Err(ParseError::LongitudInconsistente)
                        } else {
                            Ok((Some(s.subrange(f + 2, f + 2 + n)), f + 2 + n + 2))
                        },
                    }
                }
            },
        }
    }
}

/// `faltan` bulk strings from `pos` on, after those in `leidos`. An absent
/// bulk string is no word of a request.
pub open spec fn bulks(s: Seq<u8>, pos: int, faltan: nat, leidos: Seq<Seq<u8>>) -> Result<
    (Seq<Seq<u8>>, int),
    ParseError,
>
    decreases faltan,
{
    if faltan == 0 {
        Ok((leidos, pos))
    } else {
        match bulk(s, pos) {
            Err(e) => Err(e),
            Ok((None, _)) => Err(ParseError::TipoInesperado),
            Ok((Some(b), p)) => bulks(s, p, (faltan - 1) as nat, leidos.push(b)),
        }
    }
}

/// The request at the start of `s`: its words, and how many bytes it takes.
pub open spec fn trama(s: Seq<u8>) -> Result<(Seq<Seq<u8>>, int), ParseError> {
    if s.len() == 0 {
        Err(ParseError::Truncado)
    } else if s[0] != 42 {
        Err(ParseError::TipoInesperado)
    } else {
        match fin_de_linea(s, 1) {
            None => Err(ParseError::Truncado),
            Some(f) => match natural_de(como_texto(s.subrange(1, f))) {
                None => Err(ParseError::LongitudInvalida),
                Some(n) => bulks(s, f + 2, n, Seq::<Seq<u8>>::empty()),
            },
        }
    }
}

/// Every word is UTF-8.
pub open spec fn son_textos(palabras: Seq<Seq<u8>>) -> bool {
    forall|i: int| 0 <= i < palabras.len() ==> valid_utf8(#[trigger] palabras[i])
}

/// The words as texts.
pub open spec fn textos_de(palabras: Seq<Seq<u8>>) -> Seq<Seq<char>> {
    palabras.map_values(|b: Seq<u8>| decode_utf8(b))
}

/// The command at the start of `s`, and how many bytes its frame takes.
pub open spec fn peticion(s: Seq<u8>) -> Result<(ComandoVista, int), ParseError> {
    match trama(s) {
        Err(e) => Err(e),
        Ok((palabras, n)) => if son_textos(palabras) {
            Ok((ComandoVista::de(textos_de(palabras)), n))
        } else {
            Err(ParseError::TextoInvalido)
        },
    }
}

fn buscar_fin(entrada: &[u8], desde: usize) -> (r: Option<usize>)
    requires
        desde <= entrada@.len(),
    ensures
        match r {
            Some(f) => fin_de_linea(entrada@, desde as int) == Some(f as int) && desde <= f
                && f + 1 < entrada@.len(),
            None => fin_de_linea(entrada@, desde as int) is None,
        },
{
    let n = entrada.len();
    let mut i: usize = desde;
    while i < n && n - i >= 2
        invariant
            desde <= i <= n,
            n == entrada@.len(),
            fin_de_linea(entrada@, desde as int) == fin_de_linea(entrada@, i as int),
        decreases n - i,
    {
        if entrada[i] == 13 && entrada[i + 1] == 10 {
            return Some(i);
        }
        i += 1;
    }
    None
}

/// A length as it is read: no number, a number above the limit, or a number.
enum Cuenta {
    Invalida,
    Excesiva,
    Valor(usize),
}

/// What the digits `s[desde..hasta]` say, measured against `limite`.
spec fn cuenta_de(s: Seq<u8>, desde: int, hasta: int, limite: nat) -> Cuenta {
    match natural_de(como_texto(s.subrange(desde, hasta))) {
        None => Cuenta::Invalida,
        Some(n) => if n > limite {
            Cuenta::Excesiva
        } else {
            Cuenta::Valor(n as usize)
        },
    }
}

fn leer_cuenta(entrada: &[u8], desde: usize, hasta: usize, limite: usize) -> (r: Cuenta)
    requires
        desde <= hasta <= entrada@.len(),
    ensures
        r == cuenta_de(entrada@, desde as int, hasta as int, limite as nat),
{
    let ghost todo = como_texto(entrada@.subrange(desde as int, hasta as int));
    let mut i: usize = desde;
    let mut acumulado: usize = 0;
    let mut excedido: bool = false;
    assert(como_texto(entrada@.subrange(desde as int, desde as int)) =~= Seq::<char>::empty());
    while i < hasta
        invariant
            desde <= i <= hasta <= entrada@.len(),
            todo == como_texto(entrada@.subrange(desde as int, hasta as int)),
            son_digitos(como_texto(entrada@.subrange(desde as int, i as int))),
            !excedido ==> acumulado == valor_decimal(
                como_texto(entrada@.subrange(desde as int, i as int)),
            ) && acumulado <= limite,
            excedido ==> valor_decimal(como_texto(entrada@.subrange(desde as int, i as int)))
                > limite,
        decreases hasta - i,
    {
        let b = entrada[i];
        if !(48 <= b && b <= 57) {
            proof {
                assert(todo[i - desde] == b as char);
            }
            return Cuenta::Invalida;
        }
        let d: u128 = (b - 48) as u128;
        proof {
            let antes = como_texto(entrada@.subrange(desde as int, i as int));
            assert(como_texto(entrada@.subrange(desde as int, i + 1)) =~= antes.push(b as char));
            lema_valor_decimal_push(antes, b as char);
        }
        if !excedido {
            let nuevo: u128 = (acumulado as u128) * 10 + d;
            if nuevo > limite as u128 {
                excedido = true;
            } else {
                acumulado = nuevo as usize;
            }
        }
        i += 1;
    }
    if i == desde {
        Cuenta::Invalida
    } else if excedido {
        Cuenta::Excesiva
    } else {
        Cuenta::Valor(acumulado)
    }
}

fn copiar_bytes(entrada: &[u8], desde: usize, hasta: usize) -> (r: Vec<u8>)
    requires
        desde <= hasta <= entrada@.len(),
    ensures
        r@ == entrada@.subrange(desde as int, hasta as int),
{
    let mut r: Vec<u8> = Vec::new();
    let mut i: usize = desde;
    while i < hasta
        invariant
            desde <= i <= hasta <= entrada@.len(),
            r@ == entrada@.subrange(desde as int, i as int),
        decreases hasta - i,
    {
        r.push(entrada[i]);
        assert(r@ =~= entrada@.subrange(desde as int, i + 1));
        i += 1;
    }
    r
}

pub open spec fn vista_bulk(r: Result<(Option<Vec<u8>>, usize), ParseError>) -> Result<
    (Option<Seq<u8>>, int),
    ParseError,
> {
    match r {
        Ok((Some(b), p)) => Ok((Some(b@), p as int)),
        Ok((None, p)) => Ok((None, p as int)),
        Err(e) => Err(e),
    }
}

/// Reads the bulk string that starts at `pos`: its bytes, or nothing for the
/// absent bulk string `$-1\r\n`, and the position after it.
pub fn leer_bulk(entrada: &[u8], pos: usize) -> (r: Result<(Option<Vec<u8>>, usize), ParseError>)
    ensures
        vista_bulk(r) == bulk(entrada@, pos as int),
        r matches Ok((_, p)) ==> pos < p <= entrada@.len(),
{
    let n = entrada.len();
    if pos >= n {
        return Err(ParseError::Truncado);
    }
    if entrada[pos] != 36 {
        return Err(ParseError::TipoInesperado);
    }
    let f = match buscar_fin(entrada, pos + 1) {
        Some(f) => f,
        None => {
            return Err(ParseError::Truncado);
        },
    };
    let ghost numero = como_texto(entrada@.subrange(pos + 1, f as int));
    if f - pos == 3 && entrada[pos + 1] == 45 && entrada[pos + 2] == 49 {
        assert(numero =~= seq!['-', '1']);
        return Ok((None, f + 2));
    }
    proof {
        if numero == seq!['-', '1'] {
            assert(numero.len() == 2);
            assert(numero[0] == '-' && numero[1] == '1');
            assert(numero[0] == entrada@[pos + 1] as char);
            assert(numero[1] == entrada@[pos + 2] as char);
        }
    }
    match leer_cuenta(entrada, pos + 1, f, n) {
        Cuenta::Invalida => Err(ParseError::LongitudInvalida),
        Cuenta::Excesiva => Err(ParseError::Truncado),
        Cuenta::Valor(largo) => {
            let resto = n - (f + 2);
            if resto < 2 || largo > resto - 2 {
                return Err(ParseError::Truncado);
            }
            let inicio = f + 2;
            if entrada[inicio + largo] != 13 || entrada[inicio + largo + 1] != 10 {
                return Err(ParseError::LongitudInconsistente);
            }
            Ok((Some(copiar_bytes(entrada, inicio, inicio + largo)), inicio + largo + 2))
        },
    }
}

pub open spec fn vista_palabras(v: Seq<Vec<u8>>) -> Seq<Seq<u8>> {
    v.map_values(|b: Vec<u8>| b@)
}

pub open spec fn vista_trama(r: Result<(Vec<Vec<u8>>, usize), ParseError>) -> Result<
    (Seq<Seq<u8>>, int),
    ParseError,
> {
    match r {
        Ok((v, n)) => Ok((vista_palabras(v@), n as int)),
        Err(e) => Err(e),
    }
}

/// Reads the request at the start of `entrada`: its words as bytes, and how
/// many bytes its frame takes.
pub fn parsear_trama(entrada: &[u8]) -> (r: Result<(Vec<Vec<u8>>, usize), ParseError>)
    ensures
        vista_trama(r) == trama(entrada@),
        r matches Ok((_, n)) ==> n <= entrada@.len(),
{
    let n = entrada.len();
    if n == 0 {
        return Err(ParseError::Truncado);
    }
    if entrada[0] != 42 {
        return Err(ParseError::TipoInesperado);
    }
    let f = match buscar_fin(entrada, 1) {
        Some(f) => f,
        None => {
            return Err(ParseError::Truncado);
        },
    };
    let ghost total = natural_de(como_texto(entrada@.subrange(1, f as int)));
    let cuenta: Option<usize> = match leer_cuenta(entrada, 1, f, n) {
        Cuenta::Invalida => {
            return Err(ParseError::LongitudInvalida);
        },
        Cuenta::Excesiva => None,
        Cuenta::Valor(c) => Some(c),
    };
    let mut palabras: Vec<Vec<u8>> = Vec::new();
    let mut pos: usize = f + 2;
    assert(vista_palabras(palabras@) =~= Seq::<Seq<u8>>::empty());
    loop
        invariant
            n == entrada@.len(),
            total is Some,
            match cuenta {
                Some(c) => total->0 == c,
                None => total->0 > n,
            },
            pos <= n,
            palabras@.len() <= pos,
            palabras@.len() <= total->0,
            trama(entrada@) == bulks(
                entrada@,
                pos as int,
                (total->0 - palabras@.len()) as nat,
                vista_palabras(palabras@),
            ),
        decreases n - pos,
    {
        let completo = match cuenta {
            Some(c) => palabras.len() >= c,
            None => false,
        };
        if completo {
            return Ok((palabras, pos));
        }
        match leer_bulk(entrada, pos) {
            Err(e) => {
                return Err(e);
            },
            Ok((None, _)) => {
                return Err(ParseError::TipoInesperado);
            },
            Ok((Some(b), p)) => {
                let ghost antes = palabras@;
                palabras.push(b);
                assert(vista_palabras(palabras@) =~= vista_palabras(antes).push(b@));
                pos = p;
            },
        }
    }
}

/// `std::str::from_utf8` of the standard library: the bytes are a string if
/// and only if they are well-formed UTF-8, and the string then holds the
/// characters that they encode.
#[verifier::external_body]
fn texto_de_bytes(bytes: &[u8]) -> (r: Option<String>)
    ensures
        match r {
            Some(s) => valid_utf8(bytes@) && s@ == decode_utf8(bytes@),
            None => !valid_utf8(bytes@),
        },
{
    match std::str::from_utf8(bytes) {
        Ok(s) => Some(s.to_owned()),
        Err(_) => None,
    }
}

/// Reads the command at the start of `entrada`; says how many bytes its
/// frame takes. The command name is the first word, in upper case.
pub fn parsear_stream(entrada: &[u8]) -> (r: Result<(ComandoInfo, usize), ParseError>)
    ensures
        match r {
            Ok((c, n)) => peticion(entrada@) == Ok::<(ComandoVista, int), ParseError>(
                (c@, n as int),
            ) && n <= entrada@.len(),
            Err(e) => peticion(entrada@) == Err::<(ComandoVista, int), ParseError>(e),
        },
{
    let (palabras, n) = match parsear_trama(entrada) {
        Ok(r) => r,
        Err(e) => {
            return Err(e);
        },
    };
    let ghost todas = vista_palabras(palabras@);
    let mut textos: Vec<String> = Vec::new();
    let mut i: usize = 0;
    assert(vista_textos(textos@) =~= textos_de(todas.take(0)));
    while i < palabras.len()
        invariant
            i <= palabras.len(),
            todas == vista_palabras(palabras@),
            trama(entrada@) == Ok::<(Seq<Seq<u8>>, int), ParseError>((todas, n as int)),
            n <= entrada@.len(),
            son_textos(todas.take(i as int)),
            vista_textos(textos@) == textos_de(todas.take(i as int)),
        decreases palabras.len() - i,
    {
        match texto_de_bytes(palabras[i].as_slice()) {
            Some(t) => {
                proof {
                    lema_vista_textos_push(textos@, t);
                    assert(textos_de(todas.take(i + 1)) =~= textos_de(todas.take(i as int)).push(
                        t@,
                    ));
                    assert forall|k: int| 0 <= k < i + 1 implies valid_utf8(
                        #[trigger] todas.take(i + 1)[k],
                    ) by {
                        if k < i {
                            assert(todas.take(i as int)[k] == todas[k]);
                        }
                    }
                }
                textos.push(t);
            },
            None => {
                assert(!valid_utf8(todas[i as int]));
                return Err(ParseError::TextoInvalido);
            },
        }
        i += 1;
    }
    assert(todas.take(i as int) =~= todas);
    Ok((ComandoInfo::new(textos), n))
}

/// The decimal numeral of `n` as bytes.
pub open spec fn numeral(n: nat) -> Seq<u8> {
    decimal_nat(n).map_values(|c: char| c as u8)
}

/// The end of line as bytes.
pub open spec fn fin() -> Seq<u8> {
    seq![13u8, 10u8]
}

/// The frame of a bulk string that holds the bytes `b`.
pub open spec fn marco_bulk(b: Seq<u8>) -> Seq<u8> {
    seq![36u8] + numeral(b.len()) + fin() + b + fin()
}

/// The frames of the bulk strings `ps`, one after the other.
pub open spec fn marcos(ps: Seq<Seq<u8>>) -> Seq<u8>
    decreases ps.len(),
{
    if ps.len() == 0 {
        Seq::<u8>::empty()
    } else {
        marco_bulk(ps[0]) + marcos(ps.drop_first())
    }
}

/// The frame of the request whose words are `ps`.
pub open spec fn marco(ps: Seq<Seq<u8>>) -> Seq<u8> {
    seq![42u8] + numeral(ps.len()) + fin() + marcos(ps)
}

proof fn lema_numeral(n: nat)
    ensures
        numeral(n).len() > 0,
        como_texto(numeral(n)) == decimal_nat(n),
        natural_de(como_texto(numeral(n))) == Some(n),
        como_texto(numeral(n)) != seq!['-', '1'],
        forall|i: int| 0 <= i < numeral(n).len() ==> (#[trigger] numeral(n)[i]) != 13,
{
    lema_decimal_nat(n);
    let d = decimal_nat(n);
    assert forall|i: int| 0 <= i < d.len() implies (#[trigger] como_texto(numeral(n))[i]) == d[i] by {
        assert(es_digito(d[i]));
    }
    assert(como_texto(numeral(n)) =~= d);
    assert(es_digito(d[0]));
    assert forall|i: int| 0 <= i < numeral(n).len() implies (#[trigger] numeral(n)[i]) != 13 by {
        assert(es_digito(d[i]));
    }
}

proof fn lema_fin_de_linea(s: Seq<u8>, desde: int, k: int)
    requires
        0 <= desde,
        0 <= k,
        desde + k + 1 < s.len(),
        forall|j: int| desde <= j < desde + k ==> s[j] != 13,
        s[desde + k] == 13,
        s[desde + k + 1] == 10,
    ensures
        fin_de_linea(s, desde) == Some(desde + k),
    decreases k,
{
    if k > 0 {
        lema_fin_de_linea(s, desde + 1, k - 1);
    }
}

proof fn lema_encabezado(s: Seq<u8>, pos: int, marca: u8, n: nat, resto: Seq<u8>)
    requires
        0 <= pos,
        pos + 1 + numeral(n).len() + 2 + resto.len() <= s.len(),
        s.subrange(pos, pos + 1 + numeral(n).len() + 2 + resto.len()) == seq![marca] + numeral(n)
            + fin() + resto,
    ensures
        s[pos] == marca,
        fin_de_linea(s, pos + 1) == Some(pos + 1 + numeral(n).len()),
        natural_de(como_texto(s.subrange(pos + 1, pos + 1 + numeral(n).len()))) == Some(n),
        como_texto(s.subrange(pos + 1, pos + 1 + numeral(n).len())) != seq!['-', '1'],
        s.subrange(
            pos + 1 + numeral(n).len() + 2,
            pos + 1 + numeral(n).len() + 2 + resto.len(),
        ) == resto,
{
    lema_numeral(n);
    let d = numeral(n).len() as int;
    let total = 1 + d + 2 + resto.len();
    let m = seq![marca] + numeral(n) + fin() + resto;
    let v = s.subrange(pos, pos + total);
    assert forall|j: int| 0 <= j < total implies s[pos + j] == #[trigger] m[j] by {
        assert(v[j] == s[pos + j]);
    }
    assert(m[0] == marca);
    assert forall|j: int| pos + 1 <= j < pos + 1 + d implies s[j] != 13 by {
        assert(s[j] == m[j - pos]);
        assert(m[j - pos] == numeral(n)[j - pos - 1]);
    }
    assert(s[pos + 1 + d] == m[1 + d]);
    assert(s[pos + 1 + d + 1] == m[1 + d + 1]);
    lema_fin_de_linea(s, pos + 1, d);
    assert(s.subrange(pos + 1, pos + 1 + d) =~= numeral(n)) by {
        assert forall|j: int| 0 <= j < d implies s.subrange(pos + 1, pos + 1 + d)[j] == numeral(
            n,
        )[j] by {
            assert(s[pos + 1 + j] == m[1 + j]);
        }
    }
    assert(s.subrange(pos + 1 + d + 2, pos + total) =~= resto) by {
        assert forall|j: int| 0 <= j < resto.len() implies s.subrange(
            pos + 1 + d + 2,
            pos + total,
        )[j] == resto[j] by {
            assert(s[pos + 1 + d + 2 + j] == m[1 + d + 2 + j]);
        }
    }
}

proof fn lema_bulk(s: Seq<u8>, pos: int, b: Seq<u8>)
    requires
        0 <= pos,
        pos + marco_bulk(b).len() <= s.len(),
        s.subrange(pos, pos + marco_bulk(b).len()) == marco_bulk(b),
    ensures
        bulk(s, pos) == Ok::<(Option<Seq<u8>>, int), ParseError>(
            (Some(b), pos + marco_bulk(b).len()),
        ),
        marco_bulk(b).len() > 0,
{
    let n = b.len() as int;
    let d = numeral(b.len()).len() as int;
    let resto = b + fin();
    assert(marco_bulk(b) =~= seq![36u8] + numeral(b.len()) + fin() + resto);
    lema_encabezado(s, pos, 36u8, b.len(), resto);
    let inicio = pos + 1 + d + 2;
    let r = s.subrange(inicio, inicio + resto.len());
    assert(s[inicio + n] == r[n]);
    assert(s[inicio + n + 1] == r[n + 1]);
    assert(s.subrange(inicio, inicio + n) =~= b) by {
        assert forall|j: int| 0 <= j < n implies s.subrange(inicio, inicio + n)[j] == b[j] by {
            assert(s[inicio + j] == r[j]);
        }
    }
}

proof fn lema_bulks(s: Seq<u8>, pos: int, ps: Seq<Seq<u8>>, leidos: Seq<Seq<u8>>)
    requires
        0 <= pos,
        pos + marcos(ps).len() <= s.len(),
        s.subrange(pos, pos + marcos(ps).len()) == marcos(ps),
    ensures
        bulks(s, pos, ps.len(), leidos) == Ok::<(Seq<Seq<u8>>, int), ParseError>(
            (leidos + ps, pos + marcos(ps).len()),
        ),
    decreases ps.len(),
{
    if ps.len() == 0 {
        assert(leidos + ps =~= leidos);
    } else {
        let primero = marco_bulk(ps[0]);
        let demas = marcos(ps.drop_first());
        let todo = s.subrange(pos, pos + marcos(ps).len());
        assert(s.subrange(pos, pos + primero.len()) =~= primero) by {
            assert forall|j: int| 0 <= j < primero.len() implies s.subrange(
                pos,
                pos + primero.len(),
            )[j] == primero[j] by {
                assert(s[pos + j] == todo[j]);
            }
        }
        lema_bulk(s, pos, ps[0]);
        let p1 = pos + primero.len();
        assert(s.subrange(p1, p1 + demas.len()) =~= demas) by {
            assert forall|j: int| 0 <= j < demas.len() implies s.subrange(p1, p1 + demas.len())[j]
                == demas[j] by {
                assert(s[p1 + j] == todo[primero.len() + j]);
            }
        }
        lema_bulks(s, p1, ps.drop_first(), leidos.push(ps[0]));
        assert(leidos.push(ps[0]) + ps.drop_first() =~= leidos + ps);
    }
}

/// A request that was framed is read back as it was, whatever follows it:
/// the words are the same, and the frame is used up to its last byte.
pub proof fn ley_marco(ps: Seq<Seq<u8>>, resto: Seq<u8>)
    ensures
        trama(marco(ps) + resto) == Ok::<(Seq<Seq<u8>>, int), ParseError>(
            (ps, marco(ps).len() as int),
        ),
{
    let s = marco(ps) + resto;
    let n = ps.len();
    let d = numeral(n).len() as int;
    let cuerpo = marcos(ps);
    assert(s.subrange(0, 1 + d + 2 + cuerpo.len()) =~= seq![42u8] + numeral(n) + fin() + cuerpo);
    lema_encabezado(s, 0, 42u8, n, cuerpo);
    lema_bulks(s, 1 + d + 2, ps, Seq::<Seq<u8>>::empty());
    assert(Seq::<Seq<u8>>::empty() + ps =~= ps);
}

} // verus!
