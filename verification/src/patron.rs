//! Glob patterns over key names: `*` stands for any run of characters, `?`
//! for any one character, `[...]` for one character of a class. A class
//! lists characters and ranges (`a-z`); with `^` in front it stands for every
//! character that it does not list. Any other character stands for itself. A
//! `[` that is never closed matches nothing.
use vstd::prelude::*;
use crate::secuencias::primera;
use crate::texto::caracteres;

verus! {

/// Whether the class items `p[k..hasta]` list the character `x`.
pub open spec fn clase_lista(p: Seq<char>, k: int, hasta: int, x: char) -> bool
    decreases hasta - k,
{
    if k < 0 || k >= hasta || hasta > p.len() {
        false
    } else if k + 2 < hasta && p[k + 1] == '-' {
        (p[k] <= x && x <= p[k + 2]) || clase_lista(p, k + 3, hasta, x)
    } else {
        p[k] == x || clase_lista(p, k + 1, hasta, x)
    }
}

/// Whether the class whose body is `p[desde..hasta]` admits `x`.
pub open spec fn en_clase(p: Seq<char>, desde: int, hasta: int, x: char) -> bool {
    if desde < hasta && hasta <= p.len() && p[desde] == '^' {
        !clase_lista(p, desde + 1, hasta, x)
    } else {
        clase_lista(p, desde, hasta, x)
    }
}

/// Whether the pattern `p[i..]` matches the text `t[j..]`.
pub open spec fn coincide_desde(p: Seq<char>, i: int, t: Seq<char>, j: int) -> bool
    decreases p.len() - i, t.len() - j,
{
    if i < 0 || j < 0 || j > t.len() {
        false
    } else if i >= p.len() {
        j == t.len()
    } else if p[i] == '*' {
        coincide_desde(p, i + 1, t, j) || (j < t.len() && coincide_desde(p, i, t, j + 1))
    } else if j >= t.len() {
        false
    } else if p[i] == '?' {
        coincide_desde(p, i + 1, t, j + 1)
    } else if p[i] == '[' {
        match primera(p, ']', i + 1) {
            Some(cierre) => i < cierre < p.len() && en_clase(p, i + 1, cierre, t[j])
                && coincide_desde(p, cierre + 1, t, j + 1),
            None => false,
        }
    } else {
        p[i] == t[j] && coincide_desde(p, i + 1, t, j + 1)
    }
}

/// Whether the whole of `texto` matches the whole of `patron`.
pub open spec fn coincide(patron: Seq<char>, texto: Seq<char>) -> bool {
    coincide_desde(patron, 0, texto, 0)
}

fn lista(p: &Vec<char>, k: usize, hasta: usize, x: char) -> (r: bool)
    requires
        hasta <= p.len(),
    ensures
        r == clase_lista(p@, k as int, hasta as int, x),
    decreases hasta - k,
{
    if k >= hasta {
        false
    } else if hasta - k > 2 && p[k + 1] == '-' {
        (p[k] <= x && x <= p[k + 2]) || lista(p, k + 3, hasta, x)
    } else {
        p[k] == x || lista(p, k + 1, hasta, x)
    }
}

fn admite(p: &Vec<char>, desde: usize, hasta: usize, x: char) -> (r: bool)
    requires
        hasta <= p.len(),
    ensures
        r == en_clase(p@, desde as int, hasta as int, x),
{
    if desde < hasta && p[desde] == '^' {
        !lista(p, desde + 1, hasta, x)
    } else {
        lista(p, desde, hasta, x)
    }
}

fn cierre_de(p: &Vec<char>, desde: usize) -> (r: Option<usize>)
    requires
        desde <= p.len(),
    ensures
        match r {
            Some(c) => primera(p@, ']', desde as int) == Some(c as int) && desde <= c < p.len(),
            None => primera(p@, ']', desde as int) is None,
        },
{
    let mut k: usize = desde;
    while k < p.len()
        invariant
            desde <= k <= p.len(),
            primera(p@, ']', desde as int) == primera(p@, ']', k as int),
        decreases p.len() - k,
    {
        if p[k] == ']' {
            return Some(k);
        }
        k += 1;
    }
    None
}

/// Whether the pattern `p[i..]` matches the text `t[j..]`.
pub(crate) fn coincide_patron(p: &Vec<char>, i: usize, t: &Vec<char>, j: usize) -> (r: bool)
    requires
        i <= p.len(),
        j <= t.len(),
    ensures
        r == coincide_desde(p@, i as int, t@, j as int),
    decreases p.len() - i, t.len() - j,
{
    if i >= p.len() {
        j == t.len()
    } else if p[i] == '*' {
        coincide_patron(p, i + 1, t, j) || (j < t.len() && coincide_patron(p, i, t, j + 1))
    } else if j >= t.len() {
        false
    } else if p[i] == '?' {
        coincide_patron(p, i + 1, t, j + 1)
    } else if p[i] == '[' {
        match cierre_de(p, i + 1) {
            Some(cierre) => admite(p, i + 1, cierre, t[j]) && coincide_patron(
                p,
                cierre + 1,
                t,
                j + 1,
            ),
            None => false,
        }
    } else {
        p[i] == t[j] && coincide_patron(p, i + 1, t, j + 1)
    }
}

/// Whether `texto` matches the glob pattern `patron`.
pub fn coincide_texto(patron: &str, texto: &str) -> (r: bool)
    ensures
        r == coincide(patron@, texto@),
{
    let p = caracteres(patron);
    let t = caracteres(texto);
    coincide_patron(&p, 0, &t, 0)
}

} // verus!
