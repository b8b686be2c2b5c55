//! Sequences without repeated elements: the model of every roster in the
//! library (the members of a set, the subscribers of a channel, the keys of
//! the table), with the lemmas that the executable code rests on.
use vstd::prelude::*;

verus! {

/// The first position at or after `desde` where `x` occurs in `s`.
pub open spec fn primera<T>(s: Seq<T>, x: T, desde: int) -> Option<int>
    decreases s.len() - desde,
{
    if desde < 0 || desde >= s.len() {
        None
    } else if s[desde] == x {
        Some(desde)
    } else {
        primera(s, x, desde + 1)
    }
}

/// No element occurs at two positions.
pub open spec fn sin_repetidos<T>(s: Seq<T>) -> bool {
    forall|i: int, j: int| 0 <= i < j < s.len() ==> s[i] != s[j]
}

/// `s` with `x` at the end, unless `x` is already in it.
pub open spec fn agregar<T>(s: Seq<T>, x: T) -> Seq<T> {
    if s.contains(x) {
        s
    } else {
        s.push(x)
    }
}

/// `s` without the first occurrence of `x`.
pub open spec fn retirar<T>(s: Seq<T>, x: T) -> Seq<T> {
    match primera(s, x, 0) {
        Some(i) => s.remove(i),
        None => s,
    }
}

/// `s` with each element kept at its first occurrence only.
pub open spec fn sin_duplicados<T>(s: Seq<T>) -> Seq<T>
    decreases s.len(),
{
    if s.len() == 0 {
        s
    } else {
        agregar(sin_duplicados(s.drop_last()), s.last())
    }
}

pub proof fn lema_primera<T>(s: Seq<T>, x: T, desde: int)
    requires
        0 <= desde,
    ensures
        match primera(s, x, desde) {
            Some(i) => desde <= i < s.len() && s[i] == x && forall|j: int|
                desde <= j < i ==> s[j] != x,
            None => forall|j: int| desde <= j < s.len() ==> s[j] != x,
        },
    decreases s.len() - desde,
{
    if desde < s.len() && s[desde] != x {
        lema_primera(s, x, desde + 1);
    }
}

/// The converse: a position that holds `x`, with no `x` between `desde` and
/// it, is the one that `primera` finds; and it finds none where there is none.
pub proof fn lema_primera_es<T>(s: Seq<T>, x: T, desde: int, i: int)
    requires
        0 <= desde,
        forall|j: int| desde <= j < i && j < s.len() ==> s[j] != x,
        desde <= i,
        i < s.len() ==> s[i] == x,
    ensures
        primera(s, x, desde) == if i < s.len() {
            Some(i)
        } else {
            None
        },
    decreases s.len() - desde,
{
    if desde < s.len() && desde < i {
        lema_primera_es(s, x, desde + 1, i);
    }
}

pub proof fn lema_primera_contiene<T>(s: Seq<T>, x: T)
    ensures
        primera(s, x, 0) is Some <==> s.contains(x),
{
    lema_primera(s, x, 0);
    if primera(s, x, 0) is Some {
        assert(s[primera(s, x, 0)->0] == x);
    }
}

pub proof fn lema_agregar_sin_repetidos<T>(s: Seq<T>, x: T)
    requires
        sin_repetidos(s),
    ensures
        sin_repetidos(agregar(s, x)),
        agregar(s, x).contains(x),
{
    if !s.contains(x) {
        assert(s.push(x)[s.len() as int] == x);
    }
}

pub proof fn lema_push_contiene<T>(s: Seq<T>, x: T, y: T)
    ensures
        s.push(x).contains(y) <==> s.contains(y) || y == x,
{
    let r = s.push(x);
    if r.contains(y) {
        let i = choose|i: int| 0 <= i < r.len() && r[i] == y;
        if i < s.len() {
            assert(s[i] == y);
        }
    }
    if s.contains(y) {
        let i = choose|i: int| 0 <= i < s.len() && s[i] == y;
        assert(r[i] == y);
    }
    if y == x {
        assert(r[s.len() as int] == y);
    }
}

pub proof fn lema_agregar_contiene<T>(s: Seq<T>, x: T, y: T)
    ensures
        agregar(s, x).contains(y) <==> s.contains(y) || y == x,
{
    if !s.contains(x) {
        lema_push_contiene(s, x, y);
    }
}

pub proof fn lema_retirar<T>(s: Seq<T>, x: T)
    requires
        sin_repetidos(s),
    ensures
        sin_repetidos(retirar(s, x)),
        !retirar(s, x).contains(x),
        forall|y: T| y != x ==> (retirar(s, x).contains(y) <==> s.contains(y)),
        retirar(s, x).len() == if s.contains(x) {
            s.len() - 1
        } else {
            s.len() as int
        },
{
    lema_primera(s, x, 0);
    lema_primera_contiene(s, x);
    let r = retirar(s, x);
    match primera(s, x, 0) {
        Some(i) => {
            assert forall|a: int, b: int| 0 <= a < b < r.len() implies r[a] != r[b] by {
                let a2 = if a < i { a } else { a + 1 };
                let b2 = if b < i { b } else { b + 1 };
                assert(r[a] == s[a2] && r[b] == s[b2]);
            }
            if r.contains(x) {
                let a = choose|a: int| 0 <= a < r.len() && r[a] == x;
                let a2 = if a < i { a } else { a + 1 };
                assert(r[a] == s[a2]);
            }
            assert forall|y: T| y != x implies (r.contains(y) <==> s.contains(y)) by {
                if r.contains(y) {
                    let a = choose|a: int| 0 <= a < r.len() && r[a] == y;
                    let a2 = if a < i { a } else { a + 1 };
                    assert(s[a2] == y);
                }
                if s.contains(y) {
                    let b = choose|b: int| 0 <= b < s.len() && s[b] == y;
                    let b2 = if b < i { b } else { b - 1 };
                    assert(r[b2] == y);
                }
            }
        },
        None => {},
    }
}

pub proof fn lema_sin_duplicados<T>(s: Seq<T>)
    ensures
        sin_repetidos(sin_duplicados(s)),
        forall|x: T| sin_duplicados(s).contains(x) <==> s.contains(x),
        sin_repetidos(s) ==> sin_duplicados(s) == s,
    decreases s.len(),
{
    if s.len() > 0 {
        let p = s.drop_last();
        let d = sin_duplicados(p);
        lema_sin_duplicados(p);
        lema_agregar_sin_repetidos(d, s.last());
        assert forall|x: T| sin_duplicados(s).contains(x) <==> s.contains(x) by {
            lema_agregar_contiene(d, s.last(), x);
            assert(p.push(s.last()) =~= s);
            lema_push_contiene(p, s.last(), x);
        }
        if sin_repetidos(s) {
            assert(sin_repetidos(p));
            if p.contains(s.last()) {
                let i = choose|i: int| 0 <= i < p.len() && p[i] == s.last();
                assert(s[i] == s[s.len() - 1]);
            }
            assert(p.push(s.last()) =~= s);
        }
    }
}

} // verus!
