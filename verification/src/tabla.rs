//! The keyed table behind the store and its snapshots: keys with their
//! values, in the order in which the keys first came in, no key twice.
use vstd::prelude::*;
use vstd::string::*;
use crate::secuencias::{
    lema_primera, lema_primera_contiene, lema_primera_es, lema_retirar, primera, retirar,
    sin_repetidos,
};
use crate::texto::mismo_texto;
use crate::valor::{Valor, ValorVista};

verus! {

/// The rows of a table as contracts see them: each key with its value.
pub type Filas = Seq<(Seq<char>, ValorVista)>;

/// The keys of the rows, in order.
pub open spec fn claves(f: Filas) -> Seq<Seq<char>> {
    f.map_values(|e: (Seq<char>, ValorVista)| e.0)
}

/// The position of the row of key `clave`.
pub open spec fn buscar(f: Filas, clave: Seq<char>) -> Option<int> {
    primera(claves(f), clave, 0)
}

/// The value under `clave`.
pub open spec fn valor_de(f: Filas, clave: Seq<char>) -> Option<ValorVista> {
    match buscar(f, clave) {
        Some(i) => Some(f[i].1),
        None => None,
    }
}

/// The rows after `valor` is stored under `clave`: in the place of the old
/// value of that key, else at the end.
pub open spec fn poner(f: Filas, clave: Seq<char>, valor: ValorVista) -> Filas {
    match buscar(f, clave) {
        Some(i) => f.update(i, (clave, valor)),
        None => f.push((clave, valor)),
    }
}

/// The rows without the one of key `clave`.
pub open spec fn quitar(f: Filas, clave: Seq<char>) -> Filas {
    match buscar(f, clave) {
        Some(i) => f.remove(i),
        None => f,
    }
}

/// No key has two rows.
pub open spec fn claves_unicas(f: Filas) -> bool {
    sin_repetidos(claves(f))
}

/// Storing under a key changes what that key holds and nothing else, and
/// keeps the keys unique.
pub proof fn lema_poner(f: Filas, clave: Seq<char>, valor: ValorVista, otra: Seq<char>)
    ensures
        valor_de(poner(f, clave, valor), otra) == if otra == clave {
            Some(valor)
        } else {
            valor_de(f, otra)
        },
        claves_unicas(f) ==> claves_unicas(poner(f, clave, valor)),
        poner(f, clave, valor).len() == if valor_de(f, clave) is Some {
            f.len()
        } else {
            f.len() + 1
        },
{
    let g = poner(f, clave, valor);
    lema_primera(claves(f), clave, 0);
    lema_primera(claves(f), otra, 0);
    match buscar(f, clave) {
        Some(i) => {
            assert(claves(g) =~= claves(f));
            if otra != clave && buscar(f, otra) is Some {
                assert(buscar(f, otra)->0 != i);
            }
        },
        None => {
            assert(claves(g) =~= claves(f).push(clave));
            match buscar(f, otra) {
                Some(j) => {
                    lema_primera_es(claves(g), otra, 0, j);
                },
                None => {
                    if otra == clave {
                        lema_primera_es(claves(g), otra, 0, f.len() as int);
                    } else {
                        lema_primera_es(claves(g), otra, 0, g.len() as int);
                    }
                },
            }
        },
    }
}

/// Removing a key leaves every other key as it was, and keeps the keys
/// unique.
pub proof fn lema_quitar(f: Filas, clave: Seq<char>, otra: Seq<char>)
    requires
        claves_unicas(f),
    ensures
        valor_de(quitar(f, clave), otra) == if otra == clave {
            None
        } else {
            valor_de(f, otra)
        },
        claves_unicas(quitar(f, clave)),
        quitar(f, clave).len() == if valor_de(f, clave) is Some {
            f.len() - 1
        } else {
            f.len() as int
        },
{
    let g = quitar(f, clave);
    lema_primera(claves(f), clave, 0);
    lema_primera(claves(f), otra, 0);
    lema_retirar(claves(f), clave);
    match buscar(f, clave) {
        Some(i) => {
            assert(claves(g) =~= retirar(claves(f), clave));
            lema_primera_contiene(claves(g), clave);
            if otra != clave {
                match buscar(f, otra) {
                    Some(j) => {
                        let j2 = if j < i {
                            j
                        } else {
                            j - 1
                        };
                        assert(claves(g)[j2] == otra);
                        assert forall|k: int| 0 <= k < j2 implies claves(g)[k] != otra by {
                            let k2 = if k < i {
                                k
                            } else {
                                k + 1
                            };
                            assert(claves(g)[k] == claves(f)[k2]);
                        }
                        lema_primera_es(claves(g), otra, 0, j2);
                    },
                    None => {
                        assert forall|k: int| 0 <= k < g.len() implies claves(g)[k] != otra by {
                            let k2 = if k < i {
                                k
                            } else {
                                k + 1
                            };
                            assert(claves(g)[k] == claves(f)[k2]);
                        }
                        lema_primera_es(claves(g), otra, 0, g.len() as int);
                    },
                }
            }
        },
        None => {},
    }
}

/// A key with its value.
#[derive(Debug)]
pub struct Entrada {
    clave: String,
    valor: Valor,
}

impl View for Entrada {
    type V = (Seq<char>, ValorVista);

    closed spec fn view(&self) -> (Seq<char>, ValorVista) {
        (self.clave@, self.valor@)
    }
}

impl Entrada {
    pub fn new(clave: String, valor: Valor) -> (e: Entrada)
        ensures
            e@ == (clave@, valor@),
    {
        Entrada { clave, valor }
    }

    /// The key and the value, apart.
    pub fn separar(self) -> (par: (String, Valor))
        ensures
            par.0@ == self@.0,
            par.1@ == self@.1,
    {
        (self.clave, self.valor)
    }

    pub fn clave(&self) -> (c: &String)
        ensures
            c@ == self@.0,
    {
        &self.clave
    }

    pub fn valor(&self) -> (v: &Valor)
        ensures
            v@ == self@.1,
    {
        &self.valor
    }
}

pub open spec fn vista_entradas(v: Seq<Entrada>) -> Filas {
    v.map_values(|e: Entrada| e@)
}

/// A table of keys and values; what a keyed map is, with the order of
/// insertion kept.
#[derive(Debug)]
pub struct Tabla {
    entradas: Vec<Entrada>,
}

impl View for Tabla {
    type V = Filas;

    closed spec fn view(&self) -> Filas {
        vista_entradas(self.entradas@)
    }
}

impl Tabla {
    /// What holds of every table: no key has two rows.
    #[verifier::type_invariant]
    pub open spec fn bien_formada(&self) -> bool {
        claves_unicas(self@)
    }

    /// The empty table.
    pub fn new() -> (t: Tabla)
        ensures
            t@ == Seq::<(Seq<char>, ValorVista)>::empty(),
    {
        let t = Tabla { entradas: Vec::new() };
        assert(t@ =~= Seq::<(Seq<char>, ValorVista)>::empty());
        t
    }

    /// The number of keys.
    pub fn len(&self) -> (n: usize)
        ensures
            n == self@.len(),
            claves_unicas(self@),
    {
        proof {
            use_type_invariant(self);
        }
        self.entradas.len()
    }

    /// The row at position `i`.
    pub fn entrada(&self, i: usize) -> (e: &Entrada)
        requires
            i < self@.len(),
        ensures
            e@ == self@[i as int],
    {
        &self.entradas[i]
    }

    fn posicion(&self, clave: &str) -> (r: Option<usize>)
        ensures
            match r {
                Some(i) => buscar(self@, clave@) == Some(i as int) && i < self@.len(),
                None => buscar(self@, clave@) is None,
            },
    {
        let mut i: usize = 0;
        while i < self.entradas.len()
            invariant
                i <= self.entradas.len(),
                buscar(self@, clave@) == primera(claves(self@), clave@, i as int),
            decreases self.entradas.len() - i,
        {
            if mismo_texto(self.entradas[i].clave.as_str(), clave) {
                return Some(i);
            }
            i += 1;
        }
        None
    }

    /// The value under `clave`.
    pub fn obtener(&self, clave: &str) -> (r: Option<&Valor>)
        ensures
            match r {
                Some(v) => valor_de(self@, clave@) == Some(v@),
                None => valor_de(self@, clave@) is None,
            },
    {
        match self.posicion(clave) {
            Some(i) => Some(&self.entradas[i].valor),
            None => None,
        }
    }

    /// Stores `valor` under `clave`, in the place of what the key held.
    pub fn insertar(&mut self, clave: String, valor: Valor)
        ensures
            final(self)@ == poner(old(self)@, clave@, valor@),
            claves_unicas(final(self)@),
    {
        proof {
            use_type_invariant(&*self);
            lema_poner(self@, clave@, valor@, clave@);
        }
        let posicion = self.posicion(clave.as_str());
        let ghost antes = self@;
        let nueva = Entrada { clave, valor };
        let mut entradas: Vec<Entrada> = Vec::new();
        core::mem::swap(&mut self.entradas, &mut entradas);
        assert(vista_entradas(self.entradas@) =~= Seq::<(Seq<char>, ValorVista)>::empty());
        match posicion {
            Some(i) => {
                entradas.set(i, nueva);
                assert(vista_entradas(entradas@) =~= antes.update(i as int, nueva@));
            },
            None => {
                entradas.push(nueva);
                assert(vista_entradas(entradas@) =~= antes.push(nueva@));
            },
        }
        core::mem::swap(&mut self.entradas, &mut entradas);
    }

    /// Removes `clave`; says whether the table held it.
    pub fn eliminar(&mut self, clave: &str) -> (estaba: bool)
        ensures
            final(self)@ == quitar(old(self)@, clave@),
            estaba == valor_de(old(self)@, clave@) is Some,
            claves_unicas(final(self)@),
    {
        proof {
            use_type_invariant(&*self);
            lema_quitar(self@, clave@, clave@);
        }
        match self.posicion(clave) {
            Some(i) => {
                let ghost antes = self@;
                let mut entradas: Vec<Entrada> = Vec::new();
                core::mem::swap(&mut self.entradas, &mut entradas);
                assert(vista_entradas(self.entradas@) =~= Seq::<(Seq<char>, ValorVista)>::empty());
                entradas.remove(i);
                assert(vista_entradas(entradas@) =~= antes.remove(i as int));
                core::mem::swap(&mut self.entradas, &mut entradas);
                true
            },
            None => false,
        }
    }

    /// A copy with the same rows.
    pub fn clonar(&self) -> (t: Tabla)
        ensures
            t@ == self@,
            claves_unicas(t@),
    {
        proof {
            use_type_invariant(self);
        }
        let mut entradas: Vec<Entrada> = Vec::new();
        let mut i: usize = 0;
        while i < self.entradas.len()
            invariant
                i <= self.entradas.len(),
                vista_entradas(entradas@) == self@.take(i as int),
            decreases self.entradas.len() - i,
        {
            let e = &self.entradas[i];
            let copia = Entrada { clave: e.clave.clone(), valor: e.valor.clonar() };
            let ghost antes = entradas@;
            let ghost vista = copia@;
            entradas.push(copia);
            proof {
                assert(vista == self@[i as int]);
                assert(vista_entradas(entradas@) =~= vista_entradas(antes).push(vista));
                assert(self@.take(i + 1) =~= self@.take(i as int).push(self@[i as int]));
            }
            i += 1;
        }
        assert(self@.take(i as int) =~= self@);
        Tabla { entradas }
    }
}

} // verus!
