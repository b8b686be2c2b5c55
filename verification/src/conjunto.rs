//! The set value: texts without repetition, kept in the order in which they
//! first came in, so that a snapshot of a set is a function of the set.
use vstd::prelude::*;
use vstd::std_specs::cmp::PartialEqSpecImpl;
use vstd::string::*;
use crate::secuencias::{
    agregar, lema_agregar_sin_repetidos, lema_primera_contiene, primera, sin_duplicados,
    sin_repetidos,
};
use crate::texto::{lema_vista_textos_push, mismo_texto, vista_textos};

verus! {

/// A set of texts. Its view is the sequence of its members in insertion
/// order; no member occurs twice.
#[derive(Debug)]
pub struct Conjunto {
    elementos: Vec<String>,
}

impl View for Conjunto {
    type V = Seq<Seq<char>>;

    closed spec fn view(&self) -> Seq<Seq<char>> {
        vista_textos(self.elementos@)
    }
}

impl PartialEq for Conjunto {
    /// Two sets are equal iff they have the same members, in whatever order.
    fn eq(&self, other: &Self) -> (r: bool) {
        if self.elementos.len() != other.elementos.len() {
            return false;
        }
        let mut i: usize = 0;
        while i < self.elementos.len()
            invariant
                i <= self.elementos.len(),
                self@.len() == other@.len(),
                forall|k: int| 0 <= k < i ==> other@.contains(#[trigger] self@[k]),
            decreases self.elementos.len() - i,
        {
            if !other.contiene(self.elementos[i].as_str()) {
                assert(!other@.contains(self@[i as int]));
                return false;
            }
            i += 1;
        }
        true
    }
}

impl PartialEqSpecImpl for Conjunto {
    open spec fn obeys_eq_spec() -> bool {
        true
    }

    /// As many members, and each member of the one a member of the other;
    /// since neither repeats a member, the two have the same members.
    open spec fn eq_spec(&self, other: &Self) -> bool {
        self@.len() == other@.len() && forall|k: int|
            0 <= k < self@.len() ==> other@.contains(#[trigger] self@[k])
    }
}

impl Conjunto {
    /// What holds of every set: no member occurs twice.
    #[verifier::type_invariant]
    pub open spec fn bien_formado(&self) -> bool {
        sin_repetidos(self@)
    }

    /// The empty set.
    pub fn new() -> (c: Conjunto)
        ensures
            c@ == Seq::<Seq<char>>::empty(),
    {
        let c = Conjunto { elementos: Vec::new() };
        assert(c@ =~= Seq::<Seq<char>>::empty());
        c
    }

    /// The number of members.
    pub fn len(&self) -> (n: usize)
        ensures
            n == self@.len(),
            sin_repetidos(self@),
    {
        proof {
            use_type_invariant(self);
        }
        self.elementos.len()
    }

    /// The members, in insertion order.
    pub fn elementos(&self) -> (v: &Vec<String>)
        ensures
            vista_textos(v@) == self@,
            sin_repetidos(self@),
    {
        proof {
            use_type_invariant(self);
        }
        &self.elementos
    }

    /// Whether `texto` is a member.
    pub fn contiene(&self, texto: &str) -> (r: bool)
        ensures
            r == self@.contains(texto@),
    {
        let mut i: usize = 0;
        while i < self.elementos.len()
            invariant
                i <= self.elementos.len(),
                primera(self@, texto@, 0) == primera(self@, texto@, i as int),
            decreases self.elementos.len() - i,
        {
            if mismo_texto(self.elementos[i].as_str(), texto) {
                proof {
                    lema_primera_contiene(self@, texto@);
                }
                return true;
            }
            i += 1;
        }
        proof {
            lema_primera_contiene(self@, texto@);
        }
        false
    }

    /// Makes `texto` a member; says whether it was new.
    pub fn insertar(&mut self, texto: String) -> (nuevo: bool)
        ensures
            final(self)@ == agregar(old(self)@, texto@),
            nuevo == !old(self)@.contains(texto@),
            sin_repetidos(final(self)@),
    {
        proof {
            use_type_invariant(&*self);
            lema_agregar_sin_repetidos(self@, texto@);
        }
        if self.contiene(texto.as_str()) {
            false
        } else {
            let mut elementos: Vec<String> = Vec::new();
            core::mem::swap(&mut self.elementos, &mut elementos);
            proof {
                lema_vista_textos_push(elementos@, texto);
            }
            elementos.push(texto);
            core::mem::swap(&mut self.elementos, &mut elementos);
            true
        }
    }

    /// The set of the texts in `textos`, each kept where it first occurs.
    pub fn desde_vec(textos: &Vec<String>) -> (c: Conjunto)
        ensures
            c@ == sin_duplicados(vista_textos(textos@)),
            sin_repetidos(c@),
    {
        let mut c = Conjunto::new();
        let mut i: usize = 0;
        let ghost todos = vista_textos(textos@);
        assert(todos.take(0) =~= Seq::<Seq<char>>::empty());
        while i < textos.len()
            invariant
                i <= textos.len(),
                todos == vista_textos(textos@),
                c@ == sin_duplicados(todos.take(i as int)),
            decreases textos.len() - i,
        {
            proof {
                assert(todos.take(i + 1).drop_last() =~= todos.take(i as int));
                assert(todos.take(i + 1).last() == textos@[i as int]@);
            }
            c.insertar(textos[i].clone());
            i += 1;
        }
        assert(todos.take(i as int) =~= todos);
        proof {
            use_type_invariant(&c);
        }
        c
    }

    /// A copy with the same members in the same order.
    pub fn clonar(&self) -> (c: Conjunto)
        ensures
            c@ == self@,
    {
        proof {
            use_type_invariant(self);
        }
        let elementos = clonar_textos(&self.elementos);
        Conjunto { elementos }
    }
}

/// A copy of a vector of strings.
pub fn clonar_textos(v: &Vec<String>) -> (r: Vec<String>)
    ensures
        r@ == v@,
{
    let mut r: Vec<String> = Vec::new();
    let mut i: usize = 0;
    while i < v.len()
        invariant
            i <= v.len(),
            r@ == v@.take(i as int),
        decreases v.len() - i,
    {
        r.push(v[i].clone());
        assert(r@ =~= v@.take(i + 1));
        i += 1;
    }
    assert(v@.take(i as int) =~= v@);
    r
}

} // verus!
