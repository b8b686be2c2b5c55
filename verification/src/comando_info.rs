//! A parsed command: its name in upper case, and its arguments behind a
//! cursor. The first argument can be taken as the key, which is then
//! remembered; every other argument is handed out once.
use vstd::prelude::*;
use vstd::string::*;
use crate::texto::{a_mayusculas, en_mayusculas, vista_textos};

verus! {

/// The state of a command as contracts see it.
pub struct ComandoVista {
    /// The command name, in ASCII upper case.
    pub nombre: Seq<char>,
    /// The key, once it has been asked for and found.
    pub clave: Option<Seq<char>>,
    /// The arguments not handed out yet.
    pub pendientes: Seq<Seq<char>>,
}

impl ComandoVista {
    /// The command that a request of these words is: the first word is the
    /// name, the others wait as arguments. A request without words has the
    /// empty name.
    pub open spec fn de(palabras: Seq<Seq<char>>) -> ComandoVista {
        if palabras.len() == 0 {
            ComandoVista {
                nombre: Seq::<char>::empty(),
                clave: None,
                pendientes: Seq::<Seq<char>>::empty(),
            }
        } else {
            ComandoVista {
                nombre: en_mayusculas(palabras[0]),
                clave: None,
                pendientes: palabras.subrange(1, palabras.len() as int),
            }
        }
    }

    /// The key that asking for it yields: the remembered one, else the next
    /// argument if there is one.
    pub open spec fn clave_disponible(self) -> Option<Seq<char>> {
        match self.clave {
            Some(c) => Some(c),
            None => if self.pendientes.len() > 0 {
                Some(self.pendientes[0])
            } else {
                None
            },
        }
    }

    /// The command after its key was asked for.
    pub open spec fn tras_clave(self) -> ComandoVista {
        if self.clave is None && self.pendientes.len() > 0 {
            ComandoVista {
                nombre: self.nombre,
                clave: Some(self.pendientes[0]),
                pendientes: self.pendientes.drop_first(),
            }
        } else {
            self
        }
    }

    /// The argument that asking for one yields.
    pub open spec fn parametro_disponible(self) -> Option<Seq<char>> {
        if self.pendientes.len() > 0 {
            Some(self.pendientes[0])
        } else {
            None
        }
    }

    /// The command after an argument was asked for.
    pub open spec fn tras_parametro(self) -> ComandoVista {
        if self.pendientes.len() > 0 {
            ComandoVista {
                nombre: self.nombre,
                clave: self.clave,
                pendientes: self.pendientes.drop_first(),
            }
        } else {
            self
        }
    }
}

/// The view of an optional string.
pub open spec fn vista_opcional(o: Option<String>) -> Option<Seq<char>> {
    match o {
        Some(s) => Some(s@),
        None => None,
    }
}

/// A command as it was read from a request.
#[derive(Debug)]
pub struct ComandoInfo {
    nombre: String,
    argumentos: Vec<String>,
    siguiente: usize,
    clave: Option<String>,
}

impl View for ComandoInfo {
    type V = ComandoVista;

    closed spec fn view(&self) -> ComandoVista {
        ComandoVista {
            nombre: self.nombre@,
            clave: vista_opcional(self.clave),
            pendientes: vista_textos(self.argumentos@).subrange(
                self.siguiente as int,
                self.argumentos@.len() as int,
            ),
        }
    }
}

impl ComandoInfo {
    #[verifier::type_invariant]
    spec fn invariante(&self) -> bool {
        self.siguiente <= self.argumentos@.len()
    }

    /// The command that the words of a request make up.
    pub fn new(comando: Vec<String>) -> (c: ComandoInfo)
        ensures
            c@ == ComandoVista::de(vista_textos(comando@)),
    {
        if comando.len() == 0 {
            let c = ComandoInfo {
                nombre: String::new(),
                argumentos: comando,
                siguiente: 0,
                clave: None,
            };
            assert(c@.pendientes =~= Seq::<Seq<char>>::empty());
            c
        } else {
            let nombre = a_mayusculas(comando[0].as_str());
            ComandoInfo { nombre, argumentos: comando, siguiente: 1, clave: None }
        }
    }

    /// The command name, in upper case.
    pub fn get_nombre(&self) -> (n: String)
        ensures
            n@ == self@.nombre,
    {
        self.nombre.clone()
    }

    /// The key of the command: the first argument that was still waiting
    /// when the key was first asked for. It is remembered, so that asking
    /// again gives the same key and takes no further argument.
    pub fn get_clave(&mut self) -> (c: Option<String>)
        ensures
            vista_opcional(c) == old(self)@.clave_disponible(),
            final(self)@ == old(self)@.tras_clave(),
    {
        proof {
            use_type_invariant(&*self);
        }
        match &self.clave {
            Some(c) => Some(c.clone()),
            None => {
                if self.siguiente < self.argumentos.len() {
                    let c = self.argumentos[self.siguiente].clone();
                    let ghost antes = self@;
                    self.clave = Some(c.clone());
                    self.siguiente = self.siguiente + 1;
                    assert(self@.pendientes =~= antes.pendientes.drop_first());
                    Some(c)
                } else {
                    None
                }
            },
        }
    }

    /// The next argument, which is thereby used up.
    pub fn get_parametro(&mut self) -> (p: Option<String>)
        ensures
            vista_opcional(p) == old(self)@.parametro_disponible(),
            final(self)@ == old(self)@.tras_parametro(),
    {
        proof {
            use_type_invariant(&*self);
        }
        if self.siguiente < self.argumentos.len() {
            let p = self.argumentos[self.siguiente].clone();
            let ghost antes = self@;
            self.siguiente = self.siguiente + 1;
            assert(self@.pendientes =~= antes.pendientes.drop_first());
            Some(p)
        } else {
            None
        }
    }
}

} // verus!
