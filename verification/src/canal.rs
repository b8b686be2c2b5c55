//! Pub/sub channels: a channel is the ordered roster of the clients that
//! subscribed to it, each known by its token. Publishing does no I/O here: it
//! yields one delivery per subscriber, in subscription order, for the
//! connection layer to carry out.
use vstd::prelude::*;
use vstd::string::*;
use crate::secuencias::{
    agregar, lema_agregar_sin_repetidos, lema_primera, lema_primera_contiene, lema_retirar, primera,
    retirar, sin_repetidos,
};

verus! {

/// The identity of a client: two handles are the same client iff their
/// tokens are equal.
pub type Token = u64;

/// A client handle as the command handlers see it.
#[derive(Clone, Copy, Debug, PartialEq, Eq, Structural)]
pub struct Cliente {
    pub token: Token,
}

impl Cliente {
    pub fn new(token: Token) -> (c: Cliente)
        ensures
            c.token == token,
    {
        Cliente { token }
    }

    pub fn obtener_token(&self) -> (t: Token)
        ensures
            t == self.token,
    {
        self.token
    }
}

/// A message on its way to one subscriber.
#[derive(Debug, PartialEq, Eq)]
pub struct Envio {
    pub destino: Token,
    pub mensaje: String,
}

impl View for Envio {
    type V = (Token, Seq<char>);

    open spec fn view(&self) -> (Token, Seq<char>) {
        (self.destino, self.mensaje@)
    }
}

pub open spec fn vista_envios(v: Seq<Envio>) -> Seq<(Token, Seq<char>)> {
    v.map_values(|e: Envio| e@)
}

/// One delivery of `mensaje` for each of `suscriptores`, in their order.
pub open spec fn envios_de(suscriptores: Seq<Token>, mensaje: Seq<char>) -> Seq<
    (Token, Seq<char>),
> {
    suscriptores.map_values(|t: Token| (t, mensaje))
}

/// The subscribers of one channel, in subscription order, none twice.
#[derive(Debug, PartialEq, Eq)]
pub struct Canal {
    suscriptores: Vec<Token>,
}

impl View for Canal {
    type V = Seq<Token>;

    closed spec fn view(&self) -> Seq<Token> {
        self.suscriptores@
    }
}

impl Canal {
    /// What holds of every channel: no client is subscribed twice.
    #[verifier::type_invariant]
    pub open spec fn bien_formado(&self) -> bool {
        sin_repetidos(self@)
    }

    /// A channel without subscribers.
    pub fn new() -> (c: Canal)
        ensures
            c@ == Seq::<Token>::empty(),
    {
        Canal { suscriptores: Vec::new() }
    }

    /// The number of subscribers.
    pub fn len(&self) -> (n: usize)
        ensures
            n == self@.len(),
            sin_repetidos(self@),
    {
        proof {
            use_type_invariant(self);
        }
        self.suscriptores.len()
    }

    /// Whether `cliente` is subscribed.
    pub fn esta_suscripto(&self, cliente: Cliente) -> (r: bool)
        ensures
            r == self@.contains(cliente.token),
    {
        self.posicion(cliente.token).is_some()
    }

    fn posicion(&self, token: Token) -> (r: Option<usize>)
        ensures
            match r {
                Some(i) => primera(self@, token, 0) == Some(i as int),
                None => primera(self@, token, 0) is None,
            },
            r is Some <==> self@.contains(token),
    {
        let mut i: usize = 0;
        while i < self.suscriptores.len()
            invariant
                i <= self.suscriptores.len(),
                primera(self@, token, 0) == primera(self@, token, i as int),
            decreases self.suscriptores.len() - i,
        {
            if self.suscriptores[i] == token {
                proof {
                    lema_primera_contiene(self@, token);
                }
                return Some(i);
            }
            i += 1;
        }
        proof {
            lema_primera_contiene(self@, token);
        }
        None
    }

    /// Adds `cliente` at the end of the roster, unless it is already there.
    pub fn suscribirse(&mut self, cliente: Cliente)
        ensures
            final(self)@ == agregar(old(self)@, cliente.token),
            sin_repetidos(final(self)@),
    {
        proof {
            use_type_invariant(&*self);
            lema_agregar_sin_repetidos(self@, cliente.token);
        }
        if self.posicion(cliente.token).is_none() {
            let mut suscriptores: Vec<Token> = Vec::new();
            core::mem::swap(&mut self.suscriptores, &mut suscriptores);
            suscriptores.push(cliente.token);
            core::mem::swap(&mut self.suscriptores, &mut suscriptores);
        }
    }

    /// Takes `cliente` off the roster; nothing changes if it is not there.
    pub fn desuscribirse(&mut self, cliente: Cliente)
        ensures
            final(self)@ == retirar(old(self)@, cliente.token),
            sin_repetidos(final(self)@),
    {
        proof {
            use_type_invariant(&*self);
            lema_retirar(self@, cliente.token);
        }
        match self.posicion(cliente.token) {
            Some(i) => {
                proof {
                    lema_primera(self@, cliente.token, 0);
                }
                let mut suscriptores: Vec<Token> = Vec::new();
                core::mem::swap(&mut self.suscriptores, &mut suscriptores);
                suscriptores.remove(i);
                core::mem::swap(&mut self.suscriptores, &mut suscriptores);
            },
            None => {},
        }
    }

    /// The deliveries that publishing `mensaje` asks for: one for each
    /// subscriber, in subscription order. Their number is the count that a
    /// publish reports.
    pub fn publicar(&self, mensaje: &str) -> (envios: Vec<Envio>)
        ensures
            vista_envios(envios@) == envios_de(self@, mensaje@),
            envios@.len() == self@.len(),
    {
        let mut envios: Vec<Envio> = Vec::new();
        let mut i: usize = 0;
        while i < self.suscriptores.len()
            invariant
                i <= self.suscriptores.len(),
                vista_envios(envios@) == envios_de(self@.take(i as int), mensaje@),
                envios@.len() == i,
            decreases self.suscriptores.len() - i,
        {
            let e = Envio { destino: self.suscriptores[i], mensaje: mensaje.to_owned() };
            let ghost antes = envios@;
            let ghost vista = e@;
            envios.push(e);
            proof {
                assert(vista_envios(envios@) =~= vista_envios(antes).push(vista));
                assert(self@.take(i + 1) =~= self@.take(i as int).push(self@[i as int]));
                assert(envios_de(self@.take(i + 1), mensaje@) =~= envios_de(
                    self@.take(i as int),
                    mensaje@,
                ).push(vista));
            }
            i += 1;
        }
        assert(self@.take(i as int) =~= self@);
        envios
    }

    /// A copy of the channel with the same roster.
    pub fn clonar(&self) -> (c: Canal)
        ensures
            c@ == self@,
    {
        proof {
            use_type_invariant(self);
        }
        let mut suscriptores: Vec<Token> = Vec::new();
        let mut i: usize = 0;
        while i < self.suscriptores.len()
            invariant
                i <= self.suscriptores.len(),
                suscriptores@ == self@.take(i as int),
            decreases self.suscriptores.len() - i,
        {
            suscriptores.push(self.suscriptores[i]);
            assert(suscriptores@ =~= self@.take(i + 1));
            i += 1;
        }
        assert(self@.take(i as int) =~= self@);
        Canal { suscriptores }
    }
}

} // verus!
