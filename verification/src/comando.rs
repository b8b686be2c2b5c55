//! The values that commands work on and the replies that they give.
use vstd::prelude::*;
use vstd::string::*;
use crate::base_de_datos::{BaseDeDatos, EstadoBase};
use crate::canal::{Canal, Cliente, Token};
use crate::comando_info::ComandoInfo;
use crate::comando_pubsub_handler::{
    efecto_de_pubsub, es_comando_pubsub, operacion_pubsub, ComandoPubSubHandler, OperacionPubSub,
};
use crate::comando_string_handler::{
    efecto_string, error, error_desconocido, es_comando_string, operacion_string,
    ComandoStringHandler, OperacionString,
};
use crate::comando_info::ComandoVista;
use crate::conjunto::{clonar_textos, Conjunto};
use crate::texto::vista_textos;

verus! {

/// The reply to a command, before it is framed for the wire.
#[derive(Debug, PartialEq)]
pub enum ResultadoRedis {
    StrSimple(String),
    BulkStr(String),
    Int(usize),
    Vector(Vec<ResultadoRedis>),
    Error(String),
    /// The absent bulk string.
    Nulo,
    /// The absent array.
    VectorNulo,
}

/// The mathematical content of a reply.
pub enum Respuesta {
    StrSimple(Seq<char>),
    BulkStr(Seq<char>),
    Int(nat),
    Vector(Seq<Respuesta>),
    Error(Seq<char>),
    Nulo,
    VectorNulo,
}

/// The contents of the first `n` replies of `v`.
pub open spec fn vista_respuestas(v: Seq<ResultadoRedis>, n: int) -> Seq<Respuesta>
    decreases v, n,
{
    if n <= 0 || n > v.len() {
        Seq::empty()
    } else {
        vista_respuestas(v, n - 1).push(v[n - 1].contenido())
    }
}

impl ResultadoRedis {
    /// The content of the reply.
    pub open spec fn contenido(self) -> Respuesta
        decreases self,
    {
        match self {
            ResultadoRedis::StrSimple(s) => Respuesta::StrSimple(s@),
            ResultadoRedis::BulkStr(s) => Respuesta::BulkStr(s@),
            ResultadoRedis::Int(n) => Respuesta::Int(n as nat),
            ResultadoRedis::Vector(v) => Respuesta::Vector(vista_respuestas(v@, v@.len() as int)),
            ResultadoRedis::Error(s) => Respuesta::Error(s@),
            ResultadoRedis::Nulo => Respuesta::Nulo,
            ResultadoRedis::VectorNulo => Respuesta::VectorNulo,
        }
    }
}

impl View for ResultadoRedis {
    type V = Respuesta;

    open spec fn view(&self) -> Respuesta {
        self.contenido()
    }
}

pub proof fn lema_vista_respuestas(v: Seq<ResultadoRedis>, n: int)
    requires
        0 <= n <= v.len(),
    ensures
        vista_respuestas(v, n).len() == n,
        forall|i: int| 0 <= i < n ==> (#[trigger] vista_respuestas(v, n)[i]) == v[i]@,
    decreases n,
{
    if n > 0 {
        lema_vista_respuestas(v, n - 1);
    }
}

/// The content of a vector of replies is the contents of its replies.
pub proof fn lema_vista_respuestas_push(v: Seq<ResultadoRedis>, r: ResultadoRedis)
    ensures
        vista_respuestas(v.push(r), v.len() as int + 1) == vista_respuestas(v, v.len() as int).push(r@),
{
    let w = v.push(r);
    lema_vista_respuestas(w, w.len() as int);
    lema_vista_respuestas(v, v.len() as int);
    assert(vista_respuestas(w, w.len() as int) =~= vista_respuestas(v, v.len() as int).push(r@));
}

/// What a key can hold.
#[derive(Debug, PartialEq)]
pub enum TipoRedis {
    Str(String),
    Lista(Vec<String>),
    Conjunto(Conjunto),
    Canal(Canal),
}

/// The mathematical content of a `TipoRedis`: a text, a list of texts, the
/// members of a set in insertion order, or the tokens of the subscribers of
/// a channel in subscription order.
pub enum Dato {
    Texto(Seq<char>),
    Lista(Seq<Seq<char>>),
    Conjunto(Seq<Seq<char>>),
    Canal(Seq<Token>),
}

impl View for TipoRedis {
    type V = Dato;

    open spec fn view(&self) -> Dato {
        match self {
            TipoRedis::Str(s) => Dato::Texto(s@),
            TipoRedis::Lista(l) => Dato::Lista(vista_textos(l@)),
            TipoRedis::Conjunto(c) => Dato::Conjunto(c@),
            TipoRedis::Canal(c) => Dato::Canal(c@),
        }
    }
}

impl TipoRedis {
    /// A copy that holds the same content.
    pub fn clonar(&self) -> (r: TipoRedis)
        ensures
            r@ == self@,
    {
        match self {
            TipoRedis::Str(s) => TipoRedis::Str(s.clone()),
            TipoRedis::Lista(l) => TipoRedis::Lista(clonar_textos(l)),
            TipoRedis::Conjunto(c) => TipoRedis::Conjunto(c.clonar()),
            TipoRedis::Canal(c) => TipoRedis::Canal(c.clonar()),
        }
    }
}

/// What a command leaves behind: its reply, the command with the arguments
/// that it did not use, and the store.
pub struct Efecto {
    pub respuesta: Respuesta,
    pub comando: ComandoVista,
    pub base: EstadoBase,
}

/// A command that is ready to run against the store.
pub trait ComandoHandler: Sized {
    /// What running the command on a store in the state `base` does: the
    /// reply, and the store afterwards.
    spec fn efecto(self, base: EstadoBase) -> Efecto;

    /// Runs the command.
    fn ejecutar(self, bdd: &mut BaseDeDatos) -> (r: ResultadoRedis)
        ensures
            r@ == self.efecto(old(bdd)@).respuesta,
            final(bdd)@ == self.efecto(old(bdd)@).base,
    ;
}

/// What the command `c` of the client `cliente` does on a store in the state
/// `b`. The command name chooses the family: the string commands, the
/// pub/sub commands; any other name is answered with an error and changes
/// nothing.
pub open spec fn efecto_comando(c: ComandoVista, cliente: Token, b: EstadoBase) -> Efecto {
    if operacion_string(c.nombre) != OperacionString::Desconocida {
        efecto_string(operacion_string(c.nombre), c, b)
    } else if operacion_pubsub(c.nombre) != OperacionPubSub::Desconocida {
        efecto_de_pubsub(operacion_pubsub(c.nombre), c, cliente, b)
    } else {
        Efecto { respuesta: error_desconocido(), comando: c, base: b }
    }
}

/// A command with the handler of its family.
#[derive(Debug)]
pub enum Manejador {
    Cadenas(ComandoStringHandler),
    PubSub(ComandoPubSubHandler),
    Desconocido(ComandoInfo),
}

impl ComandoHandler for Manejador {
    open spec fn efecto(self, base: EstadoBase) -> Efecto {
        match self {
            Manejador::Cadenas(h) => h.efecto(base),
            Manejador::PubSub(h) => h.efecto(base),
            Manejador::Desconocido(c) => Efecto {
                respuesta: error_desconocido(),
                comando: c@,
                base,
            },
        }
    }

    fn ejecutar(self, bdd: &mut BaseDeDatos) -> (r: ResultadoRedis) {
        match self {
            Manejador::Cadenas(h) => h.ejecutar(bdd),
            Manejador::PubSub(h) => h.ejecutar(bdd),
            Manejador::Desconocido(_) => error("unknown command"),
        }
    }
}

/// The handler that runs `comando` on behalf of `cliente`.
pub fn crear_comando_handler(comando: ComandoInfo, cliente: Cliente) -> (m: Manejador)
    ensures
        forall|b: EstadoBase| #[trigger] m.efecto(b) == efecto_comando(comando@, cliente.token, b),
{
    let nombre = comando.get_nombre();
    if es_comando_string(nombre.as_str()) {
        Manejador::Cadenas(ComandoStringHandler::new(comando))
    } else if es_comando_pubsub(nombre.as_str()) {
        Manejador::PubSub(ComandoPubSubHandler::new(comando, cliente))
    } else {
        Manejador::Desconocido(comando)
    }
}

} // verus!
