//! A client that speaks RESP over a socket, as far as the connection loop
//! has to decide about it: who it is, whether it still counts as connected,
//! what is to be written to it. The socket stays with the connection loop,
//! which reports here what it saw on it.
use vstd::prelude::*;
use vstd::std_specs::cmp::PartialEqSpecImpl;
use vstd::string::*;
use crate::canal::Token;
use crate::comando::ResultadoRedis;
use crate::comando_info::{ComandoInfo, ComandoVista};
use crate::parser::{codificada, parsear_respuesta, parsear_stream, peticion, ParseError};
use crate::texto::{decimal_nat, u64_a_cadena};

verus! {

/// Why talking to a client failed.
#[derive(Clone, Copy, Debug, PartialEq, Eq, Structural)]
pub enum RedisError {
    /// The socket is gone or failed.
    Coneccion,
    /// What the client sent is no request.
    Server,
}

/// The state of a client as contracts see it.
pub struct EstadoCliente {
    pub id: Token,
    /// The number of channels that the client is subscribed to.
    pub canales: nat,
    /// The seconds that the client may stay silent; none means for ever.
    pub timeout: Option<u64>,
    /// The clock reading, in milliseconds, of the last message to the client.
    pub ultimo_mensaje: u64,
    /// Whether the client still has a socket.
    pub con_socket: bool,
}

impl EstadoCliente {
    /// More than the idle time has gone by since the last message.
    pub open spec fn paso_el_timeout(self, ahora: u64) -> bool {
        match self.timeout {
            Some(d) => ahora >= self.ultimo_mensaje && ahora - self.ultimo_mensaje > d * 1000,
            None => false,
        }
    }

    /// The client counts as connected: it has a socket, a look at the socket
    /// found unread bytes, and the idle time has not gone by. `lectura` is
    /// the number of bytes that the look found, or nothing if it failed.
    pub open spec fn conectado(self, lectura: Option<usize>, ahora: u64) -> bool {
        &&& self.con_socket
        &&& lectura matches Some(n)
        &&& n != 0
        &&& !self.paso_el_timeout(ahora)
    }

    /// The client has a socket and a look at it found unread bytes.
    pub open spec fn envio(self, lectura: Option<usize>) -> bool {
        &&& self.con_socket
        &&& lectura matches Some(n)
        &&& n > 0
    }

    /// How the client is named in logs: its token and, where it is known,
    /// the address of its socket.
    pub open spec fn descripcion(self, direccion: Option<Seq<char>>) -> Seq<char> {
        match direccion {
            Some(d) => if self.con_socket {
                "Token: "@ + decimal_nat(self.id as nat) + " IP: "@ + d
            } else {
                "Token: "@ + decimal_nat(self.id as nat)
            },
            None => "Token: "@ + decimal_nat(self.id as nat),
        }
    }
}

/// What the connection loop keeps of a client besides its socket.
#[derive(Clone, Copy, Debug)]
pub struct ClienteRedis {
    id: Token,
    canales: usize,
    timeout: Option<u64>,
    ultimo_mensaje: u64,
    con_socket: bool,
}

impl View for ClienteRedis {
    type V = EstadoCliente;

    closed spec fn view(&self) -> EstadoCliente {
        EstadoCliente {
            id: self.id,
            canales: self.canales as nat,
            timeout: self.timeout,
            ultimo_mensaje: self.ultimo_mensaje,
            con_socket: self.con_socket,
        }
    }
}

impl PartialEq for ClienteRedis {
    /// Two handles are equal iff their tokens are.
    fn eq(&self, other: &Self) -> (r: bool) {
        self.id == other.id
    }
}

impl PartialEqSpecImpl for ClienteRedis {
    open spec fn obeys_eq_spec() -> bool {
        true
    }

    open spec fn eq_spec(&self, other: &Self) -> bool {
        self@.id == other@.id
    }
}

pub open spec fn vista_direccion(d: Option<&str>) -> Option<Seq<char>> {
    match d {
        Some(s) => Some(s@),
        None => None,
    }
}

impl ClienteRedis {
    /// A client with a socket, accepted at the clock reading `ahora`, that
    /// may stay silent for `timeout` seconds; 0 means for ever.
    pub fn new(id: Token, timeout: u64, ahora: u64) -> (c: ClienteRedis)
        ensures
            c@ == (EstadoCliente {
                id,
                canales: 0,
                timeout: if timeout == 0 {
                    None
                } else {
                    Some(timeout)
                },
                ultimo_mensaje: ahora,
                con_socket: true,
            }),
    {
        let duracion = if timeout == 0 {
            None
        } else {
            Some(timeout)
        };
        ClienteRedis { id, canales: 0, timeout: duracion, ultimo_mensaje: ahora, con_socket: true }
    }

    /// The same client after its socket was lost.
    pub fn sin_socket(&self) -> (c: ClienteRedis)
        ensures
            c@ == (EstadoCliente { con_socket: false, ..self@ }),
    {
        ClienteRedis { con_socket: false, ..*self }
    }

    /// Reads the command at the start of the bytes that came from the
    /// socket, and says how many bytes its frame takes. A client without
    /// socket gives `Coneccion`; bytes that are no request give `Server`.
    pub fn obtener_comando(&self, entrada: &[u8]) -> (r: Result<
        Option<(ComandoInfo, usize)>,
        RedisError,
    >)
        ensures
            match r {
                Ok(Some((c, n))) => self@.con_socket && peticion(entrada@) == Ok::<
                    (ComandoVista, int),
                    ParseError,
                >((c@, n as int)),
                Ok(None) => false,
                Err(RedisError::Coneccion) => !self@.con_socket,
                Err(RedisError::Server) => self@.con_socket && peticion(entrada@) is Err,
            },
    {
        if !self.con_socket {
            return Err(RedisError::Coneccion);
        }
        match parsear_stream(entrada) {
            Ok(orden) => Ok(Some(orden)),
            Err(_) => Err(RedisError::Server),
        }
    }

    /// The name of the client for logs. `direccion` is the local address of
    /// the socket, if it could be had.
    pub fn obtener_addr(&self, direccion: Option<&str>) -> (s: String)
        ensures
            s@ == self@.descripcion(vista_direccion(direccion)),
    {
        let mut s = "Token: ".to_owned();
        let id = u64_a_cadena(self.id);
        s.append(id.as_str());
        if self.con_socket {
            match direccion {
                Some(d) => {
                    s.append(" IP: ");
                    s.append(d);
                },
                None => {},
            }
        }
        s
    }

    /// Whether the client has sent something that waits to be read.
    /// `lectura` is the number of bytes that a look at the socket found, or
    /// nothing if the look failed.
    pub fn envio_informacion(&self, lectura: Option<usize>) -> (r: bool)
        ensures
            r == self@.envio(lectura),
    {
        self.con_socket && match lectura {
            Some(n) => n > 0,
            None => false,
        }
    }

    fn paso_el_timeout(&self, ahora: u64) -> (r: bool)
        ensures
            r == self@.paso_el_timeout(ahora),
    {
        match self.timeout {
            Some(d) => {
                if ahora >= self.ultimo_mensaje {
                    let pasado: u128 = (ahora - self.ultimo_mensaje) as u128;
                    let limite: u128 = (d as u128) * 1000;
                    pasado > limite
                } else {
                    false
                }
            },
            None => false,
        }
    }

    /// Whether the client counts as connected at the clock reading `ahora`.
    pub fn esta_conectado(&self, lectura: Option<usize>, ahora: u64) -> (r: bool)
        ensures
            r == self@.conectado(lectura, ahora),
    {
        if !self.con_socket {
            return false;
        }
        let esta_conectado = match lectura {
            Some(len) => len != 0,
            None => false,
        };
        let paso_el_timeout = self.paso_el_timeout(ahora);
        esta_conectado && !paso_el_timeout
    }

    /// The frame of `resultado`, to be written to the socket at the clock
    /// reading `ahora`.
    pub fn enviar_resultado(&mut self, resultado: &ResultadoRedis, ahora: u64) -> (r: Result<
        String,
        RedisError,
    >)
        ensures
            final(self)@ == (EstadoCliente { ultimo_mensaje: ahora, ..old(self)@ }),
            match r {
                Ok(s) => old(self)@.con_socket && s@ == codificada(resultado@),
                Err(e) => !old(self)@.con_socket && e == RedisError::Coneccion,
            },
    {
        let mensaje = parsear_respuesta(resultado);
        self.enviar_mensaje(mensaje, ahora)
    }

    /// Hands back `mensaje` to be written to the socket at the clock reading
    /// `ahora`, which becomes the time of the last message. A client
    /// without socket gives `Coneccion`.
    pub fn enviar_mensaje(&mut self, mensaje: String, ahora: u64) -> (r: Result<String, RedisError>)
        ensures
            final(self)@ == (EstadoCliente { ultimo_mensaje: ahora, ..old(self)@ }),
            match r {
                Ok(s) => old(self)@.con_socket && s@ == mensaje@,
                Err(e) => !old(self)@.con_socket && e == RedisError::Coneccion,
            },
    {
        self.ultimo_mensaje = ahora;
        if !self.con_socket {
            return Err(RedisError::Coneccion);
        }
        Ok(mensaje)
    }

    pub fn obtener_token(&self) -> (t: Token)
        ensures
            t == self@.id,
    {
        self.id
    }

    /// Every command is open to a client of this kind.
    pub fn soporta_comando(&self, _comando: &str) -> (r: bool)
        ensures
            r,
    {
        true
    }
}

} // verus!
