//! The pub/sub commands: SUBSCRIBE, UNSUBSCRIBE, PUBLISH and PUBSUB with its
//! two queries, CHANNELS and NUMSUB.
//!
//! A channel is a value of the store. Publishing sends nothing by itself: it
//! leaves one delivery per subscriber in the outbox of the store.
use vstd::prelude::*;
use vstd::string::*;
use crate::base_de_datos::{permanente, BaseDeDatos, EstadoBase};
use crate::canal::{envios_de, Canal, Cliente, Token};
use crate::comando::{
    lema_vista_respuestas_push, ComandoHandler, Dato, Efecto, Respuesta, ResultadoRedis, TipoRedis,
};
use crate::comando_info::{ComandoInfo, ComandoVista};
use crate::comando_string_handler::{error, error_desconocido, error_sin_clave, error_sin_parametro};
use crate::secuencias::{agregar, retirar};
use crate::texto::{mismo_texto, vista_textos};

verus! {

pub open spec fn error_no_es_canal() -> Respuesta {
    Respuesta::Error("WrongType tipo de dato no es un canal"@)
}

/// The reply of SUBSCRIBE and UNSUBSCRIBE: 1 if a channel was touched.
pub open spec fn respuesta_de_suscripcion(alguno: bool) -> Respuesta {
    if alguno {
        Respuesta::Int(1)
    } else {
        Respuesta::Int(0)
    }
}

/// SUBSCRIBE, from the next argument on: each argument names a channel, which
/// comes into being if the key is absent, and the client joins it. A key that
/// holds anything but a channel ends the command with an error; the channels
/// before it keep the subscription.
pub open spec fn suscribir_todos(
    c: ComandoVista,
    cliente: Token,
    b: EstadoBase,
    alguno: bool,
) -> Efecto
    decreases c.pendientes.len(),
{
    match c.parametro_disponible() {
        None => Efecto { respuesta: respuesta_de_suscripcion(alguno), comando: c, base: b },
        Some(k) => {
            let c1 = c.tras_parametro();
            let b1 = b.tras_obtener(k);
            match b.visible(k) {
                Some(Dato::Canal(s)) => suscribir_todos(
                    c1,
                    cliente,
                    b1.tras_guardar(k, permanente(Dato::Canal(agregar(s, cliente)))),
                    true,
                ),
                Some(_) => Efecto { respuesta: error_no_es_canal(), comando: c1, base: b1 },
                None => suscribir_todos(
                    c1,
                    cliente,
                    b1.tras_guardar(
                        k,
                        permanente(Dato::Canal(agregar(Seq::<Token>::empty(), cliente))),
                    ),
                    true,
                ),
            }
        },
    }
}

pub open spec fn efecto_subscribe(c: ComandoVista, cliente: Token, b: EstadoBase) -> Efecto {
    suscribir_todos(c, cliente, b, false)
}

/// UNSUBSCRIBE, from the next argument on: the client leaves each channel
/// named. A key that is absent or holds anything but a channel ends the
/// command with an error.
pub open spec fn desuscribir_todos(
    c: ComandoVista,
    cliente: Token,
    b: EstadoBase,
    alguno: bool,
) -> Efecto
    decreases c.pendientes.len(),
{
    match c.parametro_disponible() {
        None => Efecto { respuesta: respuesta_de_suscripcion(alguno), comando: c, base: b },
        Some(k) => {
            let c1 = c.tras_parametro();
            let b1 = b.tras_obtener(k);
            match b.visible(k) {
                Some(Dato::Canal(s)) => desuscribir_todos(
                    c1,
                    cliente,
                    b1.tras_guardar(k, permanente(Dato::Canal(retirar(s, cliente)))),
                    true,
                ),
                _ => Efecto { respuesta: error_no_es_canal(), comando: c1, base: b1 },
            }
        },
    }
}

pub open spec fn efecto_unsubscribe(c: ComandoVista, cliente: Token, b: EstadoBase) -> Efecto {
    desuscribir_todos(c, cliente, b, false)
}

/// PUBLISH: one delivery of the message is owed to each subscriber of the
/// channel, in subscription order; the reply is their number.
pub open spec fn efecto_publish(c: ComandoVista, b: EstadoBase) -> Efecto {
    match c.clave_disponible() {
        None => Efecto { respuesta: error_sin_clave(), comando: c, base: b },
        Some(k) => {
            let c1 = c.tras_clave();
            match c1.parametro_disponible() {
                None => Efecto { respuesta: error_sin_parametro(), comando: c1, base: b },
                Some(m) => {
                    let c2 = c1.tras_parametro();
                    let b1 = b.tras_obtener(k);
                    match b.visible(k) {
                        Some(Dato::Canal(s)) => Efecto {
                            respuesta: Respuesta::Int(s.len()),
                            comando: c2,
                            base: EstadoBase { envios: b1.envios + envios_de(s, m), ..b1 },
                        },
                        _ => Efecto { respuesta: error_no_es_canal(), comando: c2, base: b1 },
                    }
                },
            }
        },
    }
}

/// The names as bulk strings.
pub open spec fn como_bulks(nombres: Seq<Seq<char>>) -> Seq<Respuesta> {
    nombres.map_values(|n: Seq<char>| Respuesta::BulkStr(n))
}

/// PUBSUB CHANNELS: the names of the active channels that match the pattern.
pub open spec fn efecto_channels(c: ComandoVista, b: EstadoBase) -> Efecto {
    match c.parametro_disponible() {
        None => Efecto { respuesta: error_sin_parametro(), comando: c, base: b },
        Some(p) => Efecto {
            respuesta: Respuesta::Vector(como_bulks(b.canales_activos(p))),
            comando: c.tras_parametro(),
            base: b,
        },
    }
}

/// PUBSUB NUMSUB, from the next argument on: the number of subscribers of
/// each channel named, after the counts in `cuentas`. A key that is absent
/// or holds anything but a channel ends the command with an error.
pub open spec fn contar_todos(c: ComandoVista, b: EstadoBase, cuentas: Seq<Respuesta>) -> Efecto
    decreases c.pendientes.len(),
{
    match c.parametro_disponible() {
        None => Efecto { respuesta: Respuesta::Vector(cuentas), comando: c, base: b },
        Some(k) => {
            let c1 = c.tras_parametro();
            let b1 = b.tras_obtener(k);
            match b.visible(k) {
                Some(Dato::Canal(s)) => contar_todos(c1, b1, cuentas.push(Respuesta::Int(s.len()))),
                _ => Efecto { respuesta: error_no_es_canal(), comando: c1, base: b1 },
            }
        },
    }
}

pub open spec fn efecto_numsub(c: ComandoVista, b: EstadoBase) -> Efecto {
    contar_todos(c, b, Seq::<Respuesta>::empty())
}

/// PUBSUB: the first argument chooses the query.
pub open spec fn efecto_pubsub(c: ComandoVista, b: EstadoBase) -> Efecto {
    match c.clave_disponible() {
        None => Efecto { respuesta: error_sin_clave(), comando: c, base: b },
        Some(k) => if k == "CHANNELS"@ {
            efecto_channels(c.tras_clave(), b)
        } else if k == "NUMSUB"@ {
            efecto_numsub(c.tras_clave(), b)
        } else {
            Efecto { respuesta: error_sin_clave(), comando: c.tras_clave(), base: b }
        },
    }
}

fn respuesta_suscripcion(alguno: bool) -> (r: ResultadoRedis)
    ensures
        r@ == respuesta_de_suscripcion(alguno),
{
    if alguno {
        ResultadoRedis::Int(1)
    } else {
        ResultadoRedis::Int(0)
    }
}

pub fn subscribe(comando: &mut ComandoInfo, cliente: Cliente, bdd: &mut BaseDeDatos) -> (r:
    ResultadoRedis)
    ensures
        r@ == efecto_subscribe(old(comando)@, cliente.token, old(bdd)@).respuesta,
        final(comando)@ == efecto_subscribe(old(comando)@, cliente.token, old(bdd)@).comando,
        final(bdd)@ == efecto_subscribe(old(comando)@, cliente.token, old(bdd)@).base,
{
    let ghost total = efecto_subscribe(comando@, cliente.token, bdd@);
    let mut alguno = false;
    loop
        invariant
            total == efecto_subscribe(old(comando)@, cliente.token, old(bdd)@),
            suscribir_todos(comando@, cliente.token, bdd@, alguno) == total,
        decreases comando@.pendientes.len(),
    {
        let clave = match comando.get_parametro() {
            Some(c) => c,
            None => {
                return respuesta_suscripcion(alguno);
            },
        };
        let mut canal = match bdd.obtener_valor(clave.as_str()) {
            Some(TipoRedis::Canal(c)) => c,
            None => Canal::new(),
            _ => {
                return error("WrongType tipo de dato no es un canal");
            },
        };
        canal.suscribirse(cliente);
        bdd.guardar_valor(clave, TipoRedis::Canal(canal));
        alguno = true;
    }
}

pub fn unsubscribe(comando: &mut ComandoInfo, cliente: Cliente, bdd: &mut BaseDeDatos) -> (r:
    ResultadoRedis)
    ensures
        r@ == efecto_unsubscribe(old(comando)@, cliente.token, old(bdd)@).respuesta,
        final(comando)@ == efecto_unsubscribe(old(comando)@, cliente.token, old(bdd)@).comando,
        final(bdd)@ == efecto_unsubscribe(old(comando)@, cliente.token, old(bdd)@).base,
{
    let ghost total = efecto_unsubscribe(comando@, cliente.token, bdd@);
    let mut alguno = false;
    loop
        invariant
            total == efecto_unsubscribe(old(comando)@, cliente.token, old(bdd)@),
            desuscribir_todos(comando@, cliente.token, bdd@, alguno) == total,
        decreases comando@.pendientes.len(),
    {
        let clave = match comando.get_parametro() {
            Some(c) => c,
            None => {
                return respuesta_suscripcion(alguno);
            },
        };
        let mut canal = match bdd.obtener_valor(clave.as_str()) {
            Some(TipoRedis::Canal(c)) => c,
            _ => {
                return error("WrongType tipo de dato no es un canal");
            },
        };
        canal.desuscribirse(cliente);
        bdd.guardar_valor(clave, TipoRedis::Canal(canal));
        alguno = true;
    }
}

pub fn publish(comando: &mut ComandoInfo, _cliente: Cliente, bdd: &mut BaseDeDatos) -> (r:
    ResultadoRedis)
    ensures
        r@ == efecto_publish(old(comando)@, old(bdd)@).respuesta,
        final(comando)@ == efecto_publish(old(comando)@, old(bdd)@).comando,
        final(bdd)@ == efecto_publish(old(comando)@, old(bdd)@).base,
{
    let clave = match comando.get_clave() {
        Some(c) => c,
        None => {
            return error("ClaveError no se encontro una clave");
        },
    };
    let mensaje = match comando.get_parametro() {
        Some(p) => p,
        None => {
            return error("ParametroError no se envio el parametro");
        },
    };
    let canal = match bdd.obtener_valor(clave.as_str()) {
        Some(TipoRedis::Canal(c)) => c,
        _ => {
            return error("WrongType tipo de dato no es un canal");
        },
    };
    let envios = canal.publicar(mensaje.as_str());
    let n = envios.len();
    bdd.encolar_envios(envios);
    ResultadoRedis::Int(n)
}

pub fn pubsub(comando: &mut ComandoInfo, cliente: Cliente, bdd: &mut BaseDeDatos) -> (r:
    ResultadoRedis)
    ensures
        r@ == efecto_pubsub(old(comando)@, old(bdd)@).respuesta,
        final(comando)@ == efecto_pubsub(old(comando)@, old(bdd)@).comando,
        final(bdd)@ == efecto_pubsub(old(comando)@, old(bdd)@).base,
{
    let clave = match comando.get_clave() {
        Some(c) => c,
        None => {
            return error("ClaveError no se encontro una clave");
        },
    };
    if mismo_texto(clave.as_str(), "CHANNELS") {
        channels(comando, cliente, bdd)
    } else if mismo_texto(clave.as_str(), "NUMSUB") {
        numsub(comando, cliente, bdd)
    } else {
        error("ClaveError no se encontro una clave")
    }
}

pub fn channels(comando: &mut ComandoInfo, _cliente: Cliente, bdd: &mut BaseDeDatos) -> (r:
    ResultadoRedis)
    ensures
        r@ == efecto_channels(old(comando)@, old(bdd)@).respuesta,
        final(comando)@ == efecto_channels(old(comando)@, old(bdd)@).comando,
        final(bdd)@ == efecto_channels(old(comando)@, old(bdd)@).base,
{
    let parametro = match comando.get_parametro() {
        Some(p) => p,
        None => {
            return error("ParametroError no se envio el parametro");
        },
    };
    let canales = bdd.canales_activos(parametro.as_str());
    let mut nombres: Vec<ResultadoRedis> = Vec::new();
    let mut i: usize = 0;
    let ghost todos = vista_textos(canales@);
    while i < canales.len()
        invariant
            i <= canales.len(),
            todos == vista_textos(canales@),
            nombres@.len() == i,
            crate::comando::vista_respuestas(nombres@, i as int) == como_bulks(
                todos.take(i as int),
            ),
        decreases canales.len() - i,
    {
        let nombre = ResultadoRedis::BulkStr(canales[i].clone());
        proof {
            lema_vista_respuestas_push(nombres@, nombre);
            assert(como_bulks(todos.take(i + 1)) =~= como_bulks(todos.take(i as int)).push(
                nombre@,
            ));
        }
        nombres.push(nombre);
        i += 1;
    }
    assert(todos.take(i as int) =~= todos);
    ResultadoRedis::Vector(nombres)
}

pub fn numsub(comando: &mut ComandoInfo, _cliente: Cliente, bdd: &mut BaseDeDatos) -> (r:
    ResultadoRedis)
    ensures
        r@ == efecto_numsub(old(comando)@, old(bdd)@).respuesta,
        final(comando)@ == efecto_numsub(old(comando)@, old(bdd)@).comando,
        final(bdd)@ == efecto_numsub(old(comando)@, old(bdd)@).base,
{
    let ghost total = efecto_numsub(comando@, bdd@);
    let mut cantidades: Vec<ResultadoRedis> = Vec::new();
    loop
        invariant
            total == efecto_numsub(old(comando)@, old(bdd)@),
            contar_todos(
                comando@,
                bdd@,
                crate::comando::vista_respuestas(cantidades@, cantidades@.len() as int),
            ) == total,
        decreases comando@.pendientes.len(),
    {
        let clave = match comando.get_parametro() {
            Some(c) => c,
            None => {
                return ResultadoRedis::Vector(cantidades);
            },
        };
        let canal = match bdd.obtener_valor(clave.as_str()) {
            Some(TipoRedis::Canal(c)) => c,
            _ => {
                return error("WrongType tipo de dato no es un canal");
            },
        };
        let cantidad = ResultadoRedis::Int(canal.len());
        proof {
            lema_vista_respuestas_push(cantidades@, cantidad);
        }
        cantidades.push(cantidad);
    }
}

/// The pub/sub command that a name stands for.
#[derive(Clone, Copy, Debug, PartialEq, Eq, Structural)]
pub enum OperacionPubSub {
    Suscribir,
    Desuscribir,
    Publicar,
    Consultar,
    Desconocida,
}

pub open spec fn operacion_pubsub(nombre: Seq<char>) -> OperacionPubSub {
    if nombre == "SUBSCRIBE"@ {
        OperacionPubSub::Suscribir
    } else if nombre == "UNSUBSCRIBE"@ {
        OperacionPubSub::Desuscribir
    } else if nombre == "PUBLISH"@ {
        OperacionPubSub::Publicar
    } else if nombre == "PUBSUB"@ {
        OperacionPubSub::Consultar
    } else {
        OperacionPubSub::Desconocida
    }
}

/// What running the pub/sub command `operacion` for `cliente` does. A name
/// that is no pub/sub command is answered with an error and changes nothing.
pub open spec fn efecto_de_pubsub(
    operacion: OperacionPubSub,
    c: ComandoVista,
    cliente: Token,
    b: EstadoBase,
) -> Efecto {
    match operacion {
        OperacionPubSub::Suscribir => efecto_subscribe(c, cliente, b),
        OperacionPubSub::Desuscribir => efecto_unsubscribe(c, cliente, b),
        OperacionPubSub::Publicar => efecto_publish(c, b),
        OperacionPubSub::Consultar => efecto_pubsub(c, b),
        OperacionPubSub::Desconocida => Efecto {
            respuesta: error_desconocido(),
            comando: c,
            base: b,
        },
    }
}

fn operacion_de(nombre: &str) -> (o: OperacionPubSub)
    ensures
        o == operacion_pubsub(nombre@),
{
    if mismo_texto(nombre, "SUBSCRIBE") {
        OperacionPubSub::Suscribir
    } else if mismo_texto(nombre, "UNSUBSCRIBE") {
        OperacionPubSub::Desuscribir
    } else if mismo_texto(nombre, "PUBLISH") {
        OperacionPubSub::Publicar
    } else if mismo_texto(nombre, "PUBSUB") {
        OperacionPubSub::Consultar
    } else {
        OperacionPubSub::Desconocida
    }
}

/// Whether `comando` names a pub/sub command.
pub fn es_comando_pubsub(comando: &str) -> (r: bool)
    ensures
        r == (operacion_pubsub(comando@) != OperacionPubSub::Desconocida),
{
    operacion_de(comando) != OperacionPubSub::Desconocida
}

/// A pub/sub command of one client, ready to run.
#[derive(Debug)]
pub struct ComandoPubSubHandler {
    cliente: Cliente,
    comando: ComandoInfo,
    a_ejecutar: OperacionPubSub,
}

impl ComandoPubSubHandler {
    /// The command that the handler holds.
    pub closed spec fn comando(self) -> ComandoVista {
        self.comando@
    }

    /// The client on whose behalf the command runs.
    pub closed spec fn cliente(self) -> Cliente {
        self.cliente
    }

    /// The operation that the handler will run.
    pub closed spec fn operacion(self) -> OperacionPubSub {
        self.a_ejecutar
    }

    /// The handler of `comando` for `cliente`, chosen by the command name.
    pub fn new(comando: ComandoInfo, cliente: Cliente) -> (h: ComandoPubSubHandler)
        ensures
            h.comando() == comando@,
            h.cliente() == cliente,
            h.operacion() == operacion_pubsub(comando@.nombre),
    {
        let nombre = comando.get_nombre();
        let a_ejecutar = operacion_de(nombre.as_str());
        ComandoPubSubHandler { cliente, comando, a_ejecutar }
    }
}

impl ComandoHandler for ComandoPubSubHandler {
    open spec fn efecto(self, base: EstadoBase) -> Efecto {
        efecto_de_pubsub(self.operacion(), self.comando(), self.cliente().token, base)
    }

    fn ejecutar(self, bdd: &mut BaseDeDatos) -> (r: ResultadoRedis) {
        let mut comando = self.comando;
        match self.a_ejecutar {
            OperacionPubSub::Suscribir => subscribe(&mut comando, self.cliente, bdd),
            OperacionPubSub::Desuscribir => unsubscribe(&mut comando, self.cliente, bdd),
            OperacionPubSub::Publicar => publish(&mut comando, self.cliente, bdd),
            OperacionPubSub::Consultar => pubsub(&mut comando, self.cliente, bdd),
            OperacionPubSub::Desconocida => error("unknown command"),
        }
    }
}

} // verus!
