//! The string commands: GET, SET, APPEND, GETDEL, STRLEN, DECRBY, INCRBY.
//!
//! What each command does is written down once, as a function from the
//! command and the store to the reply, the command and the store afterwards;
//! the handlers are proved to compute exactly that.
use vstd::prelude::*;
use vstd::string::*;
use crate::base_de_datos::{permanente, BaseDeDatos, EstadoBase};
use crate::comando::{ComandoHandler, Dato, Efecto, Respuesta, ResultadoRedis, TipoRedis};
use crate::comando_info::{ComandoInfo, ComandoVista};
use crate::texto::{
    decimal, envuelto, i32_a_cadena, i32_de, longitud, longitud_de, mismo_texto, parsear_i32,
};

verus! {

pub open spec fn error_sin_clave() -> Respuesta {
    Respuesta::Error("ClaveError no se encontro una clave"@)
}

pub open spec fn error_sin_parametro() -> Respuesta {
    Respuesta::Error("ParametroError no se envio el parametro"@)
}

pub open spec fn error_get() -> Respuesta {
    Respuesta::Error("GetError error al obtener la clave"@)
}

pub open spec fn error_strlen() -> Respuesta {
    Respuesta::Error("StrLen error al obtener la clave"@)
}

pub open spec fn error_desconocido() -> Respuesta {
    Respuesta::Error("unknown command"@)
}

/// GET: the text under the key. A key that is absent, has expired or holds
/// anything but a text gives the error `GetError`.
pub open spec fn efecto_get(c: ComandoVista, b: EstadoBase) -> Efecto {
    match c.clave_disponible() {
        None => Efecto { respuesta: error_sin_clave(), comando: c, base: b },
        Some(k) => Efecto {
            respuesta: match b.visible(k) {
                Some(Dato::Texto(v)) => Respuesta::BulkStr(v),
                _ => error_get(),
            },
            comando: c.tras_clave(),
            base: b.tras_obtener(k),
        },
    }
}

/// SET: the argument becomes the text under the key, whatever the key held.
pub open spec fn efecto_set(c: ComandoVista, b: EstadoBase) -> Efecto {
    match c.clave_disponible() {
        None => Efecto { respuesta: error_sin_clave(), comando: c, base: b },
        Some(k) => {
            let c1 = c.tras_clave();
            match c1.parametro_disponible() {
                None => Efecto { respuesta: error_sin_parametro(), comando: c1, base: b },
                Some(p) => Efecto {
                    respuesta: Respuesta::StrSimple("OK"@),
                    comando: c1.tras_parametro(),
                    base: b.tras_guardar(k, permanente(Dato::Texto(p))),
                },
            }
        },
    }
}

/// APPEND: the argument is added at the end of the text under the key, or
/// becomes the text of a key that is absent; the reply is the new length in
/// bytes. A key that holds anything but a text gives `GetError`.
pub open spec fn efecto_append(c: ComandoVista, b: EstadoBase) -> Efecto {
    match c.clave_disponible() {
        None => Efecto { respuesta: error_sin_clave(), comando: c, base: b },
        Some(k) => {
            let c1 = c.tras_clave();
            match c1.parametro_disponible() {
                None => Efecto { respuesta: error_sin_parametro(), comando: c1, base: b },
                Some(p) => {
                    let c2 = c1.tras_parametro();
                    match b.visible(k) {
                        Some(Dato::Texto(v)) => Efecto {
                            respuesta: Respuesta::Int(longitud(v + p)),
                            comando: c2,
                            base: b.tras_guardar(k, permanente(Dato::Texto(v + p))),
                        },
                        Some(_) => Efecto { respuesta: error_get(), comando: c2, base: b },
                        None => Efecto {
                            respuesta: Respuesta::Int(longitud(p)),
                            comando: c2,
                            base: b.tras_guardar(k, permanente(Dato::Texto(p))),
                        },
                    }
                },
            }
        },
    }
}

/// GETDEL: the reply of GET, and the key is gone.
pub open spec fn efecto_getdel(c: ComandoVista, b: EstadoBase) -> Efecto {
    match c.clave_disponible() {
        None => Efecto { respuesta: error_sin_clave(), comando: c, base: b },
        Some(k) => {
            let leido = efecto_get(c, b);
            Efecto {
                respuesta: leido.respuesta,
                comando: leido.comando,
                base: leido.base.tras_eliminar(k),
            }
        },
    }
}

/// STRLEN: the length in bytes of the text under the key.
pub open spec fn efecto_strlen(c: ComandoVista, b: EstadoBase) -> Efecto {
    match c.clave_disponible() {
        None => Efecto { respuesta: error_sin_clave(), comando: c, base: b },
        Some(k) => Efecto {
            respuesta: match b.visible(k) {
                Some(Dato::Texto(v)) => Respuesta::Int(longitud(v)),
                _ => error_strlen(),
            },
            comando: c.tras_clave(),
            base: b.tras_obtener(k),
        },
    }
}

/// The two operations on a stored integer.
#[derive(Clone, Copy, Debug, PartialEq, Eq, Structural)]
pub enum Operacion {
    Sumar,
    Restar,
}

/// The result of the operation, wrapped around to 32 bits.
pub open spec fn aplicar(operacion: Operacion, a: i32, b: i32) -> i32 {
    match operacion {
        Operacion::Sumar => envuelto(a + b),
        Operacion::Restar => envuelto(a - b),
    }
}

/// INCRBY and DECRBY: the text under the key is read as a signed 32-bit
/// integer, 0 for a key that is absent; the argument is added to it or taken
/// from it; the numeral of the result is stored and is the reply.
pub open spec fn efecto_operar(c: ComandoVista, b: EstadoBase, operacion: Operacion) -> Efecto {
    match c.clave_disponible() {
        None => Efecto { respuesta: error_sin_clave(), comando: c, base: b },
        Some(k) => {
            let c1 = c.tras_clave();
            let b1 = b.tras_obtener(k);
            let texto = match b.visible(k) {
                Some(Dato::Texto(v)) => Some(v),
                Some(_) => None,
                None => Some("0"@),
            };
            match texto {
                None => Efecto { respuesta: Respuesta::Error("WRONGTYPE"@), comando: c1, base: b1 },
                Some(t) => match i32_de(t) {
                    None => Efecto {
                        respuesta: Respuesta::Error("Valor no es un int"@),
                        comando: c1,
                        base: b1,
                    },
                    Some(n) => match c1.parametro_disponible() {
                        None => Efecto {
                            respuesta: Respuesta::Error(
                                "ParametroError no se encontro un parametro"@,
                            ),
                            comando: c1,
                            base: b1,
                        },
                        Some(p) => {
                            let c2 = c1.tras_parametro();
                            match i32_de(p) {
                                None => Efecto {
                                    respuesta: Respuesta::Error("Parametro no es un int"@),
                                    comando: c2,
                                    base: b1,
                                },
                                Some(m) => {
                                    let r = decimal(aplicar(operacion, n, m) as int);
                                    Efecto {
                                        respuesta: Respuesta::BulkStr(r),
                                        comando: c2,
                                        base: b1.tras_guardar(k, permanente(Dato::Texto(r))),
                                    }
                                },
                            }
                        },
                    },
                },
            }
        },
    }
}

pub(crate) fn error(mensaje: &str) -> (r: ResultadoRedis)
    ensures
        r@ == Respuesta::Error(mensaje@),
{
    ResultadoRedis::Error(mensaje.to_owned())
}

pub fn get(comando: &mut ComandoInfo, bdd: &mut BaseDeDatos) -> (r: ResultadoRedis)
    ensures
        r@ == efecto_get(old(comando)@, old(bdd)@).respuesta,
        final(comando)@ == efecto_get(old(comando)@, old(bdd)@).comando,
        final(bdd)@ == efecto_get(old(comando)@, old(bdd)@).base,
{
    let clave = match comando.get_clave() {
        Some(c) => c,
        None => {
            return error("ClaveError no se encontro una clave");
        },
    };
    match bdd.obtener_valor(clave.as_str()) {
        Some(TipoRedis::Str(valor)) => ResultadoRedis::BulkStr(valor),
        _ => error("GetError error al obtener la clave"),
    }
}

pub fn set(comando: &mut ComandoInfo, bdd: &mut BaseDeDatos) -> (r: ResultadoRedis)
    ensures
        r@ == efecto_set(old(comando)@, old(bdd)@).respuesta,
        final(comando)@ == efecto_set(old(comando)@, old(bdd)@).comando,
        final(bdd)@ == efecto_set(old(comando)@, old(bdd)@).base,
{
    let clave = match comando.get_clave() {
        Some(c) => c,
        None => {
            return error("ClaveError no se encontro una clave");
        },
    };
    let parametro = match comando.get_parametro() {
        Some(p) => p,
        None => {
            return error("ParametroError no se envio el parametro");
        },
    };
    bdd.guardar_valor(clave, TipoRedis::Str(parametro));
    ResultadoRedis::StrSimple("OK".to_owned())
}

pub fn append(comando: &mut ComandoInfo, bdd: &mut BaseDeDatos) -> (r: ResultadoRedis)
    ensures
        r@ == efecto_append(old(comando)@, old(bdd)@).respuesta,
        final(comando)@ == efecto_append(old(comando)@, old(bdd)@).comando,
        final(bdd)@ == efecto_append(old(comando)@, old(bdd)@).base,
{
    let clave = match comando.get_clave() {
        Some(c) => c,
        None => {
            return error("ClaveError no se encontro una clave");
        },
    };
    let parametro = match comando.get_parametro() {
        Some(p) => p,
        None => {
            return error("ParametroError no se envio el parametro");
        },
    };
    if bdd.existe_clave(clave.as_str()) {
        let mut valor = match get(comando, bdd) {
            ResultadoRedis::BulkStr(valor) => valor,
            _ => {
                return error("GetError error al obtener la clave");
            },
        };
        valor.append(parametro.as_str());
        let n = longitud_de(valor.as_str());
        bdd.guardar_valor(clave, TipoRedis::Str(valor));
        return ResultadoRedis::Int(n);
    }
    let n = longitud_de(parametro.as_str());
    bdd.guardar_valor(clave, TipoRedis::Str(parametro));
    ResultadoRedis::Int(n)
}

pub fn getdel(comando: &mut ComandoInfo, bdd: &mut BaseDeDatos) -> (r: ResultadoRedis)
    ensures
        r@ == efecto_getdel(old(comando)@, old(bdd)@).respuesta,
        final(comando)@ == efecto_getdel(old(comando)@, old(bdd)@).comando,
        final(bdd)@ == efecto_getdel(old(comando)@, old(bdd)@).base,
{
    let clave = match comando.get_clave() {
        Some(c) => c,
        None => {
            return error("ClaveError no se encontro una clave");
        },
    };
    let resultado = get(comando, bdd);
    bdd.eliminar_clave(clave.as_str());
    resultado
}

pub fn strlen(comando: &mut ComandoInfo, bdd: &mut BaseDeDatos) -> (r: ResultadoRedis)
    ensures
        r@ == efecto_strlen(old(comando)@, old(bdd)@).respuesta,
        final(comando)@ == efecto_strlen(old(comando)@, old(bdd)@).comando,
        final(bdd)@ == efecto_strlen(old(comando)@, old(bdd)@).base,
{
    let clave = match comando.get_clave() {
        Some(c) => c,
        None => {
            return error("ClaveError no se encontro una clave");
        },
    };
    match bdd.obtener_valor(clave.as_str()) {
        Some(TipoRedis::Str(valor)) => ResultadoRedis::Int(longitud_de(valor.as_str())),
        _ => error("StrLen error al obtener la clave"),
    }
}

fn operar(operacion: Operacion, a: i32, b: i32) -> (r: i32)
    ensures
        r == aplicar(operacion, a, b),
{
    let exacto: i64 = match operacion {
        Operacion::Sumar => a as i64 + b as i64,
        Operacion::Restar => a as i64 - b as i64,
    };
    if exacto > 2147483647 {
        (exacto - 4294967296) as i32
    } else if exacto < -2147483648 {
        (exacto + 4294967296) as i32
    } else {
        exacto as i32
    }
}

pub fn operar_sobre_int(
    comando: &mut ComandoInfo,
    bdd: &mut BaseDeDatos,
    operacion: Operacion,
) -> (r: ResultadoRedis)
    ensures
        r@ == efecto_operar(old(comando)@, old(bdd)@, operacion).respuesta,
        final(comando)@ == efecto_operar(old(comando)@, old(bdd)@, operacion).comando,
        final(bdd)@ == efecto_operar(old(comando)@, old(bdd)@, operacion).base,
{
    let clave = match comando.get_clave() {
        Some(c) => c,
        None => {
            return error("ClaveError no se encontro una clave");
        },
    };
    let valor = match bdd.obtener_valor(clave.as_str()) {
        Some(TipoRedis::Str(valor)) => valor,
        None => "0".to_owned(),
        _ => {
            return error("WRONGTYPE");
        },
    };
    let num = match parsear_i32(valor.as_str()) {
        Some(n) => n,
        None => {
            return error("Valor no es un int");
        },
    };
    let param = match comando.get_parametro() {
        Some(p) => p,
        None => {
            return error("ParametroError no se encontro un parametro");
        },
    };
    let param = match parsear_i32(param.as_str()) {
        Some(p) => p,
        None => {
            return error("Parametro no es un int");
        },
    };
    let num = operar(operacion, num, param);
    bdd.guardar_valor(clave, TipoRedis::Str(i32_a_cadena(num)));
    ResultadoRedis::BulkStr(i32_a_cadena(num))
}

pub fn decrby(comando: &mut ComandoInfo, bdd: &mut BaseDeDatos) -> (r: ResultadoRedis)
    ensures
        r@ == efecto_operar(old(comando)@, old(bdd)@, Operacion::Restar).respuesta,
        final(comando)@ == efecto_operar(old(comando)@, old(bdd)@, Operacion::Restar).comando,
        final(bdd)@ == efecto_operar(old(comando)@, old(bdd)@, Operacion::Restar).base,
{
    operar_sobre_int(comando, bdd, Operacion::Restar)
}

pub fn incrby(comando: &mut ComandoInfo, bdd: &mut BaseDeDatos) -> (r: ResultadoRedis)
    ensures
        r@ == efecto_operar(old(comando)@, old(bdd)@, Operacion::Sumar).respuesta,
        final(comando)@ == efecto_operar(old(comando)@, old(bdd)@, Operacion::Sumar).comando,
        final(bdd)@ == efecto_operar(old(comando)@, old(bdd)@, Operacion::Sumar).base,
{
    operar_sobre_int(comando, bdd, Operacion::Sumar)
}

/// The string command that a name stands for.
#[derive(Clone, Copy, Debug, PartialEq, Eq, Structural)]
pub enum OperacionString {
    Obtener,
    Guardar,
    Anexar,
    ObtenerYBorrar,
    Longitud,
    Decrementar,
    Incrementar,
    Desconocida,
}

pub open spec fn operacion_string(nombre: Seq<char>) -> OperacionString {
    if nombre == "GET"@ {
        OperacionString::Obtener
    } else if nombre == "SET"@ {
        OperacionString::Guardar
    } else if nombre == "APPEND"@ {
        OperacionString::Anexar
    } else if nombre == "GETDEL"@ {
        OperacionString::ObtenerYBorrar
    } else if nombre == "STRLEN"@ {
        OperacionString::Longitud
    } else if nombre == "DECRBY"@ {
        OperacionString::Decrementar
    } else if nombre == "INCRBY"@ {
        OperacionString::Incrementar
    } else {
        OperacionString::Desconocida
    }
}

/// What running the string command `operacion` does. A name that is no
/// string command is answered with an error and changes nothing.
pub open spec fn efecto_string(operacion: OperacionString, c: ComandoVista, b: EstadoBase) -> Efecto {
    match operacion {
        OperacionString::Obtener => efecto_get(c, b),
        OperacionString::Guardar => efecto_set(c, b),
        OperacionString::Anexar => efecto_append(c, b),
        OperacionString::ObtenerYBorrar => efecto_getdel(c, b),
        OperacionString::Longitud => efecto_strlen(c, b),
        OperacionString::Decrementar => efecto_operar(c, b, Operacion::Restar),
        OperacionString::Incrementar => efecto_operar(c, b, Operacion::Sumar),
        OperacionString::Desconocida => Efecto {
            respuesta: error_desconocido(),
            comando: c,
            base: b,
        },
    }
}

fn operacion_de(nombre: &str) -> (o: OperacionString)
    ensures
        o == operacion_string(nombre@),
{
    if mismo_texto(nombre, "GET") {
        OperacionString::Obtener
    } else if mismo_texto(nombre, "SET") {
        OperacionString::Guardar
    } else if mismo_texto(nombre, "APPEND") {
        OperacionString::Anexar
    } else if mismo_texto(nombre, "GETDEL") {
        OperacionString::ObtenerYBorrar
    } else if mismo_texto(nombre, "STRLEN") {
        OperacionString::Longitud
    } else if mismo_texto(nombre, "DECRBY") {
        OperacionString::Decrementar
    } else if mismo_texto(nombre, "INCRBY") {
        OperacionString::Incrementar
    } else {
        OperacionString::Desconocida
    }
}

/// Whether `comando` names a string command.
pub fn es_comando_string(comando: &str) -> (r: bool)
    ensures
        r == (operacion_string(comando@) != OperacionString::Desconocida),
{
    operacion_de(comando) != OperacionString::Desconocida
}

/// A string command ready to run.
#[derive(Debug)]
pub struct ComandoStringHandler {
    comando: ComandoInfo,
    a_ejecutar: OperacionString,
}

impl ComandoStringHandler {
    /// The command that the handler holds.
    pub closed spec fn comando(self) -> ComandoVista {
        self.comando@
    }

    /// The operation that the handler will run.
    pub closed spec fn operacion(self) -> OperacionString {
        self.a_ejecutar
    }

    /// The handler of `comando`, chosen by the command name.
    pub fn new(comando: ComandoInfo) -> (h: ComandoStringHandler)
        ensures
            h.comando() == comando@,
            h.operacion() == operacion_string(comando@.nombre),
    {
        let nombre = comando.get_nombre();
        let a_ejecutar = operacion_de(nombre.as_str());
        ComandoStringHandler { comando, a_ejecutar }
    }
}

impl ComandoHandler for ComandoStringHandler {
    open spec fn efecto(self, base: EstadoBase) -> Efecto {
        efecto_string(self.operacion(), self.comando(), base)
    }

    fn ejecutar(self, bdd: &mut BaseDeDatos) -> (r: ResultadoRedis) {
        let mut comando = self.comando;
        match self.a_ejecutar {
            OperacionString::Obtener => get(&mut comando, bdd),
            OperacionString::Guardar => set(&mut comando, bdd),
            OperacionString::Anexar => append(&mut comando, bdd),
            OperacionString::ObtenerYBorrar => getdel(&mut comando, bdd),
            OperacionString::Longitud => strlen(&mut comando, bdd),
            OperacionString::Decrementar => decrby(&mut comando, bdd),
            OperacionString::Incrementar => incrby(&mut comando, bdd),
            OperacionString::Desconocida => error("unknown command"),
        }
    }
}

} // verus!
