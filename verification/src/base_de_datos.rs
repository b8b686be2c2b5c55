//! The store: the table of keys, the clock reading against which values
//! expire, and two outboxes. Every change of the table leaves a snapshot of
//! the new table for the observers; every publish leaves its deliveries.
//! The connection layer sets the clock before a command and empties the
//! outboxes after it, outside the lock.
use vstd::prelude::*;
use vstd::string::*;
use crate::canal::{vista_envios, Envio, Token};
use crate::comando::{Dato, TipoRedis};
use crate::patron::{coincide, coincide_patron};
use crate::tabla::{
    claves_unicas, lema_poner, lema_quitar, poner, quitar, valor_de, Filas, Tabla,
};
use crate::texto::{caracteres, lema_vista_textos_push, vista_textos};
use crate::valor::{Plazo, Valor, ValorVista};

verus! {

/// The state of the store as contracts see it.
pub struct EstadoBase {
    /// Where the snapshots are to be written.
    pub archivo: Seq<char>,
    /// The keys and their values, expired ones included until they are evicted.
    pub filas: Filas,
    /// The clock reading, in milliseconds, that commands go by.
    pub reloj: u64,
    /// The snapshots that wait for the observers, oldest first.
    pub notificaciones: Seq<Filas>,
    /// The deliveries that wait for the connection layer, oldest first.
    pub envios: Seq<(Token, Seq<char>)>,
}

/// Whether a value is, at `reloj`, a channel with at least one subscriber.
pub open spec fn es_canal_activo(v: ValorVista, reloj: u64) -> bool {
    match v.visible(reloj) {
        Some(Dato::Canal(s)) => s.len() >= 1,
        _ => false,
    }
}

/// The keys, in table order, of the active channels whose name matches
/// `patron`.
pub open spec fn activos(f: Filas, reloj: u64, patron: Seq<char>) -> Seq<Seq<char>>
    decreases f.len(),
{
    if f.len() == 0 {
        Seq::<Seq<char>>::empty()
    } else {
        let resto = activos(f.drop_last(), reloj, patron);
        if es_canal_activo(f.last().1, reloj) && coincide(patron, f.last().0) {
            resto.push(f.last().0)
        } else {
            resto
        }
    }
}

impl EstadoBase {
    /// What every store satisfies: no key has two rows.
    pub open spec fn valido(self) -> bool {
        claves_unicas(self.filas)
    }

    /// What `clave` holds for a reader: the content of its value, unless the
    /// key is absent or its value has expired.
    pub open spec fn visible(self, clave: Seq<char>) -> Option<Dato> {
        match valor_de(self.filas, clave) {
            Some(v) => v.visible(self.reloj),
            None => None,
        }
    }

    /// The state after the table changed to `filas`: the observers are owed
    /// a snapshot of the new table.
    pub open spec fn con_filas(self, filas: Filas) -> EstadoBase {
        EstadoBase { filas, notificaciones: self.notificaciones.push(filas), ..self }
    }

    /// The state after `valor` was stored under `clave`.
    pub open spec fn tras_guardar(self, clave: Seq<char>, valor: ValorVista) -> EstadoBase {
        self.con_filas(poner(self.filas, clave, valor))
    }

    /// The state after `clave` was read: a value that had expired is evicted.
    pub open spec fn tras_obtener(self, clave: Seq<char>) -> EstadoBase {
        match valor_de(self.filas, clave) {
            Some(v) => if v.vigente(self.reloj) {
                self
            } else {
                self.con_filas(quitar(self.filas, clave))
            },
            None => self,
        }
    }

    /// The state after `clave` was deleted.
    pub open spec fn tras_eliminar(self, clave: Seq<char>) -> EstadoBase {
        if valor_de(self.filas, clave) is Some {
            self.con_filas(quitar(self.filas, clave))
        } else {
            self
        }
    }

    /// The names of the active channels that match `patron`.
    pub open spec fn canales_activos(self, patron: Seq<char>) -> Seq<Seq<char>> {
        activos(self.filas, self.reloj, patron)
    }
}

/// A value that does not expire.
pub open spec fn permanente(dato: Dato) -> ValorVista {
    ValorVista { dato, plazo: None }
}

/// A value stored at `desde` that lives `segundos` seconds.
pub open spec fn temporal(dato: Dato, desde: u64, segundos: u64) -> ValorVista {
    ValorVista { dato, plazo: Some(Plazo { desde, segundos }) }
}

/// Storing under a key changes what a reader sees under that key, and under
/// no other.
pub proof fn lema_tras_guardar(b: EstadoBase, clave: Seq<char>, valor: ValorVista, otra: Seq<char>)
    ensures
        b.tras_guardar(clave, valor).visible(otra) == if otra == clave {
            valor.visible(b.reloj)
        } else {
            b.visible(otra)
        },
        b.valido() ==> b.tras_guardar(clave, valor).valido(),
{
    lema_poner(b.filas, clave, valor, otra);
}

/// Reading a key changes nothing that a reader sees: what is evicted had
/// expired.
pub proof fn lema_tras_obtener(b: EstadoBase, clave: Seq<char>, otra: Seq<char>)
    requires
        b.valido(),
    ensures
        b.tras_obtener(clave).visible(otra) == b.visible(otra),
        b.tras_obtener(clave).valido(),
{
    lema_quitar(b.filas, clave, otra);
}

/// Deleting a key makes it absent and leaves every other key as it was.
pub proof fn lema_tras_eliminar(b: EstadoBase, clave: Seq<char>, otra: Seq<char>)
    requires
        b.valido(),
    ensures
        b.tras_eliminar(clave).visible(otra) == if otra == clave {
            None
        } else {
            b.visible(otra)
        },
        b.tras_eliminar(clave).valido(),
{
    lema_quitar(b.filas, clave, otra);
}

pub open spec fn vista_tablas(v: Seq<Tabla>) -> Seq<Filas> {
    v.map_values(|t: Tabla| t@)
}

/// The store of the server: see the module documentation.
#[derive(Debug)]
pub struct BaseDeDatos {
    archivo: String,
    tabla: Tabla,
    reloj: u64,
    notificaciones: Vec<Tabla>,
    envios: Vec<Envio>,
}

impl View for BaseDeDatos {
    type V = EstadoBase;

    closed spec fn view(&self) -> EstadoBase {
        EstadoBase {
            archivo: self.archivo@,
            filas: self.tabla@,
            reloj: self.reloj,
            notificaciones: vista_tablas(self.notificaciones@),
            envios: vista_envios(self.envios@),
        }
    }
}

impl BaseDeDatos {
    /// An empty store whose snapshots belong in `archivo`, with the clock at 0.
    pub fn new(archivo: String) -> (b: BaseDeDatos)
        ensures
            b@ == (EstadoBase {
                archivo: archivo@,
                filas: Seq::empty(),
                reloj: 0,
                notificaciones: Seq::empty(),
                envios: Seq::empty(),
            }),
            b@.valido(),
    {
        let b = BaseDeDatos {
            archivo,
            tabla: Tabla::new(),
            reloj: 0,
            notificaciones: Vec::new(),
            envios: Vec::new(),
        };
        assert(b@.notificaciones =~= Seq::<Filas>::empty());
        assert(b@.envios =~= Seq::<(Token, Seq<char>)>::empty());
        b
    }

    /// Where the snapshots are to be written.
    pub fn archivo(&self) -> (a: &String)
        ensures
            a@ == self@.archivo,
    {
        &self.archivo
    }

    /// The clock reading that commands go by.
    pub fn reloj(&self) -> (r: u64)
        ensures
            r == self@.reloj,
    {
        self.reloj
    }

    /// Sets the clock reading that the commands that follow go by.
    pub fn fijar_reloj(&mut self, ahora: u64)
        ensures
            final(self)@ == (EstadoBase { reloj: ahora, ..old(self)@ }),
            final(self)@.valido(),
    {
        self.reloj = ahora;
        proof {
            use_type_invariant(&self.tabla);
        }
    }

    /// Replaces the table by `tabla`, as at start-up from a snapshot; the
    /// observers are not told.
    pub fn cargar(&mut self, tabla: Tabla)
        ensures
            final(self)@ == (EstadoBase { filas: tabla@, ..old(self)@ }),
            final(self)@.valido(),
    {
        self.tabla = tabla;
        proof {
            use_type_invariant(&self.tabla);
        }
    }

    /// A copy of the table as it is.
    pub fn instantanea(&self) -> (t: Tabla)
        ensures
            t@ == self@.filas,
            self@.valido(),
    {
        self.tabla.clonar()
    }

    fn notificar(&mut self)
        ensures
            final(self)@ == (EstadoBase {
                notificaciones: old(self)@.notificaciones.push(old(self)@.filas),
                ..old(self)@
            }),
    {
        let copia = self.tabla.clonar();
        let ghost antes = self.notificaciones@;
        self.notificaciones.push(copia);
        assert(vista_tablas(self.notificaciones@) =~= vista_tablas(antes).push(copia@));
    }

    /// Stores `valor` with its lifetime under `clave`, in the place of what
    /// the key held.
    pub fn guardar(&mut self, clave: String, valor: Valor)
        ensures
            final(self)@ == old(self)@.tras_guardar(clave@, valor@),
            final(self)@.valido(),
    {
        self.tabla.insertar(clave, valor);
        self.notificar();
        proof {
            use_type_invariant(&self.tabla);
        }
    }

    /// Stores `valor` under `clave`, never to expire.
    pub fn guardar_valor(&mut self, clave: String, valor: TipoRedis)
        ensures
            final(self)@ == old(self)@.tras_guardar(clave@, permanente(valor@)),
            final(self)@.valido(),
    {
        self.guardar(clave, Valor::no_expirable(valor));
    }

    /// Stores `valor` under `clave`, to expire `segundos` seconds after the
    /// clock reading of the store.
    pub fn guardar_valor_expirable(&mut self, clave: String, valor: TipoRedis, segundos: u64)
        ensures
            final(self)@ == old(self)@.tras_guardar(
                clave@,
                temporal(valor@, old(self)@.reloj, segundos),
            ),
            final(self)@.valido(),
    {
        let v = Valor::expirable_desde(valor, segundos, self.reloj);
        self.guardar(clave, v);
    }

    /// What `clave` holds, if the key is there and has not expired. A value
    /// found expired is evicted.
    pub fn obtener_valor(&mut self, clave: &str) -> (r: Option<TipoRedis>)
        ensures
            match r {
                Some(t) => old(self)@.visible(clave@) == Some(t@),
                None => old(self)@.visible(clave@) is None,
            },
            final(self)@ == old(self)@.tras_obtener(clave@),
            old(self)@.valido(),
            final(self)@.valido(),
    {
        proof {
            use_type_invariant(&self.tabla);
        }
        match self.tabla.obtener(clave) {
            Some(v) => {
                if !v.expiro_en(self.reloj) {
                    return Some(v.contenido().clonar());
                }
            },
            None => {
                return None;
            },
        }
        self.tabla.eliminar(clave);
        self.notificar();
        None
    }

    /// Whether `clave` is there and has not expired.
    pub fn existe_clave(&self, clave: &str) -> (r: bool)
        ensures
            r == self@.visible(clave@) is Some,
            self@.valido(),
    {
        proof {
            use_type_invariant(&self.tabla);
        }
        match self.tabla.obtener(clave) {
            Some(v) => !v.expiro_en(self.reloj),
            None => false,
        }
    }

    /// Removes `clave`. Says whether a key that a reader could see was
    /// removed; one that had expired goes too, without being counted.
    pub fn eliminar_clave(&mut self, clave: &str) -> (r: bool)
        ensures
            r == old(self)@.visible(clave@) is Some,
            final(self)@ == old(self)@.tras_eliminar(clave@),
            final(self)@.valido(),
    {
        let visible = self.existe_clave(clave);
        if self.tabla.eliminar(clave) {
            self.notificar();
        }
        visible
    }

    /// The names, in table order, of the channels that have at least one
    /// subscriber and whose name matches the glob pattern `patron`.
    pub fn canales_activos(&self, patron: &str) -> (r: Vec<String>)
        ensures
            vista_textos(r@) == self@.canales_activos(patron@),
    {
        let p = caracteres(patron);
        let mut r: Vec<String> = Vec::new();
        let mut i: usize = 0;
        let n = self.tabla.len();
        assert(self@.filas.take(0) =~= Seq::empty());
        assert(vista_textos(r@) =~= Seq::<Seq<char>>::empty());
        while i < n
            invariant
                i <= n,
                n == self@.filas.len(),
                p@ == patron@,
                vista_textos(r@) == activos(self@.filas.take(i as int), self@.reloj, patron@),
            decreases n - i,
        {
            let e = self.tabla.entrada(i);
            proof {
                assert(self@.filas.take(i + 1).drop_last() =~= self@.filas.take(i as int));
                assert(self@.filas.take(i + 1).last() == self@.filas[i as int]);
            }
            let activo = match e.valor().get_en(self.reloj) {
                Some(TipoRedis::Canal(c)) => c.len() >= 1,
                _ => false,
            };
            if activo {
                let t = caracteres(e.clave().as_str());
                if coincide_patron(&p, 0, &t, 0) {
                    let ghost antes = r@;
                    let nombre = e.clave().clone();
                    proof {
                        lema_vista_textos_push(antes, nombre);
                    }
                    r.push(nombre);
                }
            }
            i += 1;
        }
        assert(self@.filas.take(i as int) =~= self@.filas);
        r
    }

    /// Leaves `envios` for the connection layer to deliver.
    pub fn encolar_envios(&mut self, envios: Vec<Envio>)
        ensures
            final(self)@ == (EstadoBase {
                envios: old(self)@.envios + vista_envios(envios@),
                ..old(self)@
            }),
    {
        let mut envios = envios;
        let ghost antes = self.envios@;
        let ghost nuevos = envios@;
        self.envios.append(&mut envios);
        assert(vista_envios(self.envios@) =~= vista_envios(antes) + vista_envios(nuevos));
    }

    /// Hands over the snapshots that wait for the observers.
    pub fn tomar_notificaciones(&mut self) -> (r: Vec<Tabla>)
        ensures
            vista_tablas(r@) == old(self)@.notificaciones,
            final(self)@ == (EstadoBase { notificaciones: Seq::empty(), ..old(self)@ }),
    {
        let mut r: Vec<Tabla> = Vec::new();
        core::mem::swap(&mut self.notificaciones, &mut r);
        assert(vista_tablas(self.notificaciones@) =~= Seq::<Filas>::empty());
        r
    }

    /// Hands over the deliveries that wait for the connection layer.
    pub fn tomar_envios(&mut self) -> (r: Vec<Envio>)
        ensures
            vista_envios(r@) == old(self)@.envios,
            final(self)@ == (EstadoBase { envios: Seq::empty(), ..old(self)@ }),
    {
        let mut r: Vec<Envio> = Vec::new();
        core::mem::swap(&mut self.envios, &mut r);
        assert(vista_envios(self.envios@) =~= Seq::<(Token, Seq<char>)>::empty());
        r
    }
}

} // verus!
