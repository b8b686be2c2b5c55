//! The envelope around a stored value: the value and, for one that expires,
//! the moment it was stored and the seconds it may live.
//!
//! Time is a reading of a millisecond clock. Every rule is a function of the
//! reading that it is given; the functions that read the clock themselves
//! only hand that reading on.
use vstd::prelude::*;
use crate::comando::{Dato, TipoRedis};

verus! {

/// The lifetime of a value that expires: `segundos` seconds from the clock
/// reading `desde` (in milliseconds).
#[derive(Clone, Copy, Debug, PartialEq, Eq, Structural)]
pub struct Plazo {
    pub desde: u64,
    pub segundos: u64,
}

/// The whole seconds between two clock readings; none if the clock went back.
pub open spec fn segundos_transcurridos(desde: u64, ahora: u64) -> nat {
    if ahora >= desde {
        ((ahora - desde) / 1000) as nat
    } else {
        0
    }
}

impl Plazo {
    /// Fewer than `segundos` seconds have gone by at the reading `ahora`.
    pub open spec fn vigente(self, ahora: u64) -> bool {
        segundos_transcurridos(self.desde, ahora) < self.segundos
    }

    /// The seconds that are left at `ahora`, a started second counting as a
    /// whole one; 0 once the lifetime is over.
    pub open spec fn restante(self, ahora: u64) -> u64 {
        if self.vigente(ahora) {
            (self.segundos - segundos_transcurridos(self.desde, ahora)) as u64
        } else {
            0
        }
    }

    fn transcurridos(&self, ahora: u64) -> (s: u64)
        ensures
            s == segundos_transcurridos(self.desde, ahora),
    {
        if ahora >= self.desde {
            (ahora - self.desde) / 1000
        } else {
            0
        }
    }
}

/// The mathematical content of a `Valor`.
pub struct ValorVista {
    pub dato: Dato,
    pub plazo: Option<Plazo>,
}

impl ValorVista {
    /// The value has not expired at the reading `ahora`.
    pub open spec fn vigente(self, ahora: u64) -> bool {
        match self.plazo {
            Some(p) => p.vigente(ahora),
            None => true,
        }
    }

    /// What reading the value at `ahora` gives: its content while it has not
    /// expired, nothing afterwards.
    pub open spec fn visible(self, ahora: u64) -> Option<Dato> {
        if self.vigente(ahora) {
            Some(self.dato)
        } else {
            None
        }
    }

    /// The seconds left at `ahora`, for a value that expires.
    pub open spec fn tiempo(self, ahora: u64) -> Option<u64> {
        match self.plazo {
            Some(p) => Some(p.restante(ahora)),
            None => None,
        }
    }
}

/// The system clock, in milliseconds since the Unix epoch, read through
/// `std::time::SystemTime::now`. Nothing is claimed of the reading.
#[verifier::external_body]
pub(crate) fn reloj_ms() -> (ahora: u64) {
    match std::time::SystemTime::now().duration_since(std::time::UNIX_EPOCH) {
        Ok(d) => d.as_millis() as u64,
        Err(_) => 0,
    }
}

/// A stored value with its lifetime, if it has one.
#[derive(Debug)]
pub struct Valor {
    valor: TipoRedis,
    plazo: Option<Plazo>,
}

impl View for Valor {
    type V = ValorVista;

    closed spec fn view(&self) -> ValorVista {
        ValorVista { dato: self.valor@, plazo: self.plazo }
    }
}

impl Valor {
    /// A value that never expires.
    pub fn no_expirable(valor: TipoRedis) -> (v: Valor)
        ensures
            v@ == (ValorVista { dato: valor@, plazo: None }),
    {
        Valor { valor, plazo: None }
    }

    /// A value that is stored at the clock reading `ahora` and lives
    /// `segundos` seconds.
    pub fn expirable_desde(valor: TipoRedis, segundos: u64, ahora: u64) -> (v: Valor)
        ensures
            v@ == (ValorVista { dato: valor@, plazo: Some(Plazo { desde: ahora, segundos }) }),
    {
        Valor { valor, plazo: Some(Plazo { desde: ahora, segundos }) }
    }

    /// A value that is stored now and lives `segundos` seconds.
    pub fn expirable(valor: TipoRedis, segundos: u64) -> (v: Valor)
        ensures
            v@.dato == valor@,
            v@.plazo is Some,
            v@.plazo->0.segundos == segundos,
    {
        let ahora = reloj_ms();
        Valor::expirable_desde(valor, segundos, ahora)
    }

    /// The value, if it has not expired at the clock reading `ahora`.
    pub fn get_en(&self, ahora: u64) -> (r: Option<&TipoRedis>)
        ensures
            match r {
                Some(t) => self@.visible(ahora) == Some(t@),
                None => self@.visible(ahora) is None,
            },
    {
        if self.expiro_en(ahora) {
            None
        } else {
            Some(&self.valor)
        }
    }

    /// The value, if it has not expired by now. One that never expires is
    /// always there.
    pub fn get(&self) -> (r: Option<&TipoRedis>)
        ensures
            r matches Some(t) ==> t@ == self@.dato,
            self@.plazo is None ==> r is Some,
    {
        let ahora = reloj_ms();
        self.get_en(ahora)
    }

    /// The seconds left at the clock reading `ahora`; nothing for a value
    /// that never expires.
    pub fn get_tiempo_en(&self, ahora: u64) -> (r: Option<u64>)
        ensures
            r == self@.tiempo(ahora),
    {
        match &self.plazo {
            Some(p) => {
                let pasados = p.transcurridos(ahora);
                if pasados < p.segundos {
                    Some(p.segundos - pasados)
                } else {
                    Some(0)
                }
            },
            None => None,
        }
    }

    /// The seconds left now; nothing for a value that never expires.
    pub fn get_tiempo(&self) -> (r: Option<u64>)
        ensures
            r is Some <==> self@.plazo is Some,
            r matches Some(s) ==> s <= self@.plazo->0.segundos,
    {
        let ahora = reloj_ms();
        self.get_tiempo_en(ahora)
    }

    /// Whether the value has expired at the clock reading `ahora`.
    pub fn expiro_en(&self, ahora: u64) -> (r: bool)
        ensures
            r == !self@.vigente(ahora),
    {
        match &self.plazo {
            Some(p) => p.transcurridos(ahora) >= p.segundos,
            None => false,
        }
    }

    /// The stored value, expired or not.
    pub fn contenido(&self) -> (t: &TipoRedis)
        ensures
            t@ == self@.dato,
    {
        &self.valor
    }

    /// The lifetime, for a value that expires.
    pub fn plazo(&self) -> (p: Option<Plazo>)
        ensures
            p == self@.plazo,
    {
        self.plazo
    }

    /// A copy with the same content and lifetime.
    pub fn clonar(&self) -> (v: Valor)
        ensures
            v@ == self@,
    {
        Valor { valor: self.valor.clonar(), plazo: self.plazo }
    }
}

} // verus!
