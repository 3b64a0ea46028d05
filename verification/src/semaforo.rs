//! The traffic light as a classic DEVS atom.
//!
//! * Red lasts `rojo`, then green lasts `verde`, then red again, and so on.
//! * A button press during red shortens that red phase to `rojo_con_boton`
//!   in total: if that much red has already gone by, the light turns green
//!   at once (σ becomes 0 and the next activation, at the same instant, is
//!   the internal transition); otherwise it turns green when the total is
//!   reached.
//! * The shortening applies once per red phase; a press during green is
//!   ignored.
//!
//! An activation at instant `t` is internal (δint + λ) when the time since
//! the previous activation uses up σ, and external (δext) otherwise. Time
//! is counted in whole nanoseconds, so "used up" means σ reaches 0 exactly.

use vstd::prelude::*;
use core::marker::PhantomData;

verus! {

/// One second, in the nanoseconds that the library counts time in.
pub const NS_POR_S: i64 = 1_000_000_000;

/// Phase of the light (the discrete state of the atom).
#[derive(PartialEq, Eq, Structural, Clone, Copy, Debug)]
pub enum Fase {
    Rojo,
    Verde,
}

/// The phase that follows `f`.
pub open spec fn siguiente_fase(f: Fase) -> Fase {
    match f {
        Fase::Rojo => Fase::Verde,
        Fase::Verde => Fase::Rojo,
    }
}

/// Phase durations of a light, in nanoseconds.
#[derive(PartialEq, Eq, Structural, Clone, Copy, Debug)]
pub struct Duraciones {
    /// Normal length of red.
    pub rojo: i64,
    /// Length of green.
    pub verde: i64,
    /// Total length of a red phase in which the button was pressed.
    pub rojo_con_boton: i64,
}

impl Duraciones {
    pub open spec fn validas(self) -> bool {
        &&& self.rojo > 0
        &&& self.verde > 0
        &&& self.rojo_con_boton > 0
    }

    /// Length of a fresh phase `f`.
    pub open spec fn de_fase(self, f: Fase) -> int {
        match f {
            Fase::Rojo => self.rojo as int,
            Fase::Verde => self.verde as int,
        }
    }

    /// Longest that phase `f` can last.
    pub open spec fn cota(self, f: Fase) -> int {
        match f {
            Fase::Rojo => if self.rojo >= self.rojo_con_boton {
                self.rojo as int
            } else {
                self.rojo_con_boton as int
            },
            Fase::Verde => self.verde as int,
        }
    }
}

/// The durations that a kind of light runs with.
pub trait Perfil {
    spec fn duraciones_spec() -> Duraciones;

    fn duraciones() -> (d: Duraciones)
        ensures
            d == Self::duraciones_spec(),
            d.validas(),
    ;
}

/// Red 60 s, green 30 s, red with button 15 s in total.
#[derive(Debug)]
pub struct PerfilClasico;

/// Red 30 s, green 15 s, red with button 20 s in total.
#[derive(Debug)]
pub struct PerfilV2;

impl Perfil for PerfilClasico {
    open spec fn duraciones_spec() -> Duraciones {
        Duraciones { rojo: 60_000_000_000, verde: 30_000_000_000, rojo_con_boton: 15_000_000_000 }
    }

    fn duraciones() -> (d: Duraciones) {
        Duraciones { rojo: 60_000_000_000, verde: 30_000_000_000, rojo_con_boton: 15_000_000_000 }
    }
}

impl Perfil for PerfilV2 {
    open spec fn duraciones_spec() -> Duraciones {
        Duraciones { rojo: 30_000_000_000, verde: 15_000_000_000, rojo_con_boton: 20_000_000_000 }
    }

    fn duraciones() -> (d: Duraciones) {
        Duraciones { rojo: 30_000_000_000, verde: 15_000_000_000, rojo_con_boton: 20_000_000_000 }
    }
}

/// State of the atom.
pub struct EstadoDevs {
    pub fase: Fase,
    /// σ = ta(): time left until the internal transition.
    pub sigma: int,
    /// Time spent in the current phase.
    pub elapsed: int,
    /// Instant of the last activation.
    pub t_last: int,
    /// Whether the button has already shortened the current red phase.
    pub boton_atendido: bool,
}

/// A fresh phase `f` that starts at `t`.
pub open spec fn fase_nueva(d: Duraciones, f: Fase, t: int) -> EstadoDevs {
    EstadoDevs { fase: f, sigma: d.de_fase(f), elapsed: 0, t_last: t, boton_atendido: false }
}

/// What every reachable state satisfies.
pub open spec fn estado_valido(d: Duraciones, s: EstadoDevs) -> bool {
    &&& d.validas()
    &&& s.sigma >= 0
    &&& s.elapsed >= 0
    &&& s.elapsed + s.sigma <= d.cota(s.fase)
}

/// Time since the last activation; an instant before it counts as none.
pub open spec fn transcurrido(s: EstadoDevs, t: int) -> int {
    if t > s.t_last {
        t - s.t_last
    } else {
        0
    }
}

/// One activation at instant `t` with the button input `boton`.
pub open spec fn transicion(d: Duraciones, s: EstadoDevs, boton: bool, t: int) -> EstadoDevs {
    let e = transcurrido(s, t);
    if e >= s.sigma {
        // δint + λ: the phase is used up.
        fase_nueva(d, siguiente_fase(s.fase), t)
    } else if s.fase == Fase::Rojo && boton && !s.boton_atendido {
        // δext: the button shortens this red phase to `rojo_con_boton` in total.
        let en_fase = s.elapsed + e;
        EstadoDevs {
            fase: Fase::Rojo,
            sigma: if d.rojo_con_boton > en_fase {
                d.rojo_con_boton - en_fase
            } else {
                0
            },
            elapsed: en_fase,
            t_last: t,
            boton_atendido: true,
        }
    } else {
        // δext with nothing to do: time goes by.
        EstadoDevs { sigma: s.sigma - e, elapsed: s.elapsed + e, t_last: t, ..s }
    }
}

/// Every activation keeps a state valid.
pub proof fn ley_validez_se_conserva(d: Duraciones, s: EstadoDevs, boton: bool, t: int)
    requires
        estado_valido(d, s),
    ensures
        estado_valido(d, transicion(d, s, boton, t)),
{
}

/// The phase changes exactly when σ is used up: an activation at least σ
/// after the previous one starts the other phase afresh; an earlier one (not
/// before the previous activation) keeps the phase.
pub proof fn ley_cambio_de_fase(d: Duraciones, s: EstadoDevs, boton: bool, t: int)
    requires
        estado_valido(d, s),
        t >= s.t_last,
    ensures
        t >= s.t_last + s.sigma ==> transicion(d, s, boton, t) == fase_nueva(
            d,
            siguiente_fase(s.fase),
            t,
        ),
        t < s.t_last + s.sigma ==> transicion(d, s, boton, t).fase == s.fase,
        t >= s.t_last + s.sigma ==> ({
            let r = transicion(d, s, boton, t);
            &&& r.fase != s.fase
            &&& r.fase == Fase::Verde ==> r.sigma == d.verde
            &&& r.fase == Fase::Rojo ==> r.sigma == d.rojo
            &&& r.elapsed == 0
            &&& !r.boton_atendido
            &&& r.t_last == t
        }),
{
}

/// An activation at an instant before the previous one counts as no time
/// gone by: with no press to serve and σ not yet 0, it changes nothing but
/// the instant of the last activation.
pub proof fn ley_activacion_en_el_pasado(d: Duraciones, s: EstadoDevs, boton: bool, t: int)
    requires
        estado_valido(d, s),
        t < s.t_last,
        s.sigma > 0,
        !(s.fase == Fase::Rojo && boton && !s.boton_atendido),
    ensures
        ({
            let r = transicion(d, s, boton, t);
            &&& r.fase == s.fase
            &&& r.sigma == s.sigma
            &&& r.elapsed == s.elapsed
            &&& r.boton_atendido == s.boton_atendido
            &&& r.t_last == t
        }),
{
}

/// A press during red, before the phase is used up and if it has not yet
/// shortened this phase, makes the red phase last `rojo_con_boton` in total:
/// σ becomes what is left of that total, or 0 when that much red has already
/// gone by (and then the next activation, even at the same instant, turns the
/// light green).
pub proof fn ley_boton_acorta_el_rojo(d: Duraciones, s: EstadoDevs, t: int)
    requires
        estado_valido(d, s),
        s.fase == Fase::Rojo,
        !s.boton_atendido,
        s.t_last <= t < s.t_last + s.sigma,
    ensures
        ({
            let r = transicion(d, s, true, t);
            &&& r.fase == Fase::Rojo
            &&& r.boton_atendido
            &&& r.t_last == t
            &&& r.elapsed == s.elapsed + (t - s.t_last)
            &&& r.elapsed < d.rojo_con_boton ==> r.elapsed + r.sigma == d.rojo_con_boton
            &&& r.elapsed >= d.rojo_con_boton ==> r.sigma == 0
            &&& r.sigma == 0 ==> transicion(d, r, true, t) == fase_nueva(d, Fase::Verde, t)
        }),
{
}

/// The button is ignored during green, and during a red phase that it has
/// already shortened.
pub proof fn ley_boton_ignorado(d: Duraciones, s: EstadoDevs, t: int)
    requires
        s.fase == Fase::Verde || s.boton_atendido,
    ensures
        transicion(d, s, true, t) == transicion(d, s, false, t),
{
}

/// Activations at which nothing happens only let time go by: one at `t1`
/// followed by one at `t2` leaves the light as a single one at `t2` does.
pub proof fn ley_activaciones_sin_evento(
    d: Duraciones,
    s: EstadoDevs,
    boton: bool,
    t1: int,
    t2: int,
)
    requires
        estado_valido(d, s),
        s.t_last <= t1 <= t2 < s.t_last + s.sigma,
        !(s.fase == Fase::Rojo && boton && !s.boton_atendido),
    ensures
        transicion(d, transicion(d, s, boton, t1), boton, t2) == transicion(d, s, boton, t2),
{
}

/// With no press, a red phase started at `t0` stays red until exactly `rojo`
/// later, then turns green; that green turns red again exactly `verde` after.
pub proof fn ley_ciclo_normal(d: Duraciones, t0: int, t: int)
    requires
        d.validas(),
    ensures
        t0 <= t < t0 + d.rojo ==> transicion(d, fase_nueva(d, Fase::Rojo, t0), false, t).fase
            == Fase::Rojo,
        transicion(d, fase_nueva(d, Fase::Rojo, t0), false, t0 + d.rojo) == fase_nueva(
            d,
            Fase::Verde,
            t0 + d.rojo,
        ),
        t0 + d.rojo <= t < t0 + d.rojo + d.verde ==> transicion(
            d,
            fase_nueva(d, Fase::Verde, t0 + d.rojo),
            false,
            t,
        ).fase == Fase::Verde,
        transicion(d, fase_nueva(d, Fase::Verde, t0 + d.rojo), false, t0 + d.rojo + d.verde)
            == fase_nueva(d, Fase::Rojo, t0 + d.rojo + d.verde),
{
}

/// A red phase started at `t0` in which the button is pressed `p` into it
/// (before the phase is used up) turns green exactly at
/// `t0 + max(rojo_con_boton, p)`: an activation at any instant from the press
/// up to then keeps it red, whatever the button; one at that instant or later
/// turns it green.
pub proof fn ley_rojo_con_boton_dura_su_total(
    d: Duraciones,
    t0: int,
    p: int,
    boton: bool,
    t: int,
)
    requires
        d.validas(),
        0 <= p < d.rojo,
        t >= t0 + p,
    ensures
        ({
            let pulsado = transicion(d, fase_nueva(d, Fase::Rojo, t0), true, t0 + p);
            let fin = if p < d.rojo_con_boton {
                t0 + d.rojo_con_boton
            } else {
                t0 + p
            };
            &&& t < fin ==> transicion(d, pulsado, boton, t).fase == Fase::Rojo
            &&& t >= fin ==> transicion(d, pulsado, boton, t) == fase_nueva(d, Fase::Verde, t)
        }),
{
}

/// The end of a phase stays put while nothing happens: an activation
/// (not earlier than the previous one, before σ is used up, and with no press
/// to serve) keeps the phase, the press flag and the instant `t_last + σ` at
/// which the phase ends, and adds the time gone by to the time in the phase.
pub proof fn ley_fin_de_fase_fijo(d: Duraciones, s: EstadoDevs, boton: bool, t: int)
    requires
        estado_valido(d, s),
        s.t_last <= t < s.t_last + s.sigma,
        !(s.fase == Fase::Rojo && boton && !s.boton_atendido),
    ensures
        ({
            let r = transicion(d, s, boton, t);
            &&& r.fase == s.fase
            &&& r.boton_atendido == s.boton_atendido
            &&& r.t_last == t
            &&& r.t_last + r.sigma == s.t_last + s.sigma
            &&& r.elapsed == s.elapsed + (t - s.t_last)
        }),
{
}

/// The state after activations at `instantes[i]` with button `botones[i]`,
/// in order.
pub open spec fn tras_activaciones(
    d: Duraciones,
    s: EstadoDevs,
    botones: Seq<bool>,
    instantes: Seq<int>,
) -> EstadoDevs
    decreases instantes.len(),
{
    if instantes.len() == 0 || botones.len() == 0 {
        s
    } else {
        tras_activaciones(
            d,
            transicion(d, s, botones[0], instantes[0]),
            botones.drop_first(),
            instantes.drop_first(),
        )
    }
}

/// A red phase that the button has already shortened ends at `t_last + σ`
/// whatever activations come before that: after any number of them, in
/// order, at instants from the last activation up to (not including) that
/// end, and with any button values, the light is still red, the press is
/// still served, and the end is the same instant.
pub proof fn ley_rojo_pulsado_no_se_alarga(
    d: Duraciones,
    s: EstadoDevs,
    botones: Seq<bool>,
    instantes: Seq<int>,
)
    requires
        estado_valido(d, s),
        s.fase == Fase::Rojo,
        s.boton_atendido,
        forall|i: int| 0 <= i < instantes.len() ==> s.t_last <= #[trigger] instantes[i] < s.t_last + s.sigma,
        forall|i: int, j: int| 0 <= i < j < instantes.len() ==> instantes[i] <= instantes[j],
    ensures
        ({
            let r = tras_activaciones(d, s, botones, instantes);
            &&& estado_valido(d, r)
            &&& r.fase == Fase::Rojo
            &&& r.boton_atendido
            &&& r.t_last + r.sigma == s.t_last + s.sigma
        }),
    decreases instantes.len(),
{
    if instantes.len() > 0 && botones.len() > 0 {
        let t = instantes[0];
        let s1 = transicion(d, s, botones[0], t);
        ley_fin_de_fase_fijo(d, s, botones[0], t);
        ley_validez_se_conserva(d, s, botones[0], t);
        let resto = instantes.drop_first();
        assert forall|i: int| 0 <= i < resto.len() implies s1.t_last <= #[trigger] resto[i] < s1.t_last
            + s1.sigma by {
            assert(resto[i] == instantes[i + 1]);
            assert(instantes[0] <= instantes[i + 1]);
        }
        assert forall|i: int, j: int| 0 <= i < j < resto.len() implies resto[i] <= resto[j] by {
            assert(resto[i] == instantes[i + 1]);
            assert(resto[j] == instantes[j + 1]);
        }
        ley_rojo_pulsado_no_se_alarga(d, s1, botones.drop_first(), resto);
    }
}

/// A red phase started at `t0` and shortened by a press `p` into it (before
/// it is used up) ends exactly at `t0 + max(rojo_con_boton, p)`, whatever
/// activations follow the press before that instant: after any number of
/// them, in order, with any button values, σ is that end minus the last
/// activation's instant, and the light is red.
pub proof fn ley_rojo_pulsado_termina_en_su_total(
    d: Duraciones,
    t0: int,
    p: int,
    botones: Seq<bool>,
    instantes: Seq<int>,
)
    requires
        d.validas(),
        0 <= p < d.rojo,
        forall|i: int| 0 <= i < instantes.len() ==> t0 + p <= #[trigger] instantes[i] < t0 + (if p
            < d.rojo_con_boton {
            d.rojo_con_boton as int
        } else {
            p
        }),
        forall|i: int, j: int| 0 <= i < j < instantes.len() ==> instantes[i] <= instantes[j],
    ensures
        ({
            let pulsado = transicion(d, fase_nueva(d, Fase::Rojo, t0), true, t0 + p);
            let r = tras_activaciones(d, pulsado, botones, instantes);
            let fin = t0 + (if p < d.rojo_con_boton {
                d.rojo_con_boton as int
            } else {
                p
            });
            &&& r.fase == Fase::Rojo
            &&& r.sigma == fin - r.t_last
        }),
{
    let pulsado = transicion(d, fase_nueva(d, Fase::Rojo, t0), true, t0 + p);
    ley_validez_se_conserva(d, fase_nueva(d, Fase::Rojo, t0), true, t0 + p);
    ley_rojo_pulsado_no_se_alarga(d, pulsado, botones, instantes);
}

/// What a light shows from outside: its button input, its outputs as they
/// were last computed, and the state of its atom.
pub struct VistaSemaforo {
    pub boton: bool,
    pub rojo: bool,
    pub verde: bool,
    pub t_restante: int,
    pub estado: EstadoDevs,
}

/// A traffic light whose durations come from the profile `P`.
#[derive(Debug)]
pub struct SemaforoDevs<P: Perfil> {
    perfil: PhantomData<P>,
    /// Pedestrian button input (pressed or not).
    boton: bool,
    /// Output: red is on.
    rojo: bool,
    /// Output: green is on.
    verde: bool,
    /// Output: nanoseconds until the next phase change (σ).
    t_restante: i64,
    fase: Fase,
    sigma: i64,
    elapsed: i64,
    t_last: i64,
    boton_atendido: bool,
}

/// The first light: 60 s red, 30 s green, 15 s red with button.
pub type Semaforo = SemaforoDevs<PerfilClasico>;

/// The second light: 30 s red, 15 s green, 20 s red with button.
pub type SemaforoV2 = SemaforoDevs<PerfilV2>;

impl<P: Perfil> View for SemaforoDevs<P> {
    type V = VistaSemaforo;

    closed spec fn view(&self) -> VistaSemaforo {
        VistaSemaforo {
            boton: self.boton,
            rojo: self.rojo,
            verde: self.verde,
            t_restante: self.t_restante as int,
            estado: EstadoDevs {
                fase: self.fase,
                sigma: self.sigma as int,
                elapsed: self.elapsed as int,
                t_last: self.t_last as int,
                boton_atendido: self.boton_atendido,
            },
        }
    }
}

impl<P: Perfil> SemaforoDevs<P> {
    #[verifier::type_invariant]
    closed spec fn bien_formado(self) -> bool {
        estado_valido(P::duraciones_spec(), self@.estado)
    }

    /// One activation of the partition at instant `t` (internal or
    /// external, told apart by whether σ is used up).
    pub fn activar(&mut self, t: i64)
        ensures
            final(self)@ == (VistaSemaforo {
                estado: transicion(P::duraciones_spec(), old(self)@.estado, old(self)@.boton, t as int),
                ..old(self)@
            }),
    {
        proof {
            use_type_invariant(&*self);
        }
        let d = P::duraciones();
        let dif: i128 = (t as i128) - (self.t_last as i128);
        let e: i128 = if dif > 0 {
            dif
        } else {
            0
        };
        let (fase, sigma, elapsed, atendido) = if e >= self.sigma as i128 {
            match self.fase {
                Fase::Rojo => (Fase::Verde, d.verde, 0i64, false),
                Fase::Verde => (Fase::Rojo, d.rojo, 0i64, false),
            }
        } else {
            let e64: i64 = e as i64;
            let en_fase: i64 = self.elapsed + e64;
            if self.fase == Fase::Rojo && self.boton && !self.boton_atendido {
                let resto: i64 = if d.rojo_con_boton > en_fase {
                    d.rojo_con_boton - en_fase
                } else {
                    0
                };
                (Fase::Rojo, resto, en_fase, true)
            } else {
                (self.fase, self.sigma - e64, en_fase, self.boton_atendido)
            }
        };
        *self = SemaforoDevs {
            perfil: PhantomData,
            boton: self.boton,
            rojo: self.rojo,
            verde: self.verde,
            t_restante: self.t_restante,
            fase,
            sigma,
            elapsed,
            t_last: t,
            boton_atendido: atendido,
        };
    }
    /// Computes the outputs from the state: which light is on, and σ.
    pub fn calculate_values(&mut self)
        ensures
            final(self)@ == (VistaSemaforo {
                rojo: old(self)@.estado.fase == Fase::Rojo,
                verde: old(self)@.estado.fase == Fase::Verde,
                t_restante: old(self)@.estado.sigma,
                ..old(self)@
            }),
    {
        proof {
            use_type_invariant(&*self);
        }
        *self = SemaforoDevs {
            perfil: PhantomData,
            boton: self.boton,
            rojo: self.fase == Fase::Rojo,
            verde: self.fase == Fase::Verde,
            t_restante: self.sigma,
            fase: self.fase,
            sigma: self.sigma,
            elapsed: self.elapsed,
            t_last: self.t_last,
            boton_atendido: self.boton_atendido,
        };
    }

    /// Sets the pedestrian button input; it takes effect at the next activation.
    pub fn set_boton(&mut self, pulsado: bool)
        ensures
            final(self)@ == (VistaSemaforo { boton: pulsado, ..old(self)@ }),
    {
        proof {
            use_type_invariant(&*self);
        }
        *self = SemaforoDevs {
            perfil: PhantomData,
            boton: pulsado,
            rojo: self.rojo,
            verde: self.verde,
            t_restante: self.t_restante,
            fase: self.fase,
            sigma: self.sigma,
            elapsed: self.elapsed,
            t_last: self.t_last,
            boton_atendido: self.boton_atendido,
        };
    }

    /// The button input.
    pub fn boton(&self) -> (r: bool)
        ensures
            r == self@.boton,
    {
        self.boton
    }

    /// Whether the red output is on (as last computed).
    pub fn rojo(&self) -> (r: bool)
        ensures
            r == self@.rojo,
    {
        self.rojo
    }

    /// Whether the green output is on (as last computed).
    pub fn verde(&self) -> (r: bool)
        ensures
            r == self@.verde,
    {
        self.verde
    }

    /// Output: nanoseconds until the next phase change (as last computed).
    pub fn t_restante(&self) -> (r: i64)
        ensures
            r == self@.t_restante,
    {
        self.t_restante
    }

    /// The current phase.
    pub fn fase(&self) -> (r: Fase)
        ensures
            r == self@.estado.fase,
    {
        self.fase
    }

    /// σ = ta(): nanoseconds until the internal transition. This is the
    /// interval of the countdown clock that triggers the partition.
    pub fn sigma(&self) -> (r: i64)
        ensures
            r == self@.estado.sigma,
            r >= 0,
    {
        proof {
            use_type_invariant(self);
        }
        self.sigma
    }

    /// Time spent in the current phase.
    pub fn elapsed(&self) -> (r: i64)
        ensures
            r == self@.estado.elapsed,
    {
        self.elapsed
    }

    /// Instant of the last activation.
    pub fn t_last(&self) -> (r: i64)
        ensures
            r == self@.estado.t_last,
    {
        self.t_last
    }

    /// Whether the button has already shortened the current red phase.
    pub fn boton_atendido(&self) -> (r: bool)
        ensures
            r == self@.estado.boton_atendido,
    {
        self.boton_atendido
    }
}

impl<P: Perfil> Default for SemaforoDevs<P> {
    /// Red just started at instant 0, σ = the red duration, outputs to match.
    fn default() -> (s: Self)
        ensures
            s@ == (VistaSemaforo {
                boton: false,
                rojo: true,
                verde: false,
                t_restante: P::duraciones_spec().rojo as int,
                estado: fase_nueva(P::duraciones_spec(), Fase::Rojo, 0),
            }),
            s@.estado.fase == Fase::Rojo,
            s@.estado.sigma == P::duraciones_spec().rojo,
            s@.estado.elapsed == 0,
            s@.estado.t_last == 0,
            !s@.estado.boton_atendido,
    {
        let d = P::duraciones();
        SemaforoDevs {
            perfil: PhantomData,
            boton: false,
            rojo: true,
            verde: false,
            t_restante: d.rojo,
            fase: Fase::Rojo,
            sigma: d.rojo,
            elapsed: 0,
            t_last: 0,
            boton_atendido: false,
        }
    }
}

} // verus!
