//! Button-pulse generator: a signal that holds `amplitud` during up to four
//! presses, each `ancho_pulso` long, starting at instants of your choice,
//! and `reposo` otherwise. A negative start instant switches that press off.
//!
//! | Wanted                      | Setting                                        |
//! |-----------------------------|------------------------------------------------|
//! | four presses                | `t_pulso1..4` = the instants                   |
//! | only two presses            | `t_pulso3`, `t_pulso4` negative                |
//! | a step (goes up, stays up)  | `t_pulso1 = T`, a huge `ancho_pulso`           |
//!
//! The signal is a function of time alone: the generator has no state.

use vstd::prelude::*;

verus! {

/// Signal generator; the value type `A` is that of the output signal.
#[derive(Debug)]
pub struct BotonPwm<A> {
    /// Start of the 1st press (ns); negative = switched off.
    pub t_pulso1: i64,
    /// Start of the 2nd press (ns); negative = switched off.
    pub t_pulso2: i64,
    /// Start of the 3rd press (ns); negative = switched off.
    pub t_pulso3: i64,
    /// Start of the 4th press (ns); negative = switched off.
    pub t_pulso4: i64,
    /// Length of every press (ns).
    pub ancho_pulso: i64,
    /// Signal value during a press.
    pub amplitud: A,
    /// Signal value outside the presses.
    pub reposo: A,
}

impl<A> BotonPwm<A> {
    /// Whether the press starting at `tp` holds the signal up at `t`.
    pub open spec fn en_pulso(self, tp: i64, t: i64) -> bool {
        &&& tp >= 0
        &&& tp <= t
        &&& t < tp + self.ancho_pulso
    }

    /// Whether some press holds the signal up at `t`.
    pub open spec fn pulsando(self, t: i64) -> bool {
        &&& self.ancho_pulso > 0
        &&& {
            ||| self.en_pulso(self.t_pulso1, t)
            ||| self.en_pulso(self.t_pulso2, t)
            ||| self.en_pulso(self.t_pulso3, t)
            ||| self.en_pulso(self.t_pulso4, t)
        }
    }

    /// The signal at `t`.
    pub open spec fn spec_senal(self, t: i64) -> A {
        if self.pulsando(t) {
            self.amplitud
        } else {
            self.reposo
        }
    }

    /// The generator's starting configuration: presses at 8, 45, 95 and 118 s,
    /// 2 s each (chosen to fall inside red phases of the light).
    pub fn nuevo(amplitud: A, reposo: A) -> (g: Self)
        ensures
            g.t_pulso1 == 8_000_000_000,
            g.t_pulso2 == 45_000_000_000,
            g.t_pulso3 == 95_000_000_000,
            g.t_pulso4 == 118_000_000_000,
            g.ancho_pulso == 2_000_000_000,
            g.amplitud == amplitud,
            g.reposo == reposo,
    {
        BotonPwm {
            t_pulso1: 8_000_000_000,
            t_pulso2: 45_000_000_000,
            t_pulso3: 95_000_000_000,
            t_pulso4: 118_000_000_000,
            ancho_pulso: 2_000_000_000,
            amplitud,
            reposo,
        }
    }

    /// Whether the press starting at `tp` holds the signal up at `t`.
    fn dentro_de(&self, tp: i64, t: i64) -> (r: bool)
        ensures
            r == self.en_pulso(tp, t),
    {
        // `t - tp` cannot overflow once `0 <= tp <= t`.
        tp >= 0 && t >= tp && t - tp < self.ancho_pulso
    }

    /// Value of the signal at instant `t`.
    pub fn senal_en(&self, t: i64) -> (r: A)
        where A: Copy
        ensures
            r == self.spec_senal(t),
    {
        if self.ancho_pulso <= 0 {
            return self.reposo;
        }
        let pulsaciones: [i64; 4] = [self.t_pulso1, self.t_pulso2, self.t_pulso3, self.t_pulso4];
        let mut i: usize = 0;
        while i < 4
            invariant
                0 <= i <= 4,
                self.ancho_pulso > 0,
                pulsaciones@ == seq![self.t_pulso1, self.t_pulso2, self.t_pulso3, self.t_pulso4],
                forall|j: int| 0 <= j < i ==> !self.en_pulso(#[trigger] pulsaciones@[j], t),
            decreases 4 - i,
        {
            if self.dentro_de(pulsaciones[i], t) {
                return self.amplitud;
            }
            i = i + 1;
        }
        assert(!self.en_pulso(pulsaciones@[0], t));
        assert(!self.en_pulso(pulsaciones@[1], t));
        assert(!self.en_pulso(pulsaciones@[2], t));
        assert(!self.en_pulso(pulsaciones@[3], t));
        self.reposo
    }
}

/// Each switched-on press holds the signal at `amplitud` for exactly its
/// width: from its start (included) to its start plus `ancho_pulso`
/// (excluded).
pub proof fn ley_cada_pulsacion_dura_su_ancho<A>(g: BotonPwm<A>, tp: i64, t: i64)
    requires
        tp == g.t_pulso1 || tp == g.t_pulso2 || tp == g.t_pulso3 || tp == g.t_pulso4,
        tp >= 0,
        g.ancho_pulso > 0,
        tp <= t < tp + g.ancho_pulso,
    ensures
        g.spec_senal(t) == g.amplitud,
{
}

/// A negative start switches a press off, whatever its value: two
/// generators that differ only in which negative starts they hold give the
/// same signal.
pub proof fn ley_negativo_desactiva<A>(g: BotonPwm<A>, h: BotonPwm<A>, t: i64)
    requires
        h.ancho_pulso == g.ancho_pulso,
        h.amplitud == g.amplitud,
        h.reposo == g.reposo,
        h.t_pulso1 == g.t_pulso1 || (h.t_pulso1 < 0 && g.t_pulso1 < 0),
        h.t_pulso2 == g.t_pulso2 || (h.t_pulso2 < 0 && g.t_pulso2 < 0),
        h.t_pulso3 == g.t_pulso3 || (h.t_pulso3 < 0 && g.t_pulso3 < 0),
        h.t_pulso4 == g.t_pulso4 || (h.t_pulso4 < 0 && g.t_pulso4 < 0),
    ensures
        h.spec_senal(t) == g.spec_senal(t),
{
}

/// Outside every press the signal is `reposo`: when no start `tp` among
/// `t_pulso1..4` has `0 <= tp <= t < tp + ancho_pulso`, the signal at `t` is
/// `reposo` (in particular, whenever the width is not positive).
pub proof fn ley_reposo_fuera_de_pulsaciones<A>(g: BotonPwm<A>, t: i64)
    requires
        !(0 <= g.t_pulso1 <= t && t < g.t_pulso1 + g.ancho_pulso),
        !(0 <= g.t_pulso2 <= t && t < g.t_pulso2 + g.ancho_pulso),
        !(0 <= g.t_pulso3 <= t && t < g.t_pulso3 + g.ancho_pulso),
        !(0 <= g.t_pulso4 <= t && t < g.t_pulso4 + g.ancho_pulso),
    ensures
        g.spec_senal(t) == g.reposo,
{
}

/// A press ends: once `ancho_pulso` has gone by since its start, a press
/// no longer holds the signal up; with a single switched-on press, the
/// signal is `reposo` from its start plus the width on.
pub proof fn ley_una_pulsacion_termina<A>(g: BotonPwm<A>, t: i64)
    requires
        g.t_pulso2 < 0,
        g.t_pulso3 < 0,
        g.t_pulso4 < 0,
        t >= g.t_pulso1 + g.ancho_pulso,
    ensures
        g.spec_senal(t) == g.reposo,
{
}

} // verus!
