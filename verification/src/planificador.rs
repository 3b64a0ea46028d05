//! Decisions of the scheduler that couples the pulse generator
//! (Co-Simulation, stepped on a fixed grid) with the traffic light
//! (Scheduled Execution, driven by its countdown clock).
//!
//! The scheduler merges two sources of events: the light's countdown
//! (internal events, at `t_reloj`) and the edges of the generator's output
//! (external events, seen on the grid points `t_rejilla`). After every
//! activation of the light its interval is read again and the clock is
//! rescheduled at `t + σ`. The caller does the stepping, the activations and
//! the reads; this type decides when.

use vstd::prelude::*;

verus! {

/// Where the scheduler stands in time.
pub struct Planificador {
    /// Current instant (ns).
    t: i64,
    /// Next internal event of the light.
    t_reloj: i64,
    /// Next communication point of the generator.
    t_rejilla: i64,
    /// Communication step of the generator.
    paso: i64,
    /// End of the co-simulation.
    t_fin: i64,
}

/// `a + b`, or `i64::MAX` when that does not fit.
pub open spec fn suma_saturada(a: int, b: int) -> int {
    if a + b > i64::MAX {
        i64::MAX as int
    } else {
        a + b
    }
}

pub open spec fn min3(a: int, b: int, c: int) -> int {
    if a <= b && a <= c {
        a
    } else if b <= c {
        b
    } else {
        c
    }
}

/// Saturating addition: the sum when it fits in an `i64`, `i64::MAX`
/// otherwise; never less than `a` when `b` is not negative.
pub proof fn ley_suma_saturada(a: int, b: int)
    ensures
        a + b <= i64::MAX ==> suma_saturada(a, b) == a + b,
        a + b > i64::MAX ==> suma_saturada(a, b) == i64::MAX,
        b >= 0 && a <= i64::MAX ==> suma_saturada(a, b) >= a,
{
}

/// `min3` is the least of its three arguments: no larger than any of them,
/// and equal to one of them.
pub proof fn ley_min3(a: int, b: int, c: int)
    ensures
        min3(a, b, c) <= a,
        min3(a, b, c) <= b,
        min3(a, b, c) <= c,
        min3(a, b, c) == a || min3(a, b, c) == b || min3(a, b, c) == c,
{
}

impl Planificador {
    #[verifier::type_invariant]
    closed spec fn bien_formado(self) -> bool {
        &&& self.paso > 0
        &&& 0 <= self.t
        &&& self.t <= self.t_reloj
        &&& self.t <= self.t_rejilla
    }

    pub closed spec fn spec_t(self) -> int {
        self.t as int
    }

    pub closed spec fn spec_t_reloj(self) -> int {
        self.t_reloj as int
    }

    pub closed spec fn spec_t_rejilla(self) -> int {
        self.t_rejilla as int
    }

    pub closed spec fn spec_paso(self) -> int {
        self.paso as int
    }

    pub closed spec fn spec_t_fin(self) -> int {
        self.t_fin as int
    }

    /// Starts at instant 0, with the light's first interval `sigma`, the
    /// generator's step `paso` and the end `t_fin`.
    pub fn nuevo(sigma: i64, paso: i64, t_fin: i64) -> (p: Self)
        requires
            sigma >= 0,
            paso > 0,
        ensures
            p.spec_t() == 0,
            p.spec_t_reloj() == sigma,
            p.spec_t_rejilla() == paso,
            p.spec_paso() == paso,
            p.spec_t_fin() == t_fin,
    {
        Planificador { t: 0, t_reloj: sigma, t_rejilla: paso, paso, t_fin }
    }

    /// The current instant.
    pub fn t(&self) -> (r: i64)
        ensures
            r == self.spec_t(),
    {
        self.t
    }

    /// When the light's next internal event is due.
    pub fn t_reloj(&self) -> (r: i64)
        ensures
            r == self.spec_t_reloj(),
    {
        self.t_reloj
    }

    /// The generator's next communication point.
    pub fn t_rejilla(&self) -> (r: i64)
        ensures
            r == self.spec_t_rejilla(),
    {
        self.t_rejilla
    }

    /// Whether the co-simulation has not reached its end.
    pub fn en_curso(&self) -> (r: bool)
        ensures
            r == (self.spec_t() < self.spec_t_fin()),
    {
        self.t < self.t_fin
    }

    /// Moves to the next instant of interest: the generator's next grid
    /// point, the light's next internal event or the end, whichever comes
    /// first. Returns how far time moved (the generator is stepped by that
    /// much when it is positive).
    pub fn avanzar(&mut self) -> (h: i64)
        requires
            old(self).spec_t() < old(self).spec_t_fin(),
        ensures
            final(self).spec_t() == min3(
                old(self).spec_t_rejilla(),
                old(self).spec_t_reloj(),
                old(self).spec_t_fin(),
            ),
            final(self).spec_t() <= old(self).spec_t_fin(),
            final(self).spec_t() <= old(self).spec_t_reloj(),
            final(self).spec_t() <= old(self).spec_t_rejilla(),
            final(self).spec_t() == old(self).spec_t_fin() || final(self).spec_t()
                == old(self).spec_t_reloj() || final(self).spec_t() == old(self).spec_t_rejilla(),
            h == final(self).spec_t() - old(self).spec_t(),
            h >= 0,
            old(self).spec_t() < old(self).spec_t_reloj() && old(self).spec_t()
                < old(self).spec_t_rejilla() ==> h > 0,
            final(self).spec_t_reloj() == old(self).spec_t_reloj(),
            final(self).spec_t_rejilla() == old(self).spec_t_rejilla(),
            final(self).spec_paso() == old(self).spec_paso(),
            final(self).spec_t_fin() == old(self).spec_t_fin(),
    {
        proof {
            use_type_invariant(&*self);
        }
        let mut siguiente = self.t_rejilla;
        if self.t_reloj < siguiente {
            siguiente = self.t_reloj;
        }
        if self.t_fin < siguiente {
            siguiente = self.t_fin;
        }
        let h = siguiente - self.t;
        self.t = siguiente;
        h
    }

    /// Whether the light's countdown runs out at the current instant (an
    /// internal event is due).
    pub fn vence_reloj(&self) -> (r: bool)
        ensures
            r == (self.spec_t() == self.spec_t_reloj()),
    {
        self.t == self.t_reloj
    }

    /// After an activation of the light at the current instant: its next
    /// internal event is `sigma` from now.
    pub fn reprogramar(&mut self, sigma: i64)
        requires
            sigma >= 0,
        ensures
            final(self).spec_t_reloj() == suma_saturada(old(self).spec_t(), sigma as int),
            final(self).spec_t() == old(self).spec_t(),
            final(self).spec_t_rejilla() == old(self).spec_t_rejilla(),
            final(self).spec_paso() == old(self).spec_paso(),
            final(self).spec_t_fin() == old(self).spec_t_fin(),
    {
        proof {
            use_type_invariant(&*self);
        }
        self.t_reloj = if sigma > i64::MAX - self.t {
            i64::MAX
        } else {
            self.t + sigma
        };
    }

    /// Once the current instant is handled: when it is a grid point, the
    /// next grid point is one step later.
    pub fn avanzar_rejilla(&mut self)
        ensures
            final(self).spec_t_rejilla() == if old(self).spec_t() == old(self).spec_t_rejilla() {
                suma_saturada(old(self).spec_t_rejilla(), old(self).spec_paso())
            } else {
                old(self).spec_t_rejilla()
            },
            final(self).spec_t() < final(self).spec_t_rejilla() || final(self).spec_t() == i64::MAX,
            final(self).spec_t() == old(self).spec_t(),
            final(self).spec_t_reloj() == old(self).spec_t_reloj(),
            final(self).spec_paso() == old(self).spec_paso(),
            final(self).spec_t_fin() == old(self).spec_t_fin(),
    {
        proof {
            use_type_invariant(&*self);
        }
        if self.t == self.t_rejilla {
            self.t_rejilla = if self.paso > i64::MAX - self.t_rejilla {
                i64::MAX
            } else {
                self.t_rejilla + self.paso
            };
        }
    }
}

} // verus!
