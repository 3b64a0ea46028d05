use semaforo_devs::boton::BotonPwm;
use semaforo_devs::planificador::Planificador;
use semaforo_devs::semaforo::{Fase, SemaforoV2};

/// Seconds to the nanoseconds the library counts in.
fn ns(segundos: f64) -> i64 {
    (segundos * 1e9).round() as i64
}

#[derive(Debug, PartialEq)]
enum Evento {
    Interno,
    Pulsado,
    Soltado,
}

/// Runs the coupled scheduler on the library's own generator and light:
/// 2 s presses every 40 s from 8 s, grid of 0.5 s, 130 s long. Returns
/// (instant, phase, σ, event) for every instant at which something happened.
fn co_simular() -> Vec<(i64, Fase, i64, Evento)> {
    let mut generador = BotonPwm::nuevo(1.0f64, 0.0f64);
    generador.t_pulso1 = ns(8.0);
    generador.t_pulso2 = ns(48.0);
    generador.t_pulso3 = ns(88.0);
    generador.t_pulso4 = ns(128.0);
    let mut luz = SemaforoV2::default();
    let mut plan = Planificador::nuevo(luz.sigma(), ns(0.5), ns(130.0));
    let mut boton_prev = 0.0f64;
    let mut traza = Vec::new();
    while plan.en_curso() {
        plan.avanzar();
        let t = plan.t();
        let boton = generador.senal_en(t);
        let mut evento = None;
        if plan.vence_reloj() {
            luz.activar(t);
            plan.reprogramar(luz.sigma());
            evento = Some(Evento::Interno);
        }
        if (boton - boton_prev).abs() > 0.5 {
            luz.set_boton(boton >= 0.5);
            luz.activar(t);
            plan.reprogramar(luz.sigma());
            evento = Some(if boton >= 0.5 { Evento::Pulsado } else { Evento::Soltado });
            boton_prev = boton;
        }
        plan.avanzar_rejilla();
        if let Some(ev) = evento {
            traza.push((t, luz.fase(), luz.sigma(), ev));
        }
    }
    traza
}

#[test]
fn traza_de_la_co_simulacion_acoplada() {
    let traza = co_simular();
    let esperadas = [
        (ns(8.0), Fase::Rojo, ns(12.0), Evento::Pulsado), // σ = 20 - 8
        (ns(20.0), Fase::Verde, ns(15.0), Evento::Interno), // red lasted 20 s
        (ns(35.0), Fase::Rojo, ns(30.0), Evento::Interno),
        (ns(48.0), Fase::Rojo, ns(7.0), Evento::Pulsado), // σ = 20 - 13
        (ns(55.0), Fase::Verde, ns(15.0), Evento::Interno), // red lasted 20 s
        (ns(128.0), Fase::Rojo, 0, Evento::Pulsado), // red had run 23 s
        (ns(128.0), Fase::Verde, ns(15.0), Evento::Interno), // immediate change
    ];
    for fila in esperadas.iter() {
        assert!(traza.contains(fila), "falta {fila:?} en {traza:?}");
    }
    // The rows at 128 s come in that order, one right after the other.
    let i = traza.iter().position(|f| *f == esperadas[5]).unwrap();
    assert_eq!(traza[i + 1], esperadas[6]);
    // Time never goes back.
    for par in traza.windows(2) {
        assert!(par[0].0 <= par[1].0);
    }
}
