use semaforo_devs::semaforo::{Fase, Semaforo};

/// Seconds to the nanoseconds the library counts in.
fn ns(segundos: f64) -> i64 {
    (segundos * 1e9).round() as i64
}

#[test]
fn ciclo_normal_60_30() {
    let mut s = Semaforo::default();
    assert_eq!(s.fase(), Fase::Rojo);
    s.activar(ns(60.0)); // internal event: end of red
    assert_eq!(s.fase(), Fase::Verde);
    assert_eq!(s.sigma(), ns(30.0));
    s.activar(ns(90.0)); // end of green
    assert_eq!(s.fase(), Fase::Rojo);
    assert_eq!(s.sigma(), ns(60.0));
}

#[test]
fn boton_temprano_acorta_a_15() {
    let mut s = Semaforo::default();
    s.set_boton(true);
    s.activar(ns(10.0)); // external event at t=10 (elapsed 10 < 15)
    assert_eq!(s.fase(), Fase::Rojo);
    assert_eq!(s.sigma(), ns(5.0), "quedan 15-10=5 s de rojo");
    s.activar(ns(15.0)); // rescheduled internal event
    assert_eq!(s.fase(), Fase::Verde);
}

#[test]
fn lib_boton_tardio_cambia_inmediato() {
    let mut s = Semaforo::default();
    s.activar(ns(50.0)); // external event with no press: time goes by
    s.set_boton(true);
    s.activar(ns(50.0)); // press at t=50 (elapsed 50 >= 15)
    assert_eq!(s.sigma(), 0, "σ=0 → cambio inmediato pendiente");
    s.activar(ns(50.0)); // re-activation at the same instant → internal event
    assert_eq!(s.fase(), Fase::Verde);
}

#[test]
fn lib_boton_en_verde_se_ignora() {
    let mut s = Semaforo::default();
    s.activar(ns(60.0)); // → green
    s.set_boton(true);
    s.activar(ns(70.0)); // press during green
    assert_eq!(s.fase(), Fase::Verde);
    assert_eq!(s.sigma(), ns(20.0), "el verde sigue su curso");
}

/// The outputs reflect the state after `calculate_values`.
#[test]
fn salidas_reflejan_estado() {
    let mut s = Semaforo::default();
    s.calculate_values();
    assert!(s.rojo());
    assert!(!s.verde());
    assert_eq!(s.t_restante(), ns(60.0));
    s.activar(ns(60.0));
    s.calculate_values();
    assert!(!s.rojo());
    assert!(s.verde());
    assert_eq!(s.t_restante(), ns(30.0));
}

#[test]
fn salidas_no_cambian_hasta_calcularlas() {
    let mut s = Semaforo::default();
    s.activar(ns(60.0));
    assert!(s.rojo());
    assert!(!s.verde());
    assert_eq!(s.t_restante(), ns(60.0));
    s.calculate_values();
    assert!(s.verde());
}
