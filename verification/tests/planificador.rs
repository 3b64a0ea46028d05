use semaforo_devs::planificador::Planificador;

/// Seconds to the nanoseconds the library counts in.
fn ns(segundos: f64) -> i64 {
    (segundos * 1e9).round() as i64
}

#[test]
fn avanza_al_evento_mas_proximo() {
    let mut p = Planificador::nuevo(ns(30.0), ns(0.5), ns(130.0));
    assert_eq!(p.t(), 0);
    assert!(p.en_curso());
    let h = p.avanzar();
    assert_eq!(h, ns(0.5));
    assert_eq!(p.t(), ns(0.5));
    assert!(!p.vence_reloj());
    p.avanzar_rejilla();
    assert_eq!(p.t_rejilla(), ns(1.0));
}

#[test]
fn el_reloj_se_atiende_en_su_instante() {
    let mut p = Planificador::nuevo(ns(0.2), ns(0.5), ns(10.0));
    let h = p.avanzar();
    assert_eq!(h, ns(0.2));
    assert!(p.vence_reloj());
    p.reprogramar(ns(15.0));
    assert_eq!(p.t_reloj(), ns(15.2));
    p.avanzar_rejilla(); // 0.2 is not a grid point
    assert_eq!(p.t_rejilla(), ns(0.5));
}

#[test]
fn sigma_cero_reactiva_en_el_mismo_instante() {
    let mut p = Planificador::nuevo(ns(1.0), ns(0.5), ns(10.0));
    p.avanzar();
    p.avanzar_rejilla();
    p.reprogramar(0);
    assert!(p.vence_reloj());
    let h = p.avanzar();
    assert_eq!(h, 0);
    assert!(p.vence_reloj());
}

#[test]
fn termina_en_el_final() {
    let mut p = Planificador::nuevo(ns(100.0), ns(1.0), ns(2.5));
    let mut vueltas = 0;
    while p.en_curso() {
        p.avanzar();
        if p.vence_reloj() {
            p.reprogramar(ns(100.0));
        }
        p.avanzar_rejilla();
        vueltas += 1;
    }
    assert_eq!(p.t(), ns(2.5));
    assert_eq!(vueltas, 3);
}

#[test]
fn reprogramar_satura() {
    let mut p = Planificador::nuevo(0, 1, 10);
    p.reprogramar(i64::MAX);
    assert_eq!(p.t_reloj(), i64::MAX);
}
