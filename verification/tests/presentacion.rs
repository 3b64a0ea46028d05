use semaforo_devs::presentacion::{fase, nombre_dll, SistemaOperativo};

#[test]
fn etiquetas_de_fase() {
    assert_eq!(fase(true, false), "🔴 ROJO ");
    assert_eq!(fase(false, true), "🟢 VERDE");
    assert_eq!(fase(true, true), "🔴 ROJO ");
    assert_eq!(fase(false, false), "  ?     ");
}

#[test]
fn nombres_de_biblioteca() {
    assert_eq!(nombre_dll("semaforoV2_se", SistemaOperativo::Windows), "semaforoV2_se.dll");
    assert_eq!(nombre_dll("boton_pwm_cs", SistemaOperativo::MacOs), "libboton_pwm_cs.dylib");
    assert_eq!(nombre_dll("boton_pwm_cs", SistemaOperativo::OtroUnix), "libboton_pwm_cs.so");
}
