//! A DEVS traffic light with a pedestrian button, the button-pulse generator
//! that drives it, and the decisions of the scheduler that couples both.
//!
//! Instants and durations are whole nanoseconds (`i64`).

pub mod presentacion;
pub mod semaforo;
pub mod boton;
pub mod planificador;
