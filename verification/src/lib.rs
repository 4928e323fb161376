//! Gestión de hermanos, familias y cuotas de una hermandad.

pub mod modelo;
pub mod db;
pub mod recibos;
pub mod texto;
pub mod fecha;
pub mod backup;
pub mod config;
pub mod arranque;
pub mod leyes;

pub mod semilla;
