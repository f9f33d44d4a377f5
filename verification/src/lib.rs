//! Entscheidungslogik der ASUS-Einstellungsseiten: OLED-Pflege, Splendid und Funktionstaste.
//!
//! Jede Komponente ist eine Zustandsmaschine: aus Zustand und Nachricht berechnet sie den
//! Folgezustand und die auszuführende Aktion (Prozessaufruf, Protokollzeile). Die Ausführung
//! selbst (Prozesse, Dateien, Oberfläche) liegt außerhalb dieser Bibliothek.
use vstd::prelude::*;

pub mod fn_key;
pub mod oled_care;
pub mod prozess;
pub mod splendid;
pub mod text;

verus! {

} // verus!
