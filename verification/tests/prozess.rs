use asus_steuerung::prozess::{
    fehlermeldung, qdbus_args, qdbus_ergebnis, qdbus_rueckfall, Ausfuehrung, ProzessStatus, QdbusProgramm,
};

fn beendet(erfolg: bool, code: Option<i32>) -> Ausfuehrung {
    Ausfuehrung::Beendet(ProzessStatus { erfolg, code })
}

#[test]
fn fehlermeldung_bei_erfolg_keine() {
    assert_eq!(fehlermeldung("kwriteconfig6", "kwriteconfig6", &beendet(true, Some(0))), None);
}

#[test]
fn fehlermeldung_mit_exit_code() {
    assert_eq!(
        fehlermeldung("kwriteconfig6", "kwriteconfig6", &beendet(false, Some(2))),
        Some("kwriteconfig6 fehlgeschlagen mit Exit-Code: 2".to_string())
    );
}

#[test]
fn fehlermeldung_ohne_exit_code_minus_eins() {
    assert_eq!(
        fehlermeldung("pkexec", "pkexec", &beendet(false, None)),
        Some("pkexec fehlgeschlagen mit Exit-Code: -1".to_string())
    );
}

#[test]
fn fehlermeldung_start_und_task() {
    assert_eq!(
        fehlermeldung("a", "kwriteconfig6", &Ausfuehrung::StartFehler("No such file".to_string())),
        Some("kwriteconfig6 starten fehlgeschlagen: No such file".to_string())
    );
    assert_eq!(
        fehlermeldung("a", "b", &Ausfuehrung::TaskFehler("task panicked".to_string())),
        Some("spawn_blocking fehlgeschlagen: task panicked".to_string())
    );
}

#[test]
fn qdbus_rueckfall_nur_bei_fehlendem_qt6() {
    assert_eq!(qdbus_rueckfall(QdbusProgramm::Qt6, true), Some(QdbusProgramm::Klassisch));
    assert_eq!(qdbus_rueckfall(QdbusProgramm::Qt6, false), None);
    assert_eq!(qdbus_rueckfall(QdbusProgramm::Klassisch, true), None);
    assert_eq!(qdbus_rueckfall(QdbusProgramm::Klassisch, false), None);
}

#[test]
fn qdbus_programmnamen() {
    assert_eq!(QdbusProgramm::Qt6.name(), "qdbus-qt6");
    assert_eq!(QdbusProgramm::Klassisch.name(), "qdbus");
}

#[test]
fn qdbus_ergebnis_meldungen() {
    assert_eq!(
        qdbus_ergebnis(QdbusProgramm::Qt6, &beendet(true, Some(0))),
        Ok(ProzessStatus { erfolg: true, code: Some(0) })
    );
    assert_eq!(
        qdbus_ergebnis(QdbusProgramm::Klassisch, &beendet(true, None)),
        Ok(ProzessStatus { erfolg: true, code: None })
    );
    assert_eq!(
        qdbus_ergebnis(QdbusProgramm::Qt6, &beendet(false, Some(1))),
        Err("qdbus-qt6 fehlgeschlagen mit Exit-Code: 1".to_string())
    );
    assert_eq!(
        qdbus_ergebnis(QdbusProgramm::Klassisch, &beendet(false, None)),
        Err("qdbus fehlgeschlagen mit Exit-Code: -1".to_string())
    );
    assert_eq!(
        qdbus_ergebnis(QdbusProgramm::Klassisch, &Ausfuehrung::StartFehler("not found".to_string())),
        Err("qdbus starten fehlgeschlagen: not found".to_string())
    );
    assert_eq!(
        qdbus_ergebnis(QdbusProgramm::Qt6, &Ausfuehrung::TaskFehler("cancelled".to_string())),
        Err("spawn_blocking fehlgeschlagen: cancelled".to_string())
    );
}

#[test]
fn qdbus_args_reihenfolge() {
    assert_eq!(qdbus_args("a", "/b", "c.d", "e"), vec!["a", "/b", "c.d", "e"]);
}

#[test]
fn qdbus_qt6_zuerst() {
    assert_eq!(QdbusProgramm::erstes(), QdbusProgramm::Qt6);
    assert_eq!(QdbusProgramm::erstes().name(), "qdbus-qt6");
}
