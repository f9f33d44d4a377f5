use asus_steuerung::fn_key::{
    fnkey_schreib_ausgabe, fnlock_init_wert, FnKeyCommandOutput, FnKeyKnopf, FnKeyModel, FnKeyMsg,
    FnKeyReaktion, FnKeySchreibauftrag, MODPROBE_PFAD,
};
use asus_steuerung::prozess::{Ausfuehrung, ProzessStatus};

#[test]
fn init_normal() {
    assert!(!FnKeyModel::init().gesperrt());
    assert_eq!(MODPROBE_PFAD, "/etc/modprobe.d/asus_wmi.conf");
}

#[test]
fn sperren_schreibt_eins() {
    let mut m = FnKeyModel::init();
    assert_eq!(
        m.update(FnKeyMsg::GesperrtUmschalten(true)),
        Some(FnKeySchreibauftrag {
            gesperrt: true,
            pkexec_args: vec![
                "sh".to_string(),
                "-c".to_string(),
                "echo 'options asus_wmi fnlock_default=1' > /etc/modprobe.d/asus_wmi.conf".to_string(),
            ],
        })
    );
    assert!(m.gesperrt());
    match m.update(FnKeyMsg::GesperrtUmschalten(false)) {
        Some(a) => {
            assert!(!a.gesperrt);
            assert_eq!(a.pkexec_args[2], "echo 'options asus_wmi fnlock_default=0' > /etc/modprobe.d/asus_wmi.conf");
        }
        None => panic!("kein Auftrag"),
    }
    assert!(!m.gesperrt());
}

#[test]
fn gleiche_auswahl_schreibt_nichts() {
    let mut m = FnKeyModel::init();
    assert_eq!(m.update(FnKeyMsg::GesperrtUmschalten(false)), None);
}

#[test]
fn init_wert_dann_gleiche_auswahl_schreibt_nichts() {
    let mut m = FnKeyModel::init();
    assert_eq!(
        m.update_cmd(FnKeyCommandOutput::InitWert(true)),
        FnKeyReaktion::KnopfAktivieren(FnKeyKnopf::Gesperrt)
    );
    assert!(m.gesperrt());
    assert_eq!(m.update(FnKeyMsg::GesperrtUmschalten(true)), None);
    assert_eq!(
        m.update_cmd(FnKeyCommandOutput::InitWert(false)),
        FnKeyReaktion::KnopfAktivieren(FnKeyKnopf::Normal)
    );
    assert_eq!(m.update(FnKeyMsg::GesperrtUmschalten(false)), None);
}

#[test]
fn fnkey_update_cmd_protokoll() {
    let mut m = FnKeyModel::init();
    assert_eq!(
        m.update_cmd(FnKeyCommandOutput::Gesetzt(true)),
        FnKeyReaktion::Protokoll("asus_wmi fnlock_default=1 geschrieben (wirksam nach Neustart)".to_string())
    );
    assert_eq!(
        m.update_cmd(FnKeyCommandOutput::Gesetzt(false)),
        FnKeyReaktion::Protokoll("asus_wmi fnlock_default=0 geschrieben (wirksam nach Neustart)".to_string())
    );
    assert_eq!(
        m.update_cmd(FnKeyCommandOutput::Fehler("x".to_string())),
        FnKeyReaktion::Protokoll("Fehler (FnKey): x".to_string())
    );
    assert!(!m.gesperrt());
}

#[test]
fn init_wert_aus_datei() {
    assert_eq!(
        fnlock_init_wert(Some("options asus_wmi fnlock_default=1\n".to_string())),
        FnKeyCommandOutput::InitWert(true)
    );
    assert_eq!(
        fnlock_init_wert(Some("options asus_wmi fnlock_default=0\n".to_string())),
        FnKeyCommandOutput::InitWert(false)
    );
    assert_eq!(fnlock_init_wert(Some(String::new())), FnKeyCommandOutput::InitWert(false));
    assert_eq!(fnlock_init_wert(None), FnKeyCommandOutput::InitWert(false));
}

#[test]
fn geschriebene_zeile_wird_wieder_gelesen() {
    for g in [true, false] {
        let mut m = FnKeyModel::init();
        if g {
            m.update(FnKeyMsg::GesperrtUmschalten(false));
        } else {
            m.update_cmd(FnKeyCommandOutput::InitWert(true));
        }
        let auftrag = m.update(FnKeyMsg::GesperrtUmschalten(g)).expect("Auftrag");
        let befehl = &auftrag.pkexec_args[2];
        let zeile = befehl.strip_prefix("echo '").unwrap().split('\'').next().unwrap();
        assert_eq!(fnlock_init_wert(Some(format!("{}\n", zeile))), FnKeyCommandOutput::InitWert(g));
    }
}

#[test]
fn schreib_ausgaben() {
    assert_eq!(
        fnkey_schreib_ausgabe(true, &Ausfuehrung::Beendet(ProzessStatus { erfolg: true, code: Some(0) })),
        FnKeyCommandOutput::Gesetzt(true)
    );
    assert_eq!(
        fnkey_schreib_ausgabe(true, &Ausfuehrung::Beendet(ProzessStatus { erfolg: false, code: Some(126) })),
        FnKeyCommandOutput::Fehler("pkexec fehlgeschlagen mit Exit-Code: 126".to_string())
    );
    assert_eq!(
        fnkey_schreib_ausgabe(false, &Ausfuehrung::StartFehler("nicht gefunden".to_string())),
        FnKeyCommandOutput::Fehler("pkexec starten fehlgeschlagen: nicht gefunden".to_string())
    );
    assert_eq!(
        fnkey_schreib_ausgabe(false, &Ausfuehrung::TaskFehler("abgebrochen".to_string())),
        FnKeyCommandOutput::Fehler("spawn_blocking fehlgeschlagen: abgebrochen".to_string())
    );
}
