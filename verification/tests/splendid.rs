use asus_steuerung::prozess::{Ausfuehrung, ProzessStatus};
use asus_steuerung::splendid::{
    farbtemperatur_args, farbtemperatur_schreibfehler, farbtemperatur_weiter, night_color_args,
    night_color_ausgabe, FarbtemperaturSchritt, SplendidAktion, SplendidCommandOutput, SplendidModel,
    SplendidMsg, SplendidProfil,
};

#[test]
fn init_profil_normal() {
    assert_eq!(SplendidModel::init().aktuelles_profil(), SplendidProfil::Normal);
}

#[test]
fn eye_care_schaltet_night_color() {
    let mut m = SplendidModel::init();
    assert_eq!(
        m.update(SplendidMsg::ProfilWechseln(SplendidProfil::EyeCare)),
        vec![SplendidAktion::NightColorSetzen(true)]
    );
    assert_eq!(m.aktuelles_profil(), SplendidProfil::EyeCare);
    assert_eq!(
        m.update(SplendidMsg::ProfilWechseln(SplendidProfil::Manuell)),
        vec![
            SplendidAktion::NightColorSetzen(false),
            SplendidAktion::Protokoll(
                "Splendid: Manuell-Profil aktiviert – Farbtemperatur über Slider einstellen".to_string()
            ),
        ]
    );
    assert_eq!(m.aktuelles_profil(), SplendidProfil::Manuell);
}

#[test]
fn gleiches_profil_ohne_wirkung() {
    let mut m = SplendidModel::init();
    assert_eq!(m.update(SplendidMsg::ProfilWechseln(SplendidProfil::Normal)), vec![]);
    assert_eq!(m.aktuelles_profil(), SplendidProfil::Normal);
}

#[test]
fn profil_meldungen() {
    let mut m = SplendidModel::init();
    assert_eq!(
        m.update(SplendidMsg::ProfilWechseln(SplendidProfil::Lebendig)),
        vec![SplendidAktion::Protokoll(
            "Splendid: Lebendig-Profil aktiviert – ICC-Profil muss in KDE-Einstellungen hinterlegt werden".to_string()
        )]
    );
    assert_eq!(
        m.update(SplendidMsg::ProfilWechseln(SplendidProfil::EReading)),
        vec![SplendidAktion::Protokoll(
            "Splendid: E-Reading (Graustufen) aktiviert – ICC-Profil muss in KDE-Einstellungen hinterlegt werden"
                .to_string()
        )]
    );
    assert_eq!(
        m.update(SplendidMsg::ProfilWechseln(SplendidProfil::Normal)),
        vec![SplendidAktion::Protokoll("Splendid: Normal-Profil aktiviert (Standard-Farbwiedergabe)".to_string())]
    );
}

#[test]
fn night_color_folgt_eye_care_ueber_folge() {
    let mut m = SplendidModel::init();
    let mut nachtfarbe = false;
    let folge = [
        SplendidProfil::EyeCare,
        SplendidProfil::EyeCare,
        SplendidProfil::Lebendig,
        SplendidProfil::EyeCare,
        SplendidProfil::EReading,
        SplendidProfil::Normal,
    ];
    for p in folge {
        for a in m.update(SplendidMsg::ProfilWechseln(p)) {
            if let SplendidAktion::NightColorSetzen(w) = a {
                nachtfarbe = w;
            }
        }
        assert_eq!(nachtfarbe, m.aktuelles_profil() == SplendidProfil::EyeCare);
    }
}

#[test]
fn regler() {
    let mut m = SplendidModel::init();
    assert_eq!(
        m.update(SplendidMsg::FarbtemperaturGeaendert(4500)),
        vec![SplendidAktion::FarbtemperaturSetzen(4500)]
    );
    assert_eq!(
        m.update(SplendidMsg::EyeCareStaerkeGeaendert("42".to_string())),
        vec![SplendidAktion::Protokoll("Eye Care Stärke auf 42 gesetzt".to_string())]
    );
    assert_eq!(m.aktuelles_profil(), SplendidProfil::Normal);
}

#[test]
fn splendid_update_cmd_protokoll() {
    let mut m = SplendidModel::init();
    assert_eq!(m.update_cmd(SplendidCommandOutput::EyeCareGesetzt(true)), "Eye Care Night Color auf aktiv gesetzt");
    assert_eq!(m.update_cmd(SplendidCommandOutput::EyeCareGesetzt(false)), "Eye Care Night Color auf inaktiv gesetzt");
    assert_eq!(m.update_cmd(SplendidCommandOutput::FarbtemperaturGesetzt(6500)), "Farbtemperatur auf 6500K gesetzt");
    assert_eq!(m.update_cmd(SplendidCommandOutput::Fehler("f".to_string())), "Fehler: f");
    assert_eq!(m.aktuelles_profil(), SplendidProfil::Normal);
}

#[test]
fn night_color_aufruf() {
    assert_eq!(
        night_color_args(true),
        vec!["org.kde.KWin", "/ColorCorrect", "org.kde.kwin.ColorCorrect.nightColorEnabled", "true"]
    );
    assert_eq!(night_color_args(false)[3], "false");
    assert_eq!(night_color_ausgabe(true, Ok(ProzessStatus { erfolg: true, code: Some(0) })), SplendidCommandOutput::EyeCareGesetzt(true));
    assert_eq!(
        night_color_ausgabe(false, Err("e".to_string())),
        SplendidCommandOutput::Fehler("e".to_string())
    );
}

#[test]
fn farbtemperatur_argumente() {
    assert_eq!(
        farbtemperatur_args(2000),
        vec!["--file", "kwinrc", "--group", "NightColor", "--key", "NightTemperature", "2000"]
    );
    assert_eq!(
        farbtemperatur_schreibfehler(&Ausfuehrung::Beendet(ProzessStatus { erfolg: false, code: Some(3) })),
        Some("kwriteconfig6 NightTemperature fehlgeschlagen mit Exit-Code: 3".to_string())
    );
    assert_eq!(
        farbtemperatur_schreibfehler(&Ausfuehrung::StartFehler("x".to_string())),
        Some("kwriteconfig6 starten fehlgeschlagen: x".to_string())
    );
    assert_eq!(
        farbtemperatur_schreibfehler(&Ausfuehrung::Beendet(ProzessStatus { erfolg: true, code: Some(0) })),
        None
    );
}

fn ablauf(kelvin: u32, fehler: [Option<&str>; 3]) -> Vec<SplendidCommandOutput> {
    let mut alle = Vec::new();
    let mut schritt = Some(FarbtemperaturSchritt::erster());
    let mut i = 0;
    while let Some(s) = schritt {
        let r = farbtemperatur_weiter(kelvin, s, fehler[i].map(|f| f.to_string()));
        alle.extend(r.ausgaben);
        schritt = r.naechster;
        i += 1;
    }
    alle
}

#[test]
fn farbtemperatur_ablauf_erfolg() {
    assert_eq!(ablauf(5000, [None, None, None]), vec![SplendidCommandOutput::FarbtemperaturGesetzt(5000)]);
}

#[test]
fn farbtemperatur_ablauf_schreibfehler_bricht_ab() {
    assert_eq!(
        ablauf(5000, [Some("w"), None, None]),
        vec![SplendidCommandOutput::Fehler("w".to_string())]
    );
}

#[test]
fn farbtemperatur_ablauf_umschaltfehler_werden_gemeldet() {
    assert_eq!(
        ablauf(3000, [None, Some("aus"), Some("ein")]),
        vec![
            SplendidCommandOutput::Fehler("aus".to_string()),
            SplendidCommandOutput::Fehler("ein".to_string()),
            SplendidCommandOutput::FarbtemperaturGesetzt(3000),
        ]
    );
}

#[test]
fn night_color_befehle_wechseln_ein_aus() {
    let mut m = SplendidModel::init();
    let mut befehle = Vec::new();
    for p in [
        SplendidProfil::Lebendig,
        SplendidProfil::EyeCare,
        SplendidProfil::Manuell,
        SplendidProfil::EyeCare,
        SplendidProfil::EyeCare,
        SplendidProfil::Normal,
        SplendidProfil::EyeCare,
    ] {
        for a in m.update(SplendidMsg::ProfilWechseln(p)) {
            if let SplendidAktion::NightColorSetzen(w) = a {
                befehle.push(w);
            }
        }
    }
    assert_eq!(befehle, vec![true, false, true, false, true]);
    assert_eq!(m.aktuelles_profil(), SplendidProfil::EyeCare);
}

#[test]
fn ohne_eye_care_kein_night_color_befehl() {
    let mut m = SplendidModel::init();
    let mut anzahl = 0;
    for p in [SplendidProfil::Lebendig, SplendidProfil::Manuell, SplendidProfil::EReading, SplendidProfil::Normal] {
        for a in m.update(SplendidMsg::ProfilWechseln(p)) {
            if let SplendidAktion::NightColorSetzen(_) = a {
                anzahl += 1;
            }
        }
    }
    assert_eq!(anzahl, 0);
}

#[test]
fn farbtemperatur_beginnt_mit_schreiben() {
    assert_eq!(FarbtemperaturSchritt::erster(), FarbtemperaturSchritt::KonfigSchreiben);
}
