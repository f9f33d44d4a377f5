use asus_steuerung::oled_care::{
    kwriteconfig_ausgabe, plasmashell_args, plasmashell_ausgabe, OledCareAnsicht, OledCareBefehl,
    OledCareCommandOutput, OledCareModel, OledCareMsg,
};
use asus_steuerung::prozess::{Ausfuehrung, ProzessStatus};

fn alle_aus() -> OledCareAnsicht {
    OledCareAnsicht { pixel_refresh_aktiv: false, panel_ausblenden_aktiv: false, transparenz_aktiv: false }
}

#[test]
fn init_alle_schalter_aus() {
    assert_eq!(OledCareModel::init().zustand(), alle_aus());
}

#[test]
fn pixel_refresh_an_setzt_idle_time_300() {
    let mut m = OledCareModel::init();
    let b = m.update(OledCareMsg::PixelRefreshUmschalten(true));
    assert_eq!(
        b,
        Some(OledCareBefehl::KonfigSchreiben {
            args: vec![
                "--file".to_string(),
                "powermanagementprofilesrc".to_string(),
                "--group".to_string(),
                "AC".to_string(),
                "--group".to_string(),
                "DPMSControl".to_string(),
                "--key".to_string(),
                "idleTime".to_string(),
                "300".to_string(),
            ],
            erfolg: OledCareCommandOutput::PixelRefreshGesetzt(true),
        })
    );
    assert!(m.zustand().pixel_refresh_aktiv);
}

#[test]
fn pixel_refresh_aus_setzt_idle_time_600() {
    let mut m = OledCareModel::init();
    m.update(OledCareMsg::PixelRefreshUmschalten(true));
    match m.update(OledCareMsg::PixelRefreshUmschalten(false)) {
        Some(OledCareBefehl::KonfigSchreiben { args, erfolg }) => {
            assert_eq!(args[8], "600");
            assert_eq!(erfolg, OledCareCommandOutput::PixelRefreshGesetzt(false));
        }
        andere => panic!("unerwartet: {:?}", andere),
    }
    assert_eq!(m.zustand(), alle_aus());
}

#[test]
fn gleiche_stellung_loest_nichts_aus() {
    let mut m = OledCareModel::init();
    assert_eq!(m.update(OledCareMsg::PixelRefreshUmschalten(false)), None);
    assert_eq!(m.update(OledCareMsg::PanelAusblendenUmschalten(false)), None);
    assert_eq!(m.update(OledCareMsg::TransparenzUmschalten(false)), None);
    assert_eq!(m.zustand(), alle_aus());
}

#[test]
fn panel_ausblenden_skripte() {
    let mut m = OledCareModel::init();
    assert_eq!(
        m.update(OledCareMsg::PanelAusblendenUmschalten(true)),
        Some(OledCareBefehl::PlasmaSkript {
            skript: "panels().forEach(function(p){p.hiding='autohide';})".to_string(),
            erfolg: OledCareCommandOutput::PanelGesetzt(true),
        })
    );
    assert_eq!(
        m.update(OledCareMsg::PanelAusblendenUmschalten(false)),
        Some(OledCareBefehl::PlasmaSkript {
            skript: "panels().forEach(function(p){p.hiding='none';})".to_string(),
            erfolg: OledCareCommandOutput::PanelGesetzt(false),
        })
    );
}

#[test]
fn transparenz_skripte() {
    let mut m = OledCareModel::init();
    assert_eq!(
        m.update(OledCareMsg::TransparenzUmschalten(true)),
        Some(OledCareBefehl::PlasmaSkript {
            skript: "panels().forEach(function(p){p.opacity='transparent';})".to_string(),
            erfolg: OledCareCommandOutput::TransparenzGesetzt(true),
        })
    );
    assert_eq!(
        m.zustand(),
        OledCareAnsicht { pixel_refresh_aktiv: false, panel_ausblenden_aktiv: false, transparenz_aktiv: true }
    );
    assert_eq!(
        m.update(OledCareMsg::TransparenzUmschalten(false)),
        Some(OledCareBefehl::PlasmaSkript {
            skript: "panels().forEach(function(p){p.opacity='opaque';})".to_string(),
            erfolg: OledCareCommandOutput::TransparenzGesetzt(false),
        })
    );
}

#[test]
fn hin_und_zurueck_ergibt_ausgangszustand() {
    let mut m = OledCareModel::init();
    m.update(OledCareMsg::PanelAusblendenUmschalten(true));
    let vorher = m.zustand();
    m.update(OledCareMsg::TransparenzUmschalten(true));
    m.update(OledCareMsg::TransparenzUmschalten(false));
    assert_eq!(m.zustand(), vorher);
}

#[test]
fn update_cmd_protokollzeilen() {
    let mut m = OledCareModel::init();
    assert_eq!(m.update_cmd(OledCareCommandOutput::PanelGesetzt(true)), "KDE-Panel Auto-Hide auf autohide gesetzt");
    assert_eq!(m.update_cmd(OledCareCommandOutput::PanelGesetzt(false)), "KDE-Panel Auto-Hide auf none gesetzt");
    assert_eq!(m.update_cmd(OledCareCommandOutput::TransparenzGesetzt(true)), "Panel-Transparenz auf transparent gesetzt");
    assert_eq!(m.update_cmd(OledCareCommandOutput::TransparenzGesetzt(false)), "Panel-Transparenz auf opaque gesetzt");
    assert_eq!(m.update_cmd(OledCareCommandOutput::PixelRefreshGesetzt(true)), "DPMS idleTime auf 300s gesetzt");
    assert_eq!(m.update_cmd(OledCareCommandOutput::PixelRefreshGesetzt(false)), "DPMS idleTime auf 600s gesetzt");
    assert_eq!(m.update_cmd(OledCareCommandOutput::Fehler("kaputt".to_string())), "Fehler: kaputt");
    assert_eq!(m.zustand(), alle_aus());
}

#[test]
fn kwriteconfig_ausgaben() {
    let ok = Ausfuehrung::Beendet(ProzessStatus { erfolg: true, code: Some(0) });
    assert_eq!(
        kwriteconfig_ausgabe(&ok, OledCareCommandOutput::PixelRefreshGesetzt(true)),
        OledCareCommandOutput::PixelRefreshGesetzt(true)
    );
    let fehl = Ausfuehrung::Beendet(ProzessStatus { erfolg: false, code: Some(1) });
    assert_eq!(
        kwriteconfig_ausgabe(&fehl, OledCareCommandOutput::PixelRefreshGesetzt(true)),
        OledCareCommandOutput::Fehler("kwriteconfig6 fehlgeschlagen mit Exit-Code: 1".to_string())
    );
    assert_eq!(
        kwriteconfig_ausgabe(&Ausfuehrung::StartFehler("x".to_string()), OledCareCommandOutput::PanelGesetzt(true)),
        OledCareCommandOutput::Fehler("kwriteconfig6 starten fehlgeschlagen: x".to_string())
    );
}

#[test]
fn plasmashell_aufruf() {
    assert_eq!(
        plasmashell_args("s"),
        vec!["org.kde.plasmashell", "/PlasmaShell", "org.kde.PlasmaShell.evaluateScript", "s"]
    );
    assert_eq!(
        plasmashell_ausgabe(Ok(ProzessStatus { erfolg: true, code: Some(0) }), OledCareCommandOutput::TransparenzGesetzt(false)),
        OledCareCommandOutput::TransparenzGesetzt(false)
    );
    assert_eq!(
        plasmashell_ausgabe(Err("e".to_string()), OledCareCommandOutput::TransparenzGesetzt(false)),
        OledCareCommandOutput::Fehler("e".to_string())
    );
}

#[test]
fn folge_letzter_wert_und_befehlsanzahl() {
    let mut m = OledCareModel::init();
    let folge = [
        OledCareMsg::PixelRefreshUmschalten(true),
        OledCareMsg::PixelRefreshUmschalten(true),
        OledCareMsg::TransparenzUmschalten(true),
        OledCareMsg::PanelAusblendenUmschalten(false),
        OledCareMsg::TransparenzUmschalten(false),
        OledCareMsg::TransparenzUmschalten(true),
    ];
    let mut befehle = 0;
    for msg in folge {
        if m.update(msg).is_some() {
            befehle += 1;
        }
    }
    assert_eq!(befehle, 4);
    assert_eq!(
        m.zustand(),
        OledCareAnsicht { pixel_refresh_aktiv: true, panel_ausblenden_aktiv: false, transparenz_aktiv: true }
    );
}
