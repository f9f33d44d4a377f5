//! ASUS OLED Care: Pixelaktualisierung, automatisches Ausblenden und Transparenz des KDE-Panels.
use vstd::prelude::*;
use vstd::string::*;
use crate::prozess::{fehlermeldung, fehlermeldung_spec, qdbus_args, qdbus_args_spec, Ausfuehrung, ProzessStatus};

verus! {

/// Der Zustand der drei Schalter der OLED-Pflege.
pub struct OledCareModel {
    pixel_refresh_aktiv: bool,
    panel_ausblenden_aktiv: bool,
    transparenz_aktiv: bool,
}

/// Die Schalterstellungen eines [`OledCareModel`], wie die Oberfläche sie anzeigt.
#[derive(Clone, Copy, Debug, PartialEq, Eq, Structural)]
pub struct OledCareAnsicht {
    pub pixel_refresh_aktiv: bool,
    pub panel_ausblenden_aktiv: bool,
    pub transparenz_aktiv: bool,
}

impl View for OledCareModel {
    type V = OledCareAnsicht;

    closed spec fn view(&self) -> OledCareAnsicht {
        OledCareAnsicht {
            pixel_refresh_aktiv: self.pixel_refresh_aktiv,
            panel_ausblenden_aktiv: self.panel_ausblenden_aktiv,
            transparenz_aktiv: self.transparenz_aktiv,
        }
    }
}

/// Eine Schalterbetätigung durch den Benutzer.
#[derive(Clone, Copy, Debug, PartialEq, Eq, Structural)]
pub enum OledCareMsg {
    PixelRefreshUmschalten(bool),
    PanelAusblendenUmschalten(bool),
    TransparenzUmschalten(bool),
}

/// Die Rückmeldung eines ausgeführten Befehls.
#[derive(Debug, PartialEq, Eq)]
pub enum OledCareCommandOutput {
    PanelGesetzt(bool),
    TransparenzGesetzt(bool),
    PixelRefreshGesetzt(bool),
    Fehler(String),
}

/// Ein auszuführender Befehl samt der Rückmeldung, die er bei Erfolg liefert.
#[derive(Debug, PartialEq, Eq)]
pub enum OledCareBefehl {
    /// `kwriteconfig6` mit diesen Argumenten aufrufen.
    KonfigSchreiben { args: Vec<String>, erfolg: OledCareCommandOutput },
    /// Dieses Skript über `org.kde.PlasmaShell.evaluateScript` ausführen.
    PlasmaSkript { skript: String, erfolg: OledCareCommandOutput },
}

/// Die Sicht eines Befehls: Zeichenketten als Zeichenfolgen.
pub enum OledCareBefehlAnsicht {
    KonfigSchreiben { args: Seq<Seq<char>>, erfolg: OledCareCommandOutput },
    PlasmaSkript { skript: Seq<char>, erfolg: OledCareCommandOutput },
}

impl View for OledCareBefehl {
    type V = OledCareBefehlAnsicht;

    open spec fn view(&self) -> OledCareBefehlAnsicht {
        match self {
            OledCareBefehl::KonfigSchreiben { args, erfolg } => OledCareBefehlAnsicht::KonfigSchreiben {
                args: args.deep_view(),
                erfolg: *erfolg,
            },
            OledCareBefehl::PlasmaSkript { skript, erfolg } => OledCareBefehlAnsicht::PlasmaSkript {
                skript: skript@,
                erfolg: *erfolg,
            },
        }
    }
}

/// Die Sicht eines optionalen Befehls.
pub open spec fn befehl_sicht(b: Option<OledCareBefehl>) -> Option<OledCareBefehlAnsicht> {
    match b {
        Some(b) => Some(b@),
        None => None,
    }
}

/// Die `kwriteconfig6`-Argumente, die die Leerlaufzeit bis zum Bildschirmschoner setzen:
/// 300 Sekunden bei aktiver Pixelaktualisierung, sonst 600.
pub open spec fn pixel_refresh_args_spec(aktiv: bool) -> Seq<Seq<char>> {
    seq![
        "--file"@, "powermanagementprofilesrc"@, "--group"@, "AC"@, "--group"@, "DPMSControl"@,
        "--key"@, "idleTime"@, if aktiv { "300"@ } else { "600"@ },
    ]
}

/// Das Plasma-Skript, das eine Eigenschaft aller Panels auf einen Wert setzt.
pub open spec fn panel_skript_spec(eigenschaft: Seq<char>, wert: Seq<char>) -> Seq<char> {
    "panels().forEach(function(p){p."@ + eigenschaft + "='"@ + wert + "';})"@
}

/// Der Wert der Panel-Eigenschaft `hiding`.
pub open spec fn hiding_wert(aktiv: bool) -> Seq<char> {
    if aktiv { "autohide"@ } else { "none"@ }
}

/// Der Wert der Panel-Eigenschaft `opacity`.
pub open spec fn opacity_wert(aktiv: bool) -> Seq<char> {
    if aktiv { "transparent"@ } else { "opaque"@ }
}

/// Folgezustand und Befehl nach einer Schalterbetätigung. Ein Schalter, der schon
/// in der gewünschten Stellung steht, ändert nichts und löst keinen Befehl aus.
pub open spec fn oled_update_spec(z: OledCareAnsicht, msg: OledCareMsg) -> (OledCareAnsicht, Option<OledCareBefehlAnsicht>) {
    match msg {
        OledCareMsg::PixelRefreshUmschalten(a) => if a == z.pixel_refresh_aktiv {
            (z, None)
        } else {
            (
                OledCareAnsicht { pixel_refresh_aktiv: a, ..z },
                Some(OledCareBefehlAnsicht::KonfigSchreiben {
                    args: pixel_refresh_args_spec(a),
                    erfolg: OledCareCommandOutput::PixelRefreshGesetzt(a),
                }),
            )
        },
        OledCareMsg::PanelAusblendenUmschalten(a) => if a == z.panel_ausblenden_aktiv {
            (z, None)
        } else {
            (
                OledCareAnsicht { panel_ausblenden_aktiv: a, ..z },
                Some(OledCareBefehlAnsicht::PlasmaSkript {
                    skript: panel_skript_spec("hiding"@, hiding_wert(a)),
                    erfolg: OledCareCommandOutput::PanelGesetzt(a),
                }),
            )
        },
        OledCareMsg::TransparenzUmschalten(a) => if a == z.transparenz_aktiv {
            (z, None)
        } else {
            (
                OledCareAnsicht { transparenz_aktiv: a, ..z },
                Some(OledCareBefehlAnsicht::PlasmaSkript {
                    skript: panel_skript_spec("opacity"@, opacity_wert(a)),
                    erfolg: OledCareCommandOutput::TransparenzGesetzt(a),
                }),
            )
        },
    }
}

/// Die Protokollzeile zu einer Rückmeldung.
pub open spec fn oled_protokoll_spec(msg: OledCareCommandOutput) -> Seq<char> {
    match msg {
        OledCareCommandOutput::PanelGesetzt(a) => "KDE-Panel Auto-Hide auf "@ + hiding_wert(a) + " gesetzt"@,
        OledCareCommandOutput::TransparenzGesetzt(a) => "Panel-Transparenz auf "@ + opacity_wert(a) + " gesetzt"@,
        OledCareCommandOutput::PixelRefreshGesetzt(a) => "DPMS idleTime auf "@ + (if a { "300s"@ } else { "600s"@ }) + " gesetzt"@,
        OledCareCommandOutput::Fehler(e) => "Fehler: "@ + e@,
    }
}

fn pixel_refresh_args(aktiv: bool) -> (args: Vec<String>)
    ensures
        args.deep_view() == pixel_refresh_args_spec(aktiv),
{
    let idle_time: &str = if aktiv { "300" } else { "600" };
    let mut args: Vec<String> = Vec::new();
    args.push(String::from_str("--file"));
    args.push(String::from_str("powermanagementprofilesrc"));
    args.push(String::from_str("--group"));
    args.push(String::from_str("AC"));
    args.push(String::from_str("--group"));
    args.push(String::from_str("DPMSControl"));
    args.push(String::from_str("--key"));
    args.push(String::from_str("idleTime"));
    args.push(String::from_str(idle_time));
    assert(args.deep_view() =~= pixel_refresh_args_spec(aktiv));
    args
}

fn panel_skript(eigenschaft: &str, wert: &str) -> (skript: String)
    ensures
        skript@ == panel_skript_spec(eigenschaft@, wert@),
{
    let mut s = String::from_str("panels().forEach(function(p){p.");
    s.append(eigenschaft);
    s.append("='");
    s.append(wert);
    s.append("';})");
    s
}

impl OledCareModel {
    /// Der Anfangszustand: alle Schalter aus.
    pub fn init() -> (m: OledCareModel)
        ensures
            m@ == (OledCareAnsicht {
                pixel_refresh_aktiv: false,
                panel_ausblenden_aktiv: false,
                transparenz_aktiv: false,
            }),
    {
        OledCareModel { pixel_refresh_aktiv: false, panel_ausblenden_aktiv: false, transparenz_aktiv: false }
    }

    /// Die aktuellen Schalterstellungen.
    pub fn zustand(&self) -> (z: OledCareAnsicht)
        ensures
            z == self@,
    {
        OledCareAnsicht {
            pixel_refresh_aktiv: self.pixel_refresh_aktiv,
            panel_ausblenden_aktiv: self.panel_ausblenden_aktiv,
            transparenz_aktiv: self.transparenz_aktiv,
        }
    }

    /// Verarbeitet eine Schalterbetätigung: übernimmt die neue Stellung und liefert den
    /// Befehl, der sie im System umsetzt.
    pub fn update(&mut self, msg: OledCareMsg) -> (befehl: Option<OledCareBefehl>)
        ensures
            (final(self)@, befehl_sicht(befehl)) == oled_update_spec(old(self)@, msg),
    {
        match msg {
            OledCareMsg::PixelRefreshUmschalten(aktiv) => {
                if aktiv == self.pixel_refresh_aktiv {
                    return None;
                }
                self.pixel_refresh_aktiv = aktiv;
                Some(OledCareBefehl::KonfigSchreiben {
                    args: pixel_refresh_args(aktiv),
                    erfolg: OledCareCommandOutput::PixelRefreshGesetzt(aktiv),
                })
            },
            OledCareMsg::PanelAusblendenUmschalten(aktiv) => {
                if aktiv == self.panel_ausblenden_aktiv {
                    return None;
                }
                self.panel_ausblenden_aktiv = aktiv;
                let hiding: &str = if aktiv { "autohide" } else { "none" };
                Some(OledCareBefehl::PlasmaSkript {
                    skript: panel_skript("hiding", hiding),
                    erfolg: OledCareCommandOutput::PanelGesetzt(aktiv),
                })
            },
            OledCareMsg::TransparenzUmschalten(aktiv) => {
                if aktiv == self.transparenz_aktiv {
                    return None;
                }
                self.transparenz_aktiv = aktiv;
                let opacity: &str = if aktiv { "transparent" } else { "opaque" };
                Some(OledCareBefehl::PlasmaSkript {
                    skript: panel_skript("opacity", opacity),
                    erfolg: OledCareCommandOutput::TransparenzGesetzt(aktiv),
                })
            },
        }
    }

    /// Verarbeitet die Rückmeldung eines Befehls: der Zustand bleibt, geliefert wird die
    /// Zeile für das Fehlerprotokoll.
    pub fn update_cmd(&mut self, msg: OledCareCommandOutput) -> (zeile: String)
        ensures
            final(self)@ == old(self)@,
            zeile@ == oled_protokoll_spec(msg),
    {
        match msg {
            OledCareCommandOutput::PanelGesetzt(aktiv) => {
                let mut s = String::from_str("KDE-Panel Auto-Hide auf ");
                s.append(if aktiv { "autohide" } else { "none" });
                s.append(" gesetzt");
                s
            },
            OledCareCommandOutput::TransparenzGesetzt(aktiv) => {
                let mut s = String::from_str("Panel-Transparenz auf ");
                s.append(if aktiv { "transparent" } else { "opaque" });
                s.append(" gesetzt");
                s
            },
            OledCareCommandOutput::PixelRefreshGesetzt(aktiv) => {
                let mut s = String::from_str("DPMS idleTime auf ");
                s.append(if aktiv { "300s" } else { "600s" });
                s.append(" gesetzt");
                s
            },
            OledCareCommandOutput::Fehler(e) => {
                let mut s = String::from_str("Fehler: ");
                s.append(e.as_str());
                s
            },
        }
    }
}

/// Die Rückmeldung eines Befehls: `erfolg`, wenn keine Fehlermeldung vorliegt,
/// sonst `Fehler` mit dieser Meldung.
pub open spec fn ausgabe_entspricht(out: OledCareCommandOutput, fehler: Option<Seq<char>>, erfolg: OledCareCommandOutput) -> bool {
    match fehler {
        None => out == erfolg,
        Some(m) => out matches OledCareCommandOutput::Fehler(e) && e@ == m,
    }
}

/// Die Rückmeldung nach einem `kwriteconfig6`-Aufruf.
pub fn kwriteconfig_ausgabe(a: &Ausfuehrung, erfolg: OledCareCommandOutput) -> (out: OledCareCommandOutput)
    ensures
        ausgabe_entspricht(out, fehlermeldung_spec("kwriteconfig6"@, "kwriteconfig6"@, *a), erfolg),
{
    match fehlermeldung("kwriteconfig6", "kwriteconfig6", a) {
        None => erfolg,
        Some(m) => OledCareCommandOutput::Fehler(m),
    }
}

/// Die qdbus-Argumente, die ein Skript in der Plasma-Shell ausführen.
pub fn plasmashell_args(skript: &str) -> (args: Vec<String>)
    ensures
        args.deep_view() == qdbus_args_spec(
            "org.kde.plasmashell"@,
            "/PlasmaShell"@,
            "org.kde.PlasmaShell.evaluateScript"@,
            skript@,
        ),
{
    qdbus_args("org.kde.plasmashell", "/PlasmaShell", "org.kde.PlasmaShell.evaluateScript", skript)
}

/// Die Rückmeldung nach einem Plasma-Skript: `erfolg` oder der Fehler des qdbus-Aufrufs.
pub fn plasmashell_ausgabe(r: Result<ProzessStatus, String>, erfolg: OledCareCommandOutput) -> (out: OledCareCommandOutput)
    ensures
        ausgabe_entspricht(out, match r { Ok(_) => None, Err(e) => Some(e@) }, erfolg),
{
    match r {
        Ok(_) => erfolg,
        Err(e) => OledCareCommandOutput::Fehler(e),
    }
}

/// Der Wert, den eine Betätigung für ihren Schalter wünscht.
pub open spec fn gewuenschter_wert(msg: OledCareMsg) -> bool {
    match msg {
        OledCareMsg::PixelRefreshUmschalten(a) => a,
        OledCareMsg::PanelAusblendenUmschalten(a) => a,
        OledCareMsg::TransparenzUmschalten(a) => a,
    }
}

/// Die Stellung des Schalters, den `msg` betätigt, im Zustand `z`.
pub open spec fn schalterwert(z: OledCareAnsicht, msg: OledCareMsg) -> bool {
    match msg {
        OledCareMsg::PixelRefreshUmschalten(_) => z.pixel_refresh_aktiv,
        OledCareMsg::PanelAusblendenUmschalten(_) => z.panel_ausblenden_aktiv,
        OledCareMsg::TransparenzUmschalten(_) => z.transparenz_aktiv,
    }
}

/// Ob zwei Betätigungen denselben Schalter betreffen.
pub open spec fn selber_schalter(m1: OledCareMsg, m2: OledCareMsg) -> bool {
    match (m1, m2) {
        (OledCareMsg::PixelRefreshUmschalten(_), OledCareMsg::PixelRefreshUmschalten(_)) => true,
        (OledCareMsg::PanelAusblendenUmschalten(_), OledCareMsg::PanelAusblendenUmschalten(_)) => true,
        (OledCareMsg::TransparenzUmschalten(_), OledCareMsg::TransparenzUmschalten(_)) => true,
        _ => false,
    }
}

/// Die Betätigung desselben Schalters, die ihn auf den Wert `a` stellt.
pub open spec fn mit_wert(msg: OledCareMsg, a: bool) -> OledCareMsg {
    match msg {
        OledCareMsg::PixelRefreshUmschalten(_) => OledCareMsg::PixelRefreshUmschalten(a),
        OledCareMsg::PanelAusblendenUmschalten(_) => OledCareMsg::PanelAusblendenUmschalten(a),
        OledCareMsg::TransparenzUmschalten(_) => OledCareMsg::TransparenzUmschalten(a),
    }
}

/// Die Rückmeldung, die die Stellung `a` des Schalters von `msg` bestätigt.
pub open spec fn bestaetigung(msg: OledCareMsg, a: bool) -> OledCareCommandOutput {
    match msg {
        OledCareMsg::PixelRefreshUmschalten(_) => OledCareCommandOutput::PixelRefreshGesetzt(a),
        OledCareMsg::PanelAusblendenUmschalten(_) => OledCareCommandOutput::PanelGesetzt(a),
        OledCareMsg::TransparenzUmschalten(_) => OledCareCommandOutput::TransparenzGesetzt(a),
    }
}

/// Der Erfolgswert eines Befehls.
pub open spec fn befehl_erfolg(b: OledCareBefehlAnsicht) -> OledCareCommandOutput {
    match b {
        OledCareBefehlAnsicht::KonfigSchreiben { erfolg, .. } => erfolg,
        OledCareBefehlAnsicht::PlasmaSkript { erfolg, .. } => erfolg,
    }
}

/// Eine Betätigung, die der aktuellen Stellung des Schalters entspricht, ändert nichts
/// und löst keinen Befehl aus.
pub proof fn gesetz_gleiche_stellung_wirkungslos(z: OledCareAnsicht, msg: OledCareMsg)
    requires
        gewuenschter_wert(msg) == schalterwert(z, msg),
    ensures
        oled_update_spec(z, msg) == (z, None::<OledCareBefehlAnsicht>),
{
}

/// Nach einer Betätigung steht ihr Schalter auf dem gewünschten Wert; die anderen
/// Schalter bleiben, wie sie waren. Ein Befehl entsteht genau dann, wenn sich die Stellung
/// ändert, und er bestätigt bei Erfolg genau die neue Stellung.
pub proof fn gesetz_schalter_folgt_betaetigung(z: OledCareAnsicht, msg: OledCareMsg, andere: OledCareMsg)
    ensures
        schalterwert(oled_update_spec(z, msg).0, msg) == gewuenschter_wert(msg),
        !selber_schalter(msg, andere) ==> schalterwert(oled_update_spec(z, msg).0, andere) == schalterwert(z, andere),
        (oled_update_spec(z, msg).1 is Some) == (gewuenschter_wert(msg) != schalterwert(z, msg)),
        oled_update_spec(z, msg).1 is Some ==> befehl_erfolg(oled_update_spec(z, msg).1->0)
            == bestaetigung(msg, schalterwert(oled_update_spec(z, msg).0, msg)),
{
}

/// Einen Schalter umstellen und danach auf seine frühere Stellung zurückstellen ergibt
/// wieder den Ausgangszustand.
pub proof fn gesetz_hin_und_zurueck(z: OledCareAnsicht, msg: OledCareMsg)
    ensures
        oled_update_spec(oled_update_spec(z, msg).0, mit_wert(msg, schalterwert(z, msg))).0 == z,
{
}

/// Zustand und Zahl der ausgelösten Befehle nach einer Folge von Betätigungen, ausgehend von `z`.
pub open spec fn oled_nach_folge(z: OledCareAnsicht, msgs: Seq<OledCareMsg>) -> (OledCareAnsicht, nat)
    decreases msgs.len(),
{
    if msgs.len() == 0 {
        (z, 0)
    } else {
        let (z1, n) = oled_nach_folge(z, msgs.drop_last());
        let (z2, b) = oled_update_spec(z1, msgs.last());
        (z2, n + if b is Some { 1nat } else { 0nat })
    }
}

/// Der zuletzt gewünschte Wert für den Schalter von `art` in `msgs`; `vorgabe`, wenn keine
/// Betätigung dieses Schalters darin vorkommt.
pub open spec fn letzter_wert(msgs: Seq<OledCareMsg>, art: OledCareMsg, vorgabe: bool) -> bool
    decreases msgs.len(),
{
    if msgs.len() == 0 {
        vorgabe
    } else if selber_schalter(msgs.last(), art) {
        gewuenschter_wert(msgs.last())
    } else {
        letzter_wert(msgs.drop_last(), art, vorgabe)
    }
}

/// Die Zahl der Betätigungen in `msgs`, deren Wert von dem zuletzt für ihren Schalter
/// gewünschten abweicht (vor der ersten: von seiner Stellung in `z`).
pub open spec fn anzahl_aenderungen(z: OledCareAnsicht, msgs: Seq<OledCareMsg>) -> nat
    decreases msgs.len(),
{
    if msgs.len() == 0 {
        0
    } else {
        anzahl_aenderungen(z, msgs.drop_last()) + if gewuenschter_wert(msgs.last())
            != letzter_wert(msgs.drop_last(), msgs.last(), schalterwert(z, msgs.last())) {
            1nat
        } else {
            0nat
        }
    }
}

/// Zwei Betätigungen desselben Schalters lesen im selben Zustand denselben Wert.
proof fn lemma_selber_schalter_wert(z: OledCareAnsicht, m1: OledCareMsg, m2: OledCareMsg)
    requires
        selber_schalter(m1, m2),
    ensures
        schalterwert(z, m1) == schalterwert(z, m2),
        forall|msgs: Seq<OledCareMsg>, v: bool| #[trigger] letzter_wert(msgs, m1, v) == letzter_wert(msgs, m2, v),
{
    assert forall|msgs: Seq<OledCareMsg>, v: bool| #[trigger] letzter_wert(msgs, m1, v) == letzter_wert(msgs, m2, v) by {
        lemma_letzter_wert_selber_schalter(msgs, m1, m2, v);
    }
}

proof fn lemma_letzter_wert_selber_schalter(msgs: Seq<OledCareMsg>, m1: OledCareMsg, m2: OledCareMsg, v: bool)
    requires
        selber_schalter(m1, m2),
    ensures
        letzter_wert(msgs, m1, v) == letzter_wert(msgs, m2, v),
    decreases msgs.len(),
{
    if msgs.len() > 0 {
        lemma_letzter_wert_selber_schalter(msgs.drop_last(), m1, m2, v);
    }
}

/// Ausgehend vom Zustand `z` steht nach jeder Folge von Betätigungen jeder Schalter auf dem
/// Wert, der für ihn zuletzt gewünscht wurde (auf seiner Stellung in `z`, wenn keiner), und die
/// Zahl der ausgelösten Befehle ist die Zahl der Betätigungen, die einen Schalter änderten.
/// Vom Anfangszustand aus ist die Vorgabe für jeden Schalter `false`.
pub proof fn gesetz_schalter_folgen_letzter_betaetigung(z: OledCareAnsicht, msgs: Seq<OledCareMsg>, art: OledCareMsg)
    ensures
        schalterwert(oled_nach_folge(z, msgs).0, art) == letzter_wert(msgs, art, schalterwert(z, art)),
        oled_nach_folge(z, msgs).1 == anzahl_aenderungen(z, msgs),
    decreases msgs.len(),
{
    if msgs.len() > 0 {
        let vorne = msgs.drop_last();
        let m = msgs.last();
        gesetz_schalter_folgen_letzter_betaetigung(z, vorne, art);
        gesetz_schalter_folgen_letzter_betaetigung(z, vorne, m);
        let z1 = oled_nach_folge(z, vorne).0;
        gesetz_schalter_folgt_betaetigung(z1, m, art);
        if selber_schalter(m, art) {
            lemma_selber_schalter_wert(oled_update_spec(z1, m).0, m, art);
        }
    }
}

/// Vom Anfangszustand aus (alle Schalter aus) steht nach jeder Folge von Betätigungen jeder
/// Schalter auf dem Wert seiner letzten Betätigung, `false` ohne eine; ausgelöst wurden so viele
/// Befehle, wie Betätigungen einen Schalter änderten.
pub proof fn gesetz_folge_ab_anfangszustand(msgs: Seq<OledCareMsg>, art: OledCareMsg)
    ensures
        ({
            let anfang = OledCareAnsicht {
                pixel_refresh_aktiv: false,
                panel_ausblenden_aktiv: false,
                transparenz_aktiv: false,
            };
            &&& schalterwert(oled_nach_folge(anfang, msgs).0, art) == letzter_wert(msgs, art, false)
            &&& oled_nach_folge(anfang, msgs).1 == anzahl_aenderungen(anfang, msgs)
        }),
{
    let anfang = OledCareAnsicht { pixel_refresh_aktiv: false, panel_ausblenden_aktiv: false, transparenz_aktiv: false };
    gesetz_schalter_folgen_letzter_betaetigung(anfang, msgs, art);
}

/// Ein weiterer Aufruf von `update` setzt die Folge fort: steht das Modell nach `msgs` im
/// Zustand `oled_nach_folge(z, msgs).0` und wird `update(m)` aufgerufen, so ist sein neuer
/// Zustand der nach `msgs.push(m)`, und die Befehlszahl wächst genau um den gelieferten Befehl.
/// So gelten die Folgegesetze für jede Reihe von Aufrufen ab `init`.
pub proof fn gesetz_aufruf_setzt_folge_fort(z: OledCareAnsicht, msgs: Seq<OledCareMsg>, m: OledCareMsg)
    ensures
        oled_nach_folge(z, msgs.push(m)).0 == oled_update_spec(oled_nach_folge(z, msgs).0, m).0,
        oled_nach_folge(z, msgs.push(m)).1 == oled_nach_folge(z, msgs).1
            + if oled_update_spec(oled_nach_folge(z, msgs).0, m).1 is Some { 1nat } else { 0nat },
{
    assert(msgs.push(m).drop_last() =~= msgs);
}

/// Die Pixelaktualisierung schreibt mit `kwriteconfig6` in `powermanagementprofilesrc` den
/// Schlüssel `idleTime` der Gruppe `DPMSControl` unter `AC`, ein wie aus gleich; nur der Wert
/// unterscheidet sich: 300 Sekunden bei aktiver, 600 bei inaktiver Pixelaktualisierung.
pub proof fn gesetz_pixel_refresh_args(aktiv: bool)
    ensures
        pixel_refresh_args_spec(aktiv).len() == 9,
        pixel_refresh_args_spec(aktiv).take(8) == seq![
            "--file"@, "powermanagementprofilesrc"@, "--group"@, "AC"@, "--group"@, "DPMSControl"@,
            "--key"@, "idleTime"@,
        ],
        pixel_refresh_args_spec(aktiv)[8] == if aktiv { "300"@ } else { "600"@ },
        pixel_refresh_args_spec(true)[8] != pixel_refresh_args_spec(false)[8],
{
    reveal_strlit("300");
    reveal_strlit("600");
    assert(pixel_refresh_args_spec(aktiv).take(8) =~= seq![
        "--file"@, "powermanagementprofilesrc"@, "--group"@, "AC"@, "--group"@, "DPMSControl"@,
        "--key"@, "idleTime"@,
    ]);
    assert("300"@[0] != "600"@[0]);
}

/// Die Panel-Schalter setzen per Plasma-Skript in allen Panels eine Eigenschaft: das
/// automatische Ausblenden `hiding` ("autohide" oder "none"), die Transparenz `opacity`
/// ("transparent" oder "opaque"); Ein und Aus unterscheiden sich nur im Wert. Die
/// Pixelaktualisierung schreibt stattdessen die Energieverwaltung.
pub proof fn gesetz_panel_befehle(z: OledCareAnsicht, msg: OledCareMsg)
    requires
        gewuenschter_wert(msg) != schalterwert(z, msg),
    ensures
        ({
            let a = gewuenschter_wert(msg);
            let befehl = oled_update_spec(z, msg).1;
            match msg {
                OledCareMsg::PixelRefreshUmschalten(_) => befehl == Some(OledCareBefehlAnsicht::KonfigSchreiben {
                    args: pixel_refresh_args_spec(a),
                    erfolg: OledCareCommandOutput::PixelRefreshGesetzt(a),
                }),
                OledCareMsg::PanelAusblendenUmschalten(_) => befehl == Some(OledCareBefehlAnsicht::PlasmaSkript {
                    skript: "panels().forEach(function(p){p.hiding='"@
                        + (if a { "autohide"@ } else { "none"@ }) + "';})"@,
                    erfolg: OledCareCommandOutput::PanelGesetzt(a),
                }),
                OledCareMsg::TransparenzUmschalten(_) => befehl == Some(OledCareBefehlAnsicht::PlasmaSkript {
                    skript: "panels().forEach(function(p){p.opacity='"@
                        + (if a { "transparent"@ } else { "opaque"@ }) + "';})"@,
                    erfolg: OledCareCommandOutput::TransparenzGesetzt(a),
                }),
            }
        }),
{
    reveal_strlit("panels().forEach(function(p){p.");
    reveal_strlit("panels().forEach(function(p){p.hiding='");
    reveal_strlit("panels().forEach(function(p){p.opacity='");
    reveal_strlit("hiding");
    reveal_strlit("opacity");
    reveal_strlit("='");
    assert("panels().forEach(function(p){p."@ + "hiding"@ + "='"@ =~= "panels().forEach(function(p){p.hiding='"@);
    assert("panels().forEach(function(p){p."@ + "opacity"@ + "='"@ =~= "panels().forEach(function(p){p.opacity='"@);
}

/// Die Protokollzeile nach einem Befehl nennt denselben Wert, den der Befehl setzte: die
/// Leerlaufzeit aus den `kwriteconfig6`-Argumenten (mit "s"), den Wert von `hiding` bzw.
/// `opacity` aus dem Skript; eine Fehlermeldung steht unverändert hinter "Fehler: ".
pub proof fn gesetz_protokoll_nennt_gesetzten_wert(a: bool, e: String)
    ensures
        oled_protokoll_spec(OledCareCommandOutput::PixelRefreshGesetzt(a))
            == "DPMS idleTime auf "@ + pixel_refresh_args_spec(a)[8] + "s"@ + " gesetzt"@,
        oled_protokoll_spec(OledCareCommandOutput::PanelGesetzt(a))
            == "KDE-Panel Auto-Hide auf "@ + (if a { "autohide"@ } else { "none"@ }) + " gesetzt"@,
        oled_protokoll_spec(OledCareCommandOutput::TransparenzGesetzt(a))
            == "Panel-Transparenz auf "@ + (if a { "transparent"@ } else { "opaque"@ }) + " gesetzt"@,
        oled_protokoll_spec(OledCareCommandOutput::Fehler(e)).subrange(0, 8) == "Fehler: "@,
        oled_protokoll_spec(OledCareCommandOutput::Fehler(e)).subrange(8, 8 + e@.len() as int) == e@,
{
    reveal_strlit("300");
    reveal_strlit("600");
    reveal_strlit("300s");
    reveal_strlit("600s");
    reveal_strlit("s");
    reveal_strlit("Fehler: ");
    assert("300"@ + "s"@ =~= "300s"@);
    assert("600"@ + "s"@ =~= "600s"@);
    assert(oled_protokoll_spec(OledCareCommandOutput::PixelRefreshGesetzt(a))
        =~= "DPMS idleTime auf "@ + pixel_refresh_args_spec(a)[8] + "s"@ + " gesetzt"@);
    assert(oled_protokoll_spec(OledCareCommandOutput::Fehler(e)).subrange(0, 8) =~= "Fehler: "@);
    assert(oled_protokoll_spec(OledCareCommandOutput::Fehler(e)).subrange(8, 8 + e@.len() as int) =~= e@);
}

} // verus!
