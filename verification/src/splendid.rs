//! Splendid: Farbprofile, Farbtemperatur und Eye Care (Night Color von KWin).
use vstd::prelude::*;
use vstd::string::*;
use crate::prozess::{fehlermeldung, fehlermeldung_spec, qdbus_args, qdbus_args_spec, text_sicht, Ausfuehrung, ProzessStatus};
use crate::text::{dezimal, dezimal_wert, gesetz_dezimal_wird_gelesen, ist_ziffer, u32_text};

verus! {

/// Ein Farbprofil.
#[derive(Clone, Copy, Debug, PartialEq, Eq, Structural)]
pub enum SplendidProfil {
    Normal,
    Lebendig,
    Manuell,
    EyeCare,
    EReading,
}

/// Das gewählte Farbprofil.
pub struct SplendidModel {
    aktuelles_profil: SplendidProfil,
}

impl View for SplendidModel {
    type V = SplendidProfil;

    closed spec fn view(&self) -> SplendidProfil {
        self.aktuelles_profil
    }
}

/// Eine Eingabe des Benutzers.
#[derive(Debug, PartialEq, Eq)]
pub enum SplendidMsg {
    ProfilWechseln(SplendidProfil),
    /// Der Farbtemperatur-Regler wurde bewegt; sein Wert in ganzen Kelvin.
    FarbtemperaturGeaendert(u32),
    /// Der Stärke-Regler wurde bewegt; sein Wert, wie er angezeigt wird.
    EyeCareStaerkeGeaendert(String),
}

/// Die Rückmeldung eines Hintergrundbefehls.
#[derive(Debug, PartialEq, Eq)]
pub enum SplendidCommandOutput {
    EyeCareGesetzt(bool),
    FarbtemperaturGesetzt(u32),
    Fehler(String),
}

/// Eine auszuführende Aktion.
#[derive(Debug, PartialEq, Eq)]
pub enum SplendidAktion {
    /// Night Color über qdbus ein- oder ausschalten.
    NightColorSetzen(bool),
    /// Die Farbtemperatur schreiben und Night Color neu laden.
    FarbtemperaturSetzen(u32),
    /// Diese Zeile ins Fehlerprotokoll schreiben.
    Protokoll(String),
}

/// Die Sicht einer Aktion: Zeichenketten als Zeichenfolgen.
pub enum SplendidAktionAnsicht {
    NightColorSetzen(bool),
    FarbtemperaturSetzen(u32),
    Protokoll(Seq<char>),
}

impl View for SplendidAktion {
    type V = SplendidAktionAnsicht;

    open spec fn view(&self) -> SplendidAktionAnsicht {
        match self {
            SplendidAktion::NightColorSetzen(a) => SplendidAktionAnsicht::NightColorSetzen(*a),
            SplendidAktion::FarbtemperaturSetzen(k) => SplendidAktionAnsicht::FarbtemperaturSetzen(*k),
            SplendidAktion::Protokoll(z) => SplendidAktionAnsicht::Protokoll(z@),
        }
    }
}

/// Die Sicht einer Aktionsliste.
pub open spec fn aktionen_sicht(v: Seq<SplendidAktion>) -> Seq<SplendidAktionAnsicht> {
    v.map_values(|a: SplendidAktion| a@)
}

/// Die Protokollzeile beim Wechsel auf ein Profil, das Night Color nicht betrifft.
pub open spec fn profil_meldung(p: SplendidProfil) -> Seq<char> {
    match p {
        SplendidProfil::Normal => "Splendid: Normal-Profil aktiviert (Standard-Farbwiedergabe)"@,
        SplendidProfil::Lebendig =>
            "Splendid: Lebendig-Profil aktiviert – ICC-Profil muss in KDE-Einstellungen hinterlegt werden"@,
        SplendidProfil::Manuell =>
            "Splendid: Manuell-Profil aktiviert – Farbtemperatur über Slider einstellen"@,
        SplendidProfil::EReading =>
            "Splendid: E-Reading (Graustufen) aktiviert – ICC-Profil muss in KDE-Einstellungen hinterlegt werden"@,
        SplendidProfil::EyeCare => Seq::empty(),
    }
}

/// Die Aktionen beim Wechsel von `alt` auf `neu` (`alt != neu`): wer Eye Care verlässt,
/// schaltet Night Color aus; wer Eye Care wählt, schaltet es ein; jedes andere Ziel wird protokolliert.
pub open spec fn profilwechsel_aktionen(alt: SplendidProfil, neu: SplendidProfil) -> Seq<SplendidAktionAnsicht> {
    (if alt == SplendidProfil::EyeCare {
        seq![SplendidAktionAnsicht::NightColorSetzen(false)]
    } else {
        Seq::empty()
    }) + (if neu == SplendidProfil::EyeCare {
        seq![SplendidAktionAnsicht::NightColorSetzen(true)]
    } else {
        seq![SplendidAktionAnsicht::Protokoll(profil_meldung(neu))]
    })
}

/// Folgezustand und Aktionen nach einer Eingabe.
pub open spec fn splendid_update_spec(p: SplendidProfil, msg: SplendidMsg) -> (SplendidProfil, Seq<SplendidAktionAnsicht>) {
    match msg {
        SplendidMsg::ProfilWechseln(neu) => if neu == p {
            (p, Seq::empty())
        } else {
            (neu, profilwechsel_aktionen(p, neu))
        },
        SplendidMsg::FarbtemperaturGeaendert(k) => (p, seq![SplendidAktionAnsicht::FarbtemperaturSetzen(k)]),
        SplendidMsg::EyeCareStaerkeGeaendert(w) => (
            p,
            seq![SplendidAktionAnsicht::Protokoll("Eye Care Stärke auf "@ + w@ + " gesetzt"@)],
        ),
    }
}

/// Die Protokollzeile zu einer Rückmeldung.
pub open spec fn splendid_protokoll_spec(msg: SplendidCommandOutput) -> Seq<char> {
    match msg {
        SplendidCommandOutput::EyeCareGesetzt(a) =>
            "Eye Care Night Color auf "@ + (if a { "aktiv"@ } else { "inaktiv"@ }) + " gesetzt"@,
        SplendidCommandOutput::FarbtemperaturGesetzt(k) => "Farbtemperatur auf "@ + dezimal(k as nat) + "K gesetzt"@,
        SplendidCommandOutput::Fehler(e) => "Fehler: "@ + e@,
    }
}

fn profil_meldung_text(p: SplendidProfil) -> (z: String)
    requires
        p != SplendidProfil::EyeCare,
    ensures
        z@ == profil_meldung(p),
{
    match p {
        SplendidProfil::Normal => String::from_str("Splendid: Normal-Profil aktiviert (Standard-Farbwiedergabe)"),
        SplendidProfil::Lebendig => String::from_str(
            "Splendid: Lebendig-Profil aktiviert – ICC-Profil muss in KDE-Einstellungen hinterlegt werden",
        ),
        SplendidProfil::Manuell => String::from_str(
            "Splendid: Manuell-Profil aktiviert – Farbtemperatur über Slider einstellen",
        ),
        _ => String::from_str(
            "Splendid: E-Reading (Graustufen) aktiviert – ICC-Profil muss in KDE-Einstellungen hinterlegt werden",
        ),
    }
}

impl SplendidModel {
    /// Der Anfangszustand: Profil Normal.
    pub fn init() -> (m: SplendidModel)
        ensures
            m@ == SplendidProfil::Normal,
    {
        SplendidModel { aktuelles_profil: SplendidProfil::Normal }
    }

    /// Das gewählte Profil.
    pub fn aktuelles_profil(&self) -> (p: SplendidProfil)
        ensures
            p == self@,
    {
        self.aktuelles_profil
    }

    /// Verarbeitet eine Eingabe und liefert die auszuführenden Aktionen in ihrer Reihenfolge.
    pub fn update(&mut self, msg: SplendidMsg) -> (aktionen: Vec<SplendidAktion>)
        ensures
            (final(self)@, aktionen_sicht(aktionen@)) == splendid_update_spec(old(self)@, msg),
    {
        let mut aktionen: Vec<SplendidAktion> = Vec::new();
        match msg {
            SplendidMsg::ProfilWechseln(profil) => {
                if profil == self.aktuelles_profil {
                    assert(aktionen_sicht(aktionen@) =~= Seq::empty());
                    return aktionen;
                }
                let vorheriges = self.aktuelles_profil;
                self.aktuelles_profil = profil;
                if vorheriges == SplendidProfil::EyeCare && profil != SplendidProfil::EyeCare {
                    aktionen.push(SplendidAktion::NightColorSetzen(false));
                }
                if profil == SplendidProfil::EyeCare {
                    aktionen.push(SplendidAktion::NightColorSetzen(true));
                } else {
                    aktionen.push(SplendidAktion::Protokoll(profil_meldung_text(profil)));
                }
                assert(aktionen_sicht(aktionen@) =~= profilwechsel_aktionen(vorheriges, profil));
            },
            SplendidMsg::FarbtemperaturGeaendert(kelvin) => {
                aktionen.push(SplendidAktion::FarbtemperaturSetzen(kelvin));
                assert(aktionen_sicht(aktionen@) =~= seq![SplendidAktionAnsicht::FarbtemperaturSetzen(kelvin)]);
            },
            SplendidMsg::EyeCareStaerkeGeaendert(wert) => {
                let mut s = String::from_str("Eye Care Stärke auf ");
                s.append(wert.as_str());
                s.append(" gesetzt");
                aktionen.push(SplendidAktion::Protokoll(s));
                assert(aktionen_sicht(aktionen@)
                    =~= seq![SplendidAktionAnsicht::Protokoll("Eye Care Stärke auf "@ + wert@ + " gesetzt"@)]);
            },
        }
        aktionen
    }

    /// Verarbeitet eine Rückmeldung: der Zustand bleibt, geliefert wird die Protokollzeile.
    pub fn update_cmd(&mut self, msg: SplendidCommandOutput) -> (zeile: String)
        ensures
            final(self)@ == old(self)@,
            zeile@ == splendid_protokoll_spec(msg),
    {
        match msg {
            SplendidCommandOutput::EyeCareGesetzt(aktiv) => {
                let mut s = String::from_str("Eye Care Night Color auf ");
                s.append(if aktiv { "aktiv" } else { "inaktiv" });
                s.append(" gesetzt");
                s
            },
            SplendidCommandOutput::FarbtemperaturGesetzt(kelvin) => {
                let mut s = String::from_str("Farbtemperatur auf ");
                let k = u32_text(kelvin);
                s.append(k.as_str());
                s.append("K gesetzt");
                s
            },
            SplendidCommandOutput::Fehler(e) => {
                let mut s = String::from_str("Fehler: ");
                s.append(e.as_str());
                s
            },
        }
    }
}

/// Die qdbus-Argumente, die Night Color ein- oder ausschalten.
pub open spec fn night_color_args_spec(aktiv: bool) -> Seq<Seq<char>> {
    qdbus_args_spec(
        "org.kde.KWin"@,
        "/ColorCorrect"@,
        "org.kde.kwin.ColorCorrect.nightColorEnabled"@,
        if aktiv { "true"@ } else { "false"@ },
    )
}

/// Baut die qdbus-Argumente, die Night Color ein- oder ausschalten.
pub fn night_color_args(aktiv: bool) -> (args: Vec<String>)
    ensures
        args.deep_view() == night_color_args_spec(aktiv),
{
    let wert: &str = if aktiv { "true" } else { "false" };
    qdbus_args("org.kde.KWin", "/ColorCorrect", "org.kde.kwin.ColorCorrect.nightColorEnabled", wert)
}

/// Die Rückmeldung nach dem Schalten von Night Color für Eye Care.
pub fn night_color_ausgabe(aktiv: bool, r: Result<ProzessStatus, String>) -> (out: SplendidCommandOutput)
    ensures
        match r {
            Ok(_) => out == SplendidCommandOutput::EyeCareGesetzt(aktiv),
            Err(e) => out == SplendidCommandOutput::Fehler(e),
        },
{
    match r {
        Ok(_) => SplendidCommandOutput::EyeCareGesetzt(aktiv),
        Err(e) => SplendidCommandOutput::Fehler(e),
    }
}

/// Die `kwriteconfig6`-Argumente, die die Night-Color-Temperatur in `kwinrc` schreiben.
pub open spec fn farbtemperatur_args_spec(kelvin: u32) -> Seq<Seq<char>> {
    seq![
        "--file"@, "kwinrc"@, "--group"@, "NightColor"@, "--key"@, "NightTemperature"@,
        dezimal(kelvin as nat),
    ]
}

/// Baut die `kwriteconfig6`-Argumente für die Farbtemperatur.
pub fn farbtemperatur_args(kelvin: u32) -> (args: Vec<String>)
    ensures
        args.deep_view() == farbtemperatur_args_spec(kelvin),
{
    let mut args: Vec<String> = Vec::new();
    args.push(String::from_str("--file"));
    args.push(String::from_str("kwinrc"));
    args.push(String::from_str("--group"));
    args.push(String::from_str("NightColor"));
    args.push(String::from_str("--key"));
    args.push(String::from_str("NightTemperature"));
    args.push(u32_text(kelvin));
    assert(args.deep_view() =~= farbtemperatur_args_spec(kelvin));
    args
}

/// Die Fehlermeldung nach dem Schreiben der Farbtemperatur, `None` bei Erfolg.
pub fn farbtemperatur_schreibfehler(a: &Ausfuehrung) -> (m: Option<String>)
    ensures
        text_sicht(m) == fehlermeldung_spec("kwriteconfig6 NightTemperature"@, "kwriteconfig6"@, *a),
{
    fehlermeldung("kwriteconfig6 NightTemperature", "kwriteconfig6", a)
}

/// Die Schritte beim Setzen der Farbtemperatur.
#[derive(Clone, Copy, Debug, PartialEq, Eq, Structural)]
pub enum FarbtemperaturSchritt {
    /// Die Temperatur mit `kwriteconfig6` in `kwinrc` schreiben.
    KonfigSchreiben,
    /// Night Color ausschalten, damit KWin die neue Temperatur lädt.
    NachtfarbeAus,
    /// Night Color wieder einschalten.
    NachtfarbeEin,
}

impl FarbtemperaturSchritt {
    /// Der Schritt, mit dem das Setzen der Farbtemperatur beginnt: das Schreiben in `kwinrc`.
    pub fn erster() -> (s: FarbtemperaturSchritt)
        ensures
            s == FarbtemperaturSchritt::KonfigSchreiben,
    {
        FarbtemperaturSchritt::KonfigSchreiben
    }
}

/// Was nach einem Schritt zu tun ist: diese Rückmeldungen senden, dann den nächsten Schritt
/// ausführen, falls es einen gibt.
#[derive(Debug, PartialEq, Eq)]
pub struct FarbtemperaturReaktion {
    pub ausgaben: Vec<SplendidCommandOutput>,
    pub naechster: Option<FarbtemperaturSchritt>,
}

/// Die Sicht einer Rückmeldung: Fehlertexte als Zeichenfolgen.
pub enum SplendidAusgabeAnsicht {
    EyeCareGesetzt(bool),
    FarbtemperaturGesetzt(u32),
    Fehler(Seq<char>),
}

/// Die Sicht einer Rückmeldung.
pub open spec fn ausgabe_sicht(o: SplendidCommandOutput) -> SplendidAusgabeAnsicht {
    match o {
        SplendidCommandOutput::EyeCareGesetzt(a) => SplendidAusgabeAnsicht::EyeCareGesetzt(a),
        SplendidCommandOutput::FarbtemperaturGesetzt(k) => SplendidAusgabeAnsicht::FarbtemperaturGesetzt(k),
        SplendidCommandOutput::Fehler(e) => SplendidAusgabeAnsicht::Fehler(e@),
    }
}

/// Die Fehler-Rückmeldung zu einer optionalen Meldung.
pub open spec fn fehler_ausgaben(fehler: Option<Seq<char>>) -> Seq<SplendidAusgabeAnsicht> {
    match fehler {
        Some(m) => seq![SplendidAusgabeAnsicht::Fehler(m)],
        None => Seq::empty(),
    }
}

/// Rückmeldungen und nächster Schritt nach `schritt`, der mit `fehler` endete.
/// Ein Fehler beim Schreiben bricht ab; Fehler beim Umschalten von Night Color werden
/// gemeldet, ohne abzubrechen; nach dem Wiedereinschalten folgt die Erfolgsmeldung.
pub open spec fn farbtemperatur_weiter_spec(kelvin: u32, schritt: FarbtemperaturSchritt, fehler: Option<Seq<char>>)
    -> (Seq<SplendidAusgabeAnsicht>, Option<FarbtemperaturSchritt>)
{
    match schritt {
        FarbtemperaturSchritt::KonfigSchreiben => match fehler {
            Some(m) => (seq![SplendidAusgabeAnsicht::Fehler(m)], None),
            None => (Seq::empty(), Some(FarbtemperaturSchritt::NachtfarbeAus)),
        },
        FarbtemperaturSchritt::NachtfarbeAus => (fehler_ausgaben(fehler), Some(FarbtemperaturSchritt::NachtfarbeEin)),
        FarbtemperaturSchritt::NachtfarbeEin => (
            fehler_ausgaben(fehler).push(SplendidAusgabeAnsicht::FarbtemperaturGesetzt(kelvin)),
            None,
        ),
    }
}

/// Entscheidet nach einem Schritt beim Setzen der Farbtemperatur `kelvin`, was folgt.
/// `fehler` ist die Fehlermeldung des Schritts, `None` bei Erfolg.
pub fn farbtemperatur_weiter(kelvin: u32, schritt: FarbtemperaturSchritt, fehler: Option<String>) -> (r: FarbtemperaturReaktion)
    ensures
        (r.ausgaben@.map_values(|o: SplendidCommandOutput| ausgabe_sicht(o)), r.naechster)
            == farbtemperatur_weiter_spec(kelvin, schritt, text_sicht(fehler)),
{
    let mut ausgaben: Vec<SplendidCommandOutput> = Vec::new();
    let ghost f = text_sicht(fehler);
    match schritt {
        FarbtemperaturSchritt::KonfigSchreiben => {
            match fehler {
                Some(m) => {
                    ausgaben.push(SplendidCommandOutput::Fehler(m));
                    assert(ausgaben@.map_values(|o: SplendidCommandOutput| ausgabe_sicht(o))
                        =~= farbtemperatur_weiter_spec(kelvin, schritt, f).0);
                    FarbtemperaturReaktion { ausgaben, naechster: None }
                },
                None => {
                    assert(ausgaben@.map_values(|o: SplendidCommandOutput| ausgabe_sicht(o))
                        =~= farbtemperatur_weiter_spec(kelvin, schritt, f).0);
                    FarbtemperaturReaktion { ausgaben, naechster: Some(FarbtemperaturSchritt::NachtfarbeAus) }
                },
            }
        },
        FarbtemperaturSchritt::NachtfarbeAus => {
            match fehler {
                Some(m) => {
                    ausgaben.push(SplendidCommandOutput::Fehler(m));
                },
                None => {},
            }
            assert(ausgaben@.map_values(|o: SplendidCommandOutput| ausgabe_sicht(o))
                =~= farbtemperatur_weiter_spec(kelvin, schritt, f).0);
            FarbtemperaturReaktion { ausgaben, naechster: Some(FarbtemperaturSchritt::NachtfarbeEin) }
        },
        FarbtemperaturSchritt::NachtfarbeEin => {
            match fehler {
                Some(m) => {
                    ausgaben.push(SplendidCommandOutput::Fehler(m));
                },
                None => {},
            }
            ausgaben.push(SplendidCommandOutput::FarbtemperaturGesetzt(kelvin));
            assert(ausgaben@.map_values(|o: SplendidCommandOutput| ausgabe_sicht(o))
                =~= farbtemperatur_weiter_spec(kelvin, schritt, f).0);
            FarbtemperaturReaktion { ausgaben, naechster: None }
        },
    }
}

/// Der Night-Color-Zustand nach den Aktionen `aktionen`, ausgehend von `vorher`:
/// der Wert des letzten Schaltbefehls, oder `vorher`, wenn keiner darunter ist.
pub open spec fn nachtfarbe_nach(aktionen: Seq<SplendidAktionAnsicht>, vorher: bool) -> bool
    decreases aktionen.len(),
{
    if aktionen.len() == 0 {
        vorher
    } else {
        match aktionen.last() {
            SplendidAktionAnsicht::NightColorSetzen(a) => a,
            _ => nachtfarbe_nach(aktionen.drop_last(), vorher),
        }
    }
}

/// Ob eine Aktion Night Color schaltet.
pub open spec fn schaltet_nachtfarbe(a: SplendidAktionAnsicht) -> bool {
    a is NightColorSetzen
}

/// Ein Profil, das schon gewählt ist, erneut zu wählen, ändert nichts und löst nichts aus.
pub proof fn gesetz_gleiches_profil_wirkungslos(p: SplendidProfil)
    ensures
        splendid_update_spec(p, SplendidMsg::ProfilWechseln(p)) == (p, Seq::<SplendidAktionAnsicht>::empty()),
{
}

/// Night Color ist genau dann eingeschaltet, wenn Eye Care gewählt ist: gilt das vor einer
/// Eingabe, so gilt es auch nach den Aktionen, die sie auslöst. Dabei schaltet eine Eingabe
/// Night Color höchstens einmal.
pub proof fn gesetz_nachtfarbe_folgt_eye_care(p: SplendidProfil, msg: SplendidMsg)
    ensures
        nachtfarbe_nach(splendid_update_spec(p, msg).1, p == SplendidProfil::EyeCare)
            == (splendid_update_spec(p, msg).0 == SplendidProfil::EyeCare),
        splendid_update_spec(p, msg).1.filter(|a: SplendidAktionAnsicht| schaltet_nachtfarbe(a)).len() <= 1,
{
    let (q, aktionen) = splendid_update_spec(p, msg);
    let f = |a: SplendidAktionAnsicht| schaltet_nachtfarbe(a);
    reveal_with_fuel(nachtfarbe_nach, 3);
    match msg {
        SplendidMsg::ProfilWechseln(neu) => {
            if neu != p {
                reveal_with_fuel(Seq::filter, 3);
                if p == SplendidProfil::EyeCare {
                    assert(aktionen =~= seq![
                        SplendidAktionAnsicht::NightColorSetzen(false),
                        SplendidAktionAnsicht::Protokoll(profil_meldung(neu)),
                    ]);
                    assert(aktionen.drop_last() =~= seq![SplendidAktionAnsicht::NightColorSetzen(false)]);
                    assert(aktionen.drop_last().drop_last() =~= Seq::<SplendidAktionAnsicht>::empty());
                } else if neu == SplendidProfil::EyeCare {
                    assert(aktionen =~= seq![SplendidAktionAnsicht::NightColorSetzen(true)]);
                    assert(aktionen.drop_last() =~= Seq::<SplendidAktionAnsicht>::empty());
                } else {
                    assert(aktionen =~= seq![SplendidAktionAnsicht::Protokoll(profil_meldung(neu))]);
                    assert(aktionen.drop_last() =~= Seq::<SplendidAktionAnsicht>::empty());
                }
            } else {
                assert(aktionen.filter(f) =~= Seq::<SplendidAktionAnsicht>::empty());
            }
        },
        SplendidMsg::FarbtemperaturGeaendert(k) => {
            reveal_with_fuel(Seq::filter, 2);
            assert(aktionen.drop_last() =~= Seq::<SplendidAktionAnsicht>::empty());
        },
        SplendidMsg::EyeCareStaerkeGeaendert(w) => {
            reveal_with_fuel(Seq::filter, 2);
            assert(aktionen.drop_last() =~= Seq::<SplendidAktionAnsicht>::empty());
        },
    }
}

/// Der ganze Ablauf beim Setzen der Farbtemperatur, wenn die drei Schritte mit den
/// Fehlermeldungen `beim_schreiben`, `beim_ausschalten` und `beim_einschalten` enden:
/// alle Rückmeldungen in ihrer Reihenfolge.
pub open spec fn farbtemperatur_ablauf(
    kelvin: u32,
    beim_schreiben: Option<Seq<char>>,
    beim_ausschalten: Option<Seq<char>>,
    beim_einschalten: Option<Seq<char>>,
) -> Seq<SplendidAusgabeAnsicht> {
    let (o1, n1) = farbtemperatur_weiter_spec(kelvin, FarbtemperaturSchritt::KonfigSchreiben, beim_schreiben);
    match n1 {
        None => o1,
        Some(s2) => {
            let (o2, n2) = farbtemperatur_weiter_spec(kelvin, s2, beim_ausschalten);
            match n2 {
                None => o1 + o2,
                Some(s3) => o1 + o2 + farbtemperatur_weiter_spec(kelvin, s3, beim_einschalten).0,
            }
        },
    }
}

/// Das Setzen der Farbtemperatur endet nach höchstens drei Schritten. Scheitert das
/// Schreiben, wird genau dieser Fehler gemeldet; sonst schaltet es Night Color aus und
/// wieder ein, meldet deren Fehler und zuletzt die gesetzte Temperatur.
pub proof fn gesetz_farbtemperatur_ablauf(
    kelvin: u32,
    beim_schreiben: Option<Seq<char>>,
    beim_ausschalten: Option<Seq<char>>,
    beim_einschalten: Option<Seq<char>>,
)
    ensures
        farbtemperatur_weiter_spec(kelvin, FarbtemperaturSchritt::KonfigSchreiben, beim_schreiben).1 is None
            || farbtemperatur_weiter_spec(kelvin, FarbtemperaturSchritt::KonfigSchreiben, beim_schreiben).1
                == Some(FarbtemperaturSchritt::NachtfarbeAus),
        farbtemperatur_weiter_spec(kelvin, FarbtemperaturSchritt::NachtfarbeAus, beim_ausschalten).1
            == Some(FarbtemperaturSchritt::NachtfarbeEin),
        farbtemperatur_weiter_spec(kelvin, FarbtemperaturSchritt::NachtfarbeEin, beim_einschalten).1 is None,
        match beim_schreiben {
            Some(m) => farbtemperatur_ablauf(kelvin, beim_schreiben, beim_ausschalten, beim_einschalten)
                == seq![SplendidAusgabeAnsicht::Fehler(m)],
            None => farbtemperatur_ablauf(kelvin, beim_schreiben, beim_ausschalten, beim_einschalten)
                == fehler_ausgaben(beim_ausschalten) + fehler_ausgaben(beim_einschalten)
                    + seq![SplendidAusgabeAnsicht::FarbtemperaturGesetzt(kelvin)],
        },
{
    if beim_schreiben is None {
        assert(farbtemperatur_ablauf(kelvin, beim_schreiben, beim_ausschalten, beim_einschalten)
            =~= fehler_ausgaben(beim_ausschalten) + fehler_ausgaben(beim_einschalten)
                + seq![SplendidAusgabeAnsicht::FarbtemperaturGesetzt(kelvin)]);
    }
}

/// Die Werte der Night-Color-Schaltbefehle unter `aktionen`, in ihrer Reihenfolge.
pub open spec fn nachtfarbe_befehle(aktionen: Seq<SplendidAktionAnsicht>) -> Seq<bool>
    decreases aktionen.len(),
{
    if aktionen.len() == 0 {
        Seq::empty()
    } else {
        let vorne = nachtfarbe_befehle(aktionen.drop_last());
        match aktionen.last() {
            SplendidAktionAnsicht::NightColorSetzen(a) => vorne.push(a),
            _ => vorne,
        }
    }
}

proof fn lemma_nachtfarbe_befehle_verkettung(a: Seq<SplendidAktionAnsicht>, b: Seq<SplendidAktionAnsicht>)
    ensures
        nachtfarbe_befehle(a + b) == nachtfarbe_befehle(a) + nachtfarbe_befehle(b),
    decreases b.len(),
{
    if b.len() == 0 {
        assert(a + b =~= a);
        assert(nachtfarbe_befehle(a) + nachtfarbe_befehle(b) =~= nachtfarbe_befehle(a));
    } else {
        assert((a + b).drop_last() =~= a + b.drop_last());
        assert((a + b).last() == b.last());
        lemma_nachtfarbe_befehle_verkettung(a, b.drop_last());
        assert(nachtfarbe_befehle(a) + nachtfarbe_befehle(b.drop_last()).push(b.last()->NightColorSetzen_0)
            =~= (nachtfarbe_befehle(a) + nachtfarbe_befehle(b.drop_last())).push(b.last()->NightColorSetzen_0));
    }
}

/// Die Night-Color-Schaltbefehle einer einzelnen Eingabe im Profil `p`: einschalten beim
/// Wechsel auf Eye Care, ausschalten beim Verlassen, sonst keiner.
proof fn lemma_nachtfarbe_befehle_schritt(p: SplendidProfil, msg: SplendidMsg)
    ensures
        nachtfarbe_befehle(splendid_update_spec(p, msg).1) == ({
            let q = splendid_update_spec(p, msg).0;
            if p != SplendidProfil::EyeCare && q == SplendidProfil::EyeCare {
                seq![true]
            } else if p == SplendidProfil::EyeCare && q != SplendidProfil::EyeCare {
                seq![false]
            } else {
                Seq::<bool>::empty()
            }
        }),
{
    let aktionen = splendid_update_spec(p, msg).1;
    reveal_with_fuel(nachtfarbe_befehle, 3);
    match msg {
        SplendidMsg::ProfilWechseln(neu) => {
            if neu != p {
                if p == SplendidProfil::EyeCare {
                    assert(aktionen.drop_last() =~= seq![SplendidAktionAnsicht::NightColorSetzen(false)]);
                    assert(aktionen.drop_last().drop_last() =~= Seq::<SplendidAktionAnsicht>::empty());
                    assert(nachtfarbe_befehle(aktionen) =~= seq![false]);
                } else if neu == SplendidProfil::EyeCare {
                    assert(aktionen.drop_last() =~= Seq::<SplendidAktionAnsicht>::empty());
                    assert(nachtfarbe_befehle(aktionen) =~= seq![true]);
                } else {
                    assert(aktionen.drop_last() =~= Seq::<SplendidAktionAnsicht>::empty());
                    assert(nachtfarbe_befehle(aktionen) =~= Seq::<bool>::empty());
                }
            }
        },
        _ => {
            assert(aktionen.drop_last() =~= Seq::<SplendidAktionAnsicht>::empty());
            assert(nachtfarbe_befehle(aktionen) =~= Seq::<bool>::empty());
        },
    }
}

/// Profil und alle ausgelösten Aktionen (in ihrer Reihenfolge) nach einer Folge von Eingaben,
/// ausgehend vom Profil `p`.
pub open spec fn splendid_nach_folge(p: SplendidProfil, msgs: Seq<SplendidMsg>) -> (SplendidProfil, Seq<SplendidAktionAnsicht>)
    decreases msgs.len(),
{
    if msgs.len() == 0 {
        (p, Seq::empty())
    } else {
        let (q, vorne) = splendid_nach_folge(p, msgs.drop_last());
        let (r, neu) = splendid_update_spec(q, msgs.last());
        (r, vorne + neu)
    }
}

/// Ob Eye Care ausgehend von `p` im Lauf der Eingaben `msgs` je gewählt war (`p` eingeschlossen).
pub open spec fn jemals_eye_care(p: SplendidProfil, msgs: Seq<SplendidMsg>) -> bool
    decreases msgs.len(),
{
    if msgs.len() == 0 {
        p == SplendidProfil::EyeCare
    } else {
        jemals_eye_care(p, msgs.drop_last()) || splendid_nach_folge(p, msgs).0 == SplendidProfil::EyeCare
    }
}

/// Ausgehend vom Anfangsprofil Normal wechseln die Night-Color-Schaltbefehle über jede Folge von
/// Eingaben zwischen Ein und Aus, beginnend mit Ein; der letzte entspricht danach, ob Eye Care
/// gewählt ist; und es gibt keinen genau dann, wenn Eye Care nie gewählt war.
pub proof fn gesetz_nachtfarbe_im_wechsel(msgs: Seq<SplendidMsg>)
    ensures
        ({
            let (p, aktionen) = splendid_nach_folge(SplendidProfil::Normal, msgs);
            let befehle = nachtfarbe_befehle(aktionen);
            &&& forall|k: int| 0 <= k < befehle.len() ==> #[trigger] befehle[k] == (k % 2 == 0)
            &&& befehle.len() > 0 ==> befehle.last() == (p == SplendidProfil::EyeCare)
            &&& (befehle.len() == 0) == !jemals_eye_care(SplendidProfil::Normal, msgs)
            &&& (befehle.len() % 2 == 1) == (p == SplendidProfil::EyeCare)
        }),
    decreases msgs.len(),
{
    if msgs.len() > 0 {
        let vorne = msgs.drop_last();
        gesetz_nachtfarbe_im_wechsel(vorne);
        let (q, a) = splendid_nach_folge(SplendidProfil::Normal, vorne);
        let (r, b) = splendid_update_spec(q, msgs.last());
        lemma_nachtfarbe_befehle_verkettung(a, b);
        lemma_nachtfarbe_befehle_schritt(q, msgs.last());
        let alt = nachtfarbe_befehle(a);
        let befehle = nachtfarbe_befehle(a + b);
        assert forall|k: int| 0 <= k < befehle.len() implies #[trigger] befehle[k] == (k % 2 == 0) by {
            if k < alt.len() {
                assert(befehle[k] == alt[k]);
            }
        }
    }
}

/// Ein weiterer Aufruf von `update` setzt die Folge fort: steht das Modell nach `msgs` im
/// Profil `splendid_nach_folge(p, msgs).0` und wird `update(m)` aufgerufen, so ist sein neues
/// Profil das nach `msgs.push(m)`, und die gelieferten Aktionen schließen die Aktionen der Folge ab.
/// So gilt das Wechselgesetz für jede Reihe von Aufrufen ab `init`.
pub proof fn gesetz_aufruf_setzt_folge_fort(p: SplendidProfil, msgs: Seq<SplendidMsg>, m: SplendidMsg)
    ensures
        splendid_nach_folge(p, msgs.push(m)).0 == splendid_update_spec(splendid_nach_folge(p, msgs).0, m).0,
        splendid_nach_folge(p, msgs.push(m)).1
            == splendid_nach_folge(p, msgs).1 + splendid_update_spec(splendid_nach_folge(p, msgs).0, m).1,
{
    assert(msgs.push(m).drop_last() =~= msgs);
}

/// Nach dem Wechsel auf ein Profil ist genau dieses Profil gewählt, was auch vorher galt.
/// Die Regler ändern das Profil nie.
pub proof fn gesetz_profilwechsel_waehlt_profil(p: SplendidProfil, neu: SplendidProfil, k: u32, w: String)
    ensures
        splendid_update_spec(p, SplendidMsg::ProfilWechseln(neu)).0 == neu,
        splendid_update_spec(p, SplendidMsg::FarbtemperaturGeaendert(k)).0 == p,
        splendid_update_spec(p, SplendidMsg::EyeCareStaerkeGeaendert(w)).0 == p,
{
}

/// Der Name eines Profils, wie ihn die Protokollzeile nennt.
pub open spec fn profil_name(p: SplendidProfil) -> Seq<char> {
    match p {
        SplendidProfil::Normal => "Normal"@,
        SplendidProfil::Lebendig => "Lebendig"@,
        SplendidProfil::Manuell => "Manuell"@,
        SplendidProfil::EReading => "E-Reading"@,
        SplendidProfil::EyeCare => "Eye Care"@,
    }
}

/// Ein Wechsel auf ein anderes Profil als Eye Care löst (nach dem Ausschalten von Night Color,
/// falls Eye Care verlassen wird) genau eine Protokollzeile aus, und sie nennt das neue Profil:
/// sie beginnt mit "Splendid: " und dem Namen des Profils.
pub proof fn gesetz_profilwechsel_protokolliert_profil(p: SplendidProfil, neu: SplendidProfil)
    requires
        neu != p,
        neu != SplendidProfil::EyeCare,
    ensures
        ({
            let aktionen = splendid_update_spec(p, SplendidMsg::ProfilWechseln(neu)).1;
            &&& aktionen.last() matches SplendidAktionAnsicht::Protokoll(z)
                && z.subrange(0, 10) == "Splendid: "@
                && z.subrange(10, 10 + profil_name(neu).len() as int) == profil_name(neu)
            &&& aktionen.len() == if p == SplendidProfil::EyeCare { 2int } else { 1int }
        }),
{
    reveal_strlit("Splendid: ");
    reveal_strlit("Normal");
    reveal_strlit("Lebendig");
    reveal_strlit("Manuell");
    reveal_strlit("E-Reading");
    reveal_strlit("Splendid: Normal-Profil aktiviert (Standard-Farbwiedergabe)");
    reveal_strlit("Splendid: Lebendig-Profil aktiviert – ICC-Profil muss in KDE-Einstellungen hinterlegt werden");
    reveal_strlit("Splendid: Manuell-Profil aktiviert – Farbtemperatur über Slider einstellen");
    reveal_strlit("Splendid: E-Reading (Graustufen) aktiviert – ICC-Profil muss in KDE-Einstellungen hinterlegt werden");
    let z = profil_meldung(neu);
    assert(z.subrange(0, 10) =~= "Splendid: "@);
    assert(z.subrange(10, 10 + profil_name(neu).len() as int) =~= profil_name(neu));
}

/// Ein bewegter Farbtemperatur-Regler löst genau eine Aktion aus: das Setzen genau des
/// eingestellten Werts, unverändert, in jedem Profil.
pub proof fn gesetz_farbtemperatur_wird_weitergegeben(p: SplendidProfil, k: u32)
    ensures
        splendid_update_spec(p, SplendidMsg::FarbtemperaturGeaendert(k)).1.len() == 1,
        splendid_update_spec(p, SplendidMsg::FarbtemperaturGeaendert(k)).1[0]
            == SplendidAktionAnsicht::FarbtemperaturSetzen(k),
{
}

/// Die Farbtemperatur wird als Wert `NightTemperature` der Gruppe `NightColor` in `kwinrc`
/// geschrieben, als Dezimalzahl, die gelesen genau `kelvin` ergibt.
pub proof fn gesetz_farbtemperatur_args(kelvin: u32)
    ensures
        farbtemperatur_args_spec(kelvin).len() == 7,
        farbtemperatur_args_spec(kelvin).take(6)
            == seq!["--file"@, "kwinrc"@, "--group"@, "NightColor"@, "--key"@, "NightTemperature"@],
        dezimal_wert(farbtemperatur_args_spec(kelvin)[6]) == kelvin,
{
    gesetz_dezimal_wird_gelesen(kelvin as nat);
    assert(farbtemperatur_args_spec(kelvin).take(6)
        =~= seq!["--file"@, "kwinrc"@, "--group"@, "NightColor"@, "--key"@, "NightTemperature"@]);
}

/// Die Protokollzeile nach gesetzter Farbtemperatur nennt genau die gesetzte Zahl in Kelvin.
pub proof fn gesetz_farbtemperatur_meldung(k: u32)
    ensures
        ({
            let z = splendid_protokoll_spec(SplendidCommandOutput::FarbtemperaturGesetzt(k));
            &&& z.len() >= 29
            &&& z.subrange(0, 19) == "Farbtemperatur auf "@
            &&& z.subrange(z.len() - 9, z.len() as int) == "K gesetzt"@
            &&& dezimal_wert(z.subrange(19, z.len() - 9)) == k
            &&& forall|i: int| 19 <= i < z.len() - 9 ==> ist_ziffer(#[trigger] z[i])
        }),
{
    reveal_strlit("Farbtemperatur auf ");
    reveal_strlit("K gesetzt");
    gesetz_dezimal_wird_gelesen(k as nat);
    let z = splendid_protokoll_spec(SplendidCommandOutput::FarbtemperaturGesetzt(k));
    assert(z.subrange(0, 19) =~= "Farbtemperatur auf "@);
    assert(z.subrange(z.len() - 9, z.len() as int) =~= "K gesetzt"@);
    assert(z.subrange(19, z.len() - 9) =~= dezimal(k as nat));
    assert forall|i: int| 19 <= i < z.len() - 9 implies ist_ziffer(#[trigger] z[i]) by {
        assert(z[i] == dezimal(k as nat)[i - 19]);
    }
}

/// Night Color wird über `org.kde.KWin` `/ColorCorrect` mit der Methode `nightColorEnabled`
/// geschaltet, für Ein und Aus gleich; nur der Wert unterscheidet sich: "true" für Ein,
/// "false" für Aus.
pub proof fn gesetz_night_color_args(aktiv: bool)
    ensures
        night_color_args_spec(aktiv).len() == 4,
        night_color_args_spec(aktiv).take(3)
            == seq!["org.kde.KWin"@, "/ColorCorrect"@, "org.kde.kwin.ColorCorrect.nightColorEnabled"@],
        night_color_args_spec(aktiv)[3] == if aktiv { "true"@ } else { "false"@ },
        night_color_args_spec(true)[3] != night_color_args_spec(false)[3],
{
    reveal_strlit("true");
    reveal_strlit("false");
    assert(night_color_args_spec(aktiv).take(3)
        =~= seq!["org.kde.KWin"@, "/ColorCorrect"@, "org.kde.kwin.ColorCorrect.nightColorEnabled"@]);
    assert("true"@.len() != "false"@.len());
}

/// Die Protokollzeile nach dem Schalten von Night Color für Eye Care sagt "aktiv" für Ein und
/// "inaktiv" für Aus; eine Fehlermeldung steht unverändert hinter "Fehler: ". Der Stärke-Regler
/// protokolliert seinen Wert unverändert.
pub proof fn gesetz_splendid_meldungen(a: bool, e: String, p: SplendidProfil, w: String)
    ensures
        splendid_protokoll_spec(SplendidCommandOutput::EyeCareGesetzt(a))
            == "Eye Care Night Color auf "@ + (if a { "aktiv"@ } else { "inaktiv"@ }) + " gesetzt"@,
        splendid_protokoll_spec(SplendidCommandOutput::EyeCareGesetzt(true))
            != splendid_protokoll_spec(SplendidCommandOutput::EyeCareGesetzt(false)),
        splendid_protokoll_spec(SplendidCommandOutput::Fehler(e)).subrange(0, 8) == "Fehler: "@,
        splendid_protokoll_spec(SplendidCommandOutput::Fehler(e)).subrange(8, 8 + e@.len() as int) == e@,
        splendid_update_spec(p, SplendidMsg::EyeCareStaerkeGeaendert(w)).1.len() == 1,
        splendid_update_spec(p, SplendidMsg::EyeCareStaerkeGeaendert(w)).1[0] matches SplendidAktionAnsicht::Protokoll(z)
            && z.subrange(0, 20) == "Eye Care Stärke auf "@ && z.subrange(20, 20 + w@.len() as int) == w@,
{
    reveal_strlit("aktiv");
    reveal_strlit("inaktiv");
    reveal_strlit("Fehler: ");
    reveal_strlit("Eye Care Stärke auf ");
    reveal_strlit("Eye Care Night Color auf ");
    let ein = splendid_protokoll_spec(SplendidCommandOutput::EyeCareGesetzt(true));
    let aus = splendid_protokoll_spec(SplendidCommandOutput::EyeCareGesetzt(false));
    assert(ein[25] != aus[25]);
    let f = splendid_protokoll_spec(SplendidCommandOutput::Fehler(e));
    assert(f.subrange(0, 8) =~= "Fehler: "@);
    assert(f.subrange(8, 8 + e@.len() as int) =~= e@);
    let z = "Eye Care Stärke auf "@ + w@ + " gesetzt"@;
    assert(z.subrange(0, 20) =~= "Eye Care Stärke auf "@);
    assert(z.subrange(20, 20 + w@.len() as int) =~= w@);
}

} // verus!
