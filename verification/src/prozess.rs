//! Ergebnisse externer Prozessaufrufe und ihre Übersetzung in Fehlermeldungen.
use vstd::prelude::*;
use vstd::string::*;
use crate::text::{dezimal_vorzeichen, dezimal_wert, gesetz_dezimal_vorzeichen_wird_gelesen, i32_text};

verus! {

/// Der Exit-Status eines beendeten Prozesses.
#[derive(Clone, Copy, Debug, PartialEq, Eq)]
pub struct ProzessStatus {
    /// Der Prozess endete erfolgreich (Exit-Code 0).
    pub erfolg: bool,
    /// Der Exit-Code, falls der Prozess nicht durch ein Signal beendet wurde.
    pub code: Option<i32>,
}

/// Wie ein in einem Hintergrund-Task gestarteter Prozessaufruf ausging.
#[derive(Debug, PartialEq, Eq)]
pub enum Ausfuehrung {
    /// Der Prozess lief und endete mit diesem Status.
    Beendet(ProzessStatus),
    /// Der Prozess ließ sich nicht starten; die Fehlermeldung des Betriebssystems.
    StartFehler(String),
    /// Der Hintergrund-Task selbst scheiterte; seine Fehlermeldung.
    TaskFehler(String),
}

/// Der Exit-Code, wie er in Meldungen erscheint: -1, wenn keiner vorliegt.
pub open spec fn code_oder_minus_eins(code: Option<i32>) -> int {
    match code {
        Some(c) => c as int,
        None => -1,
    }
}

/// Die Fehlermeldung zu einem Prozessaufruf, `None` bei Erfolg.
/// `exit_name` benennt das Programm bei einem Exit-Code ungleich null,
/// `start_name` beim gescheiterten Start.
pub open spec fn fehlermeldung_spec(exit_name: Seq<char>, start_name: Seq<char>, a: Ausfuehrung) -> Option<Seq<char>> {
    match a {
        Ausfuehrung::Beendet(s) => if s.erfolg {
            None
        } else {
            Some(exit_name + " fehlgeschlagen mit Exit-Code: "@ + dezimal_vorzeichen(code_oder_minus_eins(s.code)))
        },
        Ausfuehrung::StartFehler(e) => Some(start_name + " starten fehlgeschlagen: "@ + e@),
        Ausfuehrung::TaskFehler(e) => Some("spawn_blocking fehlgeschlagen: "@ + e@),
    }
}

/// Die Sicht einer optionalen Zeichenkette.
pub open spec fn text_sicht(t: Option<String>) -> Option<Seq<char>> {
    match t {
        Some(s) => Some(s@),
        None => None,
    }
}

/// Übersetzt den Ausgang eines Prozessaufrufs in eine Fehlermeldung, `None` bei Erfolg.
pub fn fehlermeldung(exit_name: &str, start_name: &str, a: &Ausfuehrung) -> (m: Option<String>)
    ensures
        text_sicht(m) == fehlermeldung_spec(exit_name@, start_name@, *a),
{
    match a {
        Ausfuehrung::Beendet(s) => {
            if s.erfolg {
                None
            } else {
                let code: i32 = match s.code {
                    Some(c) => c,
                    None => -1,
                };
                let mut t = String::from_str(exit_name);
                t.append(" fehlgeschlagen mit Exit-Code: ");
                let z = i32_text(code);
                t.append(z.as_str());
                Some(t)
            }
        },
        Ausfuehrung::StartFehler(e) => {
            let mut t = String::from_str(start_name);
            t.append(" starten fehlgeschlagen: ");
            t.append(e.as_str());
            Some(t)
        },
        Ausfuehrung::TaskFehler(e) => {
            let mut t = String::from_str("spawn_blocking fehlgeschlagen: ");
            t.append(e.as_str());
            Some(t)
        },
    }
}

/// Welches D-Bus-Kommandozeilenwerkzeug aufgerufen wird.
#[derive(Clone, Copy, Debug, PartialEq, Eq, Structural)]
pub enum QdbusProgramm {
    /// `qdbus-qt6`, der erste Versuch.
    Qt6,
    /// `qdbus`, der Rückfall, wenn `qdbus-qt6` fehlt.
    Klassisch,
}

/// Der Programmname des Werkzeugs.
pub open spec fn qdbus_name_spec(p: QdbusProgramm) -> Seq<char> {
    match p {
        QdbusProgramm::Qt6 => "qdbus-qt6"@,
        QdbusProgramm::Klassisch => "qdbus"@,
    }
}

impl QdbusProgramm {
    /// Das Werkzeug, das zuerst versucht wird: `qdbus-qt6`.
    pub fn erstes() -> (p: QdbusProgramm)
        ensures
            p == QdbusProgramm::Qt6,
    {
        QdbusProgramm::Qt6
    }

    /// Der Programmname, unter dem das Werkzeug gestartet wird.
    pub fn name(&self) -> (n: &'static str)
        ensures
            n@ == qdbus_name_spec(*self),
    {
        match self {
            QdbusProgramm::Qt6 => "qdbus-qt6",
            QdbusProgramm::Klassisch => "qdbus",
        }
    }
}

/// Nach einem gescheiterten Start von `programm`: das Werkzeug, das als Nächstes versucht wird.
/// Nur wenn `qdbus-qt6` nicht gefunden wurde, wird auf `qdbus` zurückgegriffen.
pub fn qdbus_rueckfall(programm: QdbusProgramm, nicht_gefunden: bool) -> (r: Option<QdbusProgramm>)
    ensures
        r == (if programm == QdbusProgramm::Qt6 && nicht_gefunden {
            Some(QdbusProgramm::Klassisch)
        } else {
            None
        }),
{
    if programm == QdbusProgramm::Qt6 && nicht_gefunden {
        Some(QdbusProgramm::Klassisch)
    } else {
        None
    }
}

/// Das Ergebnis eines qdbus-Aufrufs, wie `qdbus_ausfuehren` es liefert: der Exit-Status
/// bei Erfolg, sonst die Fehlermeldung.
pub open spec fn qdbus_ergebnis_spec(programm: QdbusProgramm, a: Ausfuehrung) -> Result<ProzessStatus, Seq<char>> {
    match a {
        Ausfuehrung::Beendet(s) => if s.erfolg {
            Ok(s)
        } else {
            Err(fehlermeldung_spec(qdbus_name_spec(programm), "qdbus"@, a)->0)
        },
        _ => Err(fehlermeldung_spec(qdbus_name_spec(programm), "qdbus"@, a)->0),
    }
}

/// Die Sicht eines Ergebnisses mit Zeichenketten-Fehler.
pub open spec fn ergebnis_sicht(r: Result<ProzessStatus, String>) -> Result<ProzessStatus, Seq<char>> {
    match r {
        Ok(s) => Ok(s),
        Err(e) => Err(e@),
    }
}

/// Übersetzt den Ausgang eines qdbus-Aufrufs: der Exit-Status bei Erfolg, sonst die
/// Fehlermeldung. `programm` ist das Werkzeug, das zuletzt gestartet wurde.
pub fn qdbus_ergebnis(programm: QdbusProgramm, a: &Ausfuehrung) -> (r: Result<ProzessStatus, String>)
    ensures
        ergebnis_sicht(r) == qdbus_ergebnis_spec(programm, *a),
        r matches Ok(s) ==> *a == Ausfuehrung::Beendet(s) && s.erfolg,
        (r is Ok) == (fehlermeldung_spec(qdbus_name_spec(programm), "qdbus"@, *a) is None),
        r matches Err(e) ==> Some(e@) == fehlermeldung_spec(qdbus_name_spec(programm), "qdbus"@, *a),
{
    match fehlermeldung(programm.name(), "qdbus", a) {
        None => {
            match a {
                Ausfuehrung::Beendet(s) => Ok(*s),
                _ => {
                    proof {
                        assert(false);
                    }
                    Err(String::new())
                },
            }
        },
        Some(m) => Err(m),
    }
}

/// Die Argumente eines qdbus-Aufrufs: Dienst, Objektpfad, Methode und ein Wert.
pub open spec fn qdbus_args_spec(dienst: Seq<char>, pfad: Seq<char>, methode: Seq<char>, wert: Seq<char>) -> Seq<Seq<char>> {
    seq![dienst, pfad, methode, wert]
}

/// Baut die Argumentliste für einen qdbus-Aufruf.
pub fn qdbus_args(dienst: &str, pfad: &str, methode: &str, wert: &str) -> (args: Vec<String>)
    ensures
        args.deep_view() == qdbus_args_spec(dienst@, pfad@, methode@, wert@),
{
    let mut args: Vec<String> = Vec::new();
    args.push(String::from_str(dienst));
    args.push(String::from_str(pfad));
    args.push(String::from_str(methode));
    args.push(String::from_str(wert));
    assert(args.deep_view() =~= qdbus_args_spec(dienst@, pfad@, methode@, wert@));
    args
}

/// Ein erfolgreicher Prozess ergibt keine Fehlermeldung. Ein fehlgeschlagener nennt das
/// Programm und seinen Exit-Code, der gelesen genau den Code ergibt (-1, wenn keiner vorliegt);
/// ein gescheiterter Start oder Task trägt die Meldung des Systems unverändert am Ende.
pub proof fn gesetz_fehlermeldung(exit_name: Seq<char>, start_name: Seq<char>, a: Ausfuehrung)
    ensures
        match a {
            Ausfuehrung::Beendet(s) => if s.erfolg {
                fehlermeldung_spec(exit_name, start_name, a) is None
            } else {
                fehlermeldung_spec(exit_name, start_name, a) matches Some(m) && {
                    let praefix = exit_name + " fehlgeschlagen mit Exit-Code: "@;
                    let code = m.subrange(praefix.len() as int, m.len() as int);
                    &&& m.subrange(0, praefix.len() as int) == praefix
                    &&& (s.code matches Some(c) && c >= 0) ==> dezimal_wert(code) == s.code->0
                    &&& !(s.code matches Some(c) && c >= 0) ==> code[0] == '-'
                        && dezimal_wert(code.drop_first()) == -code_oder_minus_eins(s.code)
                }
            },
            Ausfuehrung::StartFehler(e) => fehlermeldung_spec(exit_name, start_name, a) matches Some(m)
                && m.subrange(0, start_name.len() as int) == start_name
                && m.subrange(m.len() - e@.len(), m.len() as int) == e@,
            Ausfuehrung::TaskFehler(e) => fehlermeldung_spec(exit_name, start_name, a) matches Some(m)
                && m.subrange(m.len() - e@.len(), m.len() as int) == e@,
        },
{
    match a {
        Ausfuehrung::Beendet(s) => {
            if !s.erfolg {
                let z = code_oder_minus_eins(s.code);
                gesetz_dezimal_vorzeichen_wird_gelesen(z);
                let praefix = exit_name + " fehlgeschlagen mit Exit-Code: "@;
                let m = fehlermeldung_spec(exit_name, start_name, a)->0;
                assert(m.subrange(0, praefix.len() as int) =~= praefix);
                assert(m.subrange(praefix.len() as int, m.len() as int) =~= dezimal_vorzeichen(z));
            }
        },
        Ausfuehrung::StartFehler(e) => {
            let m = fehlermeldung_spec(exit_name, start_name, a)->0;
            assert(m.subrange(0, start_name.len() as int) =~= start_name);
            assert(m.subrange(m.len() - e@.len(), m.len() as int) =~= e@);
        },
        Ausfuehrung::TaskFehler(e) => {
            let m = fehlermeldung_spec(exit_name, start_name, a)->0;
            assert(m.subrange(m.len() - e@.len(), m.len() as int) =~= e@);
        },
    }
}

/// Zuerst wird `qdbus-qt6` gestartet, als Rückfall `qdbus`; die beiden Namen sind verschieden.
pub proof fn gesetz_qdbus_namen()
    ensures
        qdbus_name_spec(QdbusProgramm::Qt6) == "qdbus-qt6"@,
        qdbus_name_spec(QdbusProgramm::Klassisch) == "qdbus"@,
        qdbus_name_spec(QdbusProgramm::Qt6) != qdbus_name_spec(QdbusProgramm::Klassisch),
{
    reveal_strlit("qdbus-qt6");
    reveal_strlit("qdbus");
    assert("qdbus-qt6"@.len() != "qdbus"@.len());
}

/// Ein qdbus-Aufruf ist genau dann erfolgreich, wenn der gestartete Prozess erfolgreich endete,
/// und liefert dann dessen Exit-Status.
pub proof fn gesetz_qdbus_ergebnis(programm: QdbusProgramm, a: Ausfuehrung)
    ensures
        (qdbus_ergebnis_spec(programm, a) is Ok) == (a matches Ausfuehrung::Beendet(s) && s.erfolg),
        qdbus_ergebnis_spec(programm, a) matches Ok(s) ==> a == Ausfuehrung::Beendet(s),
{
}

} // verus!
