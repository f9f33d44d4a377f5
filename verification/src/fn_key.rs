//! Funktionstaste: gesperrte oder normale Fn-Taste über die Moduloption `fnlock_default`.
use vstd::prelude::*;
use vstd::string::*;
use crate::prozess::{fehlermeldung, fehlermeldung_spec, Ausfuehrung};
use crate::text::{enthaelt, kommt_vor};

verus! {

/// Die Konfigurationsdatei, in der die Option des Moduls `asus_wmi` steht.
pub const MODPROBE_PFAD: &'static str = "/etc/modprobe.d/asus_wmi.conf";

/// Ob die Fn-Taste gesperrt ist.
pub struct FnKeyModel {
    gesperrt: bool,
}

impl View for FnKeyModel {
    type V = bool;

    closed spec fn view(&self) -> bool {
        self.gesperrt
    }
}

/// Eine Auswahl durch den Benutzer.
#[derive(Clone, Copy, Debug, PartialEq, Eq, Structural)]
pub enum FnKeyMsg {
    GesperrtUmschalten(bool),
}

/// Die Rückmeldung eines Hintergrundbefehls.
#[derive(Debug, PartialEq, Eq)]
pub enum FnKeyCommandOutput {
    /// Der beim Start aus der Konfigurationsdatei gelesene Wert.
    InitWert(bool),
    /// Der Wert wurde in die Konfigurationsdatei geschrieben.
    Gesetzt(bool),
    Fehler(String),
}

/// Der Auftrag, eine neue Einstellung dauerhaft zu speichern: in der Anwendungskonfiguration
/// und, über `pkexec`, in der Konfigurationsdatei des Moduls.
#[derive(Debug, PartialEq, Eq)]
pub struct FnKeySchreibauftrag {
    pub gesperrt: bool,
    /// Die Argumente für `pkexec`.
    pub pkexec_args: Vec<String>,
}

/// Eines der beiden Auswahlfelder.
#[derive(Clone, Copy, Debug, PartialEq, Eq, Structural)]
pub enum FnKeyKnopf {
    Gesperrt,
    Normal,
}

/// Was auf eine Rückmeldung hin zu tun ist.
#[derive(Debug, PartialEq, Eq)]
pub enum FnKeyReaktion {
    /// Dieses Auswahlfeld aktivieren.
    KnopfAktivieren(FnKeyKnopf),
    /// Diese Zeile ins Fehlerprotokoll schreiben.
    Protokoll(String),
}

/// Die Ziffer der Moduloption: 1 für gesperrt, 0 für normal.
pub open spec fn fnlock_ziffer(gesperrt: bool) -> Seq<char> {
    if gesperrt { "1"@ } else { "0"@ }
}

/// Die Zeile, die in die Konfigurationsdatei geschrieben wird.
pub open spec fn modprobe_zeile(gesperrt: bool) -> Seq<char> {
    "options asus_wmi fnlock_default="@ + fnlock_ziffer(gesperrt)
}

/// Der Shell-Befehl, der die Zeile in die Konfigurationsdatei schreibt.
pub open spec fn shell_befehl(gesperrt: bool) -> Seq<char> {
    "echo '"@ + modprobe_zeile(gesperrt) + "' > "@ + MODPROBE_PFAD@
}

/// Die Argumente für `pkexec`: die Shell mit dem Schreibbefehl.
pub open spec fn pkexec_args_spec(gesperrt: bool) -> Seq<Seq<char>> {
    seq!["sh"@, "-c"@, shell_befehl(gesperrt)]
}

/// Woran die gesperrte Fn-Taste in der Konfigurationsdatei erkannt wird.
pub open spec fn fnlock_muster() -> Seq<char> {
    "fnlock_default=1"@
}

/// Der beim Start gelesene Wert: gesperrt genau dann, wenn die Datei lesbar ist und
/// `fnlock_default=1` enthält.
pub open spec fn init_wert_spec(inhalt: Option<Seq<char>>) -> bool {
    match inhalt {
        Some(s) => kommt_vor(s, fnlock_muster()),
        None => false,
    }
}

/// Die Sicht eines Schreibauftrags.
pub open spec fn auftrag_sicht(a: Option<FnKeySchreibauftrag>) -> Option<(bool, Seq<Seq<char>>)> {
    match a {
        Some(a) => Some((a.gesperrt, a.pkexec_args.deep_view())),
        None => None,
    }
}

/// Folgezustand und Auftrag nach einer Auswahl: nichts, wenn sie dem Zustand entspricht.
pub open spec fn fnkey_update_spec(gesperrt: bool, msg: FnKeyMsg) -> (bool, Option<(bool, Seq<Seq<char>>)>) {
    match msg {
        FnKeyMsg::GesperrtUmschalten(g) => if g == gesperrt {
            (gesperrt, None)
        } else {
            (g, Some((g, pkexec_args_spec(g))))
        },
    }
}

/// Folgezustand nach einer Rückmeldung: nur der gelesene Anfangswert ändert ihn.
pub open spec fn fnkey_update_cmd_zustand(gesperrt: bool, msg: FnKeyCommandOutput) -> bool {
    match msg {
        FnKeyCommandOutput::InitWert(g) => g,
        _ => gesperrt,
    }
}

/// Die Reaktion auf eine Rückmeldung.
pub open spec fn fnkey_reaktion_entspricht(r: FnKeyReaktion, msg: FnKeyCommandOutput) -> bool {
    match msg {
        FnKeyCommandOutput::InitWert(g) => r == FnKeyReaktion::KnopfAktivieren(
            if g { FnKeyKnopf::Gesperrt } else { FnKeyKnopf::Normal },
        ),
        FnKeyCommandOutput::Gesetzt(g) => r matches FnKeyReaktion::Protokoll(z)
            && z@ == "asus_wmi fnlock_default="@ + fnlock_ziffer(g) + " geschrieben (wirksam nach Neustart)"@,
        FnKeyCommandOutput::Fehler(e) => r matches FnKeyReaktion::Protokoll(z)
            && z@ == "Fehler (FnKey): "@ + e@,
    }
}

fn pkexec_args(gesperrt: bool) -> (args: Vec<String>)
    ensures
        args.deep_view() == pkexec_args_spec(gesperrt),
{
    let mut befehl = String::from_str("echo '");
    befehl.append("options asus_wmi fnlock_default=");
    befehl.append(if gesperrt { "1" } else { "0" });
    befehl.append("' > ");
    befehl.append(MODPROBE_PFAD);
    assert(befehl@ == shell_befehl(gesperrt));
    let mut args: Vec<String> = Vec::new();
    args.push(String::from_str("sh"));
    args.push(String::from_str("-c"));
    args.push(befehl);
    assert(args.deep_view() =~= pkexec_args_spec(gesperrt));
    args
}

impl FnKeyModel {
    /// Der Anfangszustand: normale Fn-Taste, bis der gelesene Wert eintrifft.
    pub fn init() -> (m: FnKeyModel)
        ensures
            m@ == false,
    {
        FnKeyModel { gesperrt: false }
    }

    /// Ob die Fn-Taste gesperrt ist.
    pub fn gesperrt(&self) -> (g: bool)
        ensures
            g == self@,
    {
        self.gesperrt
    }

    /// Verarbeitet eine Auswahl: übernimmt sie und liefert den Auftrag, sie zu speichern.
    pub fn update(&mut self, msg: FnKeyMsg) -> (auftrag: Option<FnKeySchreibauftrag>)
        ensures
            (final(self)@, auftrag_sicht(auftrag)) == fnkey_update_spec(old(self)@, msg),
    {
        match msg {
            FnKeyMsg::GesperrtUmschalten(gesperrt) => {
                if gesperrt == self.gesperrt {
                    return None;
                }
                self.gesperrt = gesperrt;
                Some(FnKeySchreibauftrag { gesperrt, pkexec_args: pkexec_args(gesperrt) })
            },
        }
    }

    /// Verarbeitet eine Rückmeldung: ein gelesener Anfangswert wird übernommen und sein
    /// Auswahlfeld aktiviert; alles andere wird protokolliert.
    pub fn update_cmd(&mut self, msg: FnKeyCommandOutput) -> (r: FnKeyReaktion)
        ensures
            final(self)@ == fnkey_update_cmd_zustand(old(self)@, msg),
            fnkey_reaktion_entspricht(r, msg),
    {
        match msg {
            FnKeyCommandOutput::InitWert(gesperrt) => {
                self.gesperrt = gesperrt;
                if gesperrt {
                    FnKeyReaktion::KnopfAktivieren(FnKeyKnopf::Gesperrt)
                } else {
                    FnKeyReaktion::KnopfAktivieren(FnKeyKnopf::Normal)
                }
            },
            FnKeyCommandOutput::Gesetzt(gesperrt) => {
                let mut s = String::from_str("asus_wmi fnlock_default=");
                s.append(if gesperrt { "1" } else { "0" });
                s.append(" geschrieben (wirksam nach Neustart)");
                FnKeyReaktion::Protokoll(s)
            },
            FnKeyCommandOutput::Fehler(e) => {
                let mut s = String::from_str("Fehler (FnKey): ");
                s.append(e.as_str());
                FnKeyReaktion::Protokoll(s)
            },
        }
    }
}

/// Der beim Start gelesene Wert: `inhalt` ist der Inhalt der Konfigurationsdatei,
/// `None`, wenn sie sich nicht lesen ließ (dann gilt die normale Fn-Taste).
pub fn fnlock_init_wert(inhalt: Option<String>) -> (out: FnKeyCommandOutput)
    ensures
        out == FnKeyCommandOutput::InitWert(init_wert_spec(match inhalt {
            Some(s) => Some(s@),
            None => None,
        })),
{
    match inhalt {
        Some(s) => FnKeyCommandOutput::InitWert(enthaelt(s.as_str(), "fnlock_default=1")),
        None => FnKeyCommandOutput::InitWert(false),
    }
}

/// Die Rückmeldung nach dem `pkexec`-Aufruf, der die Einstellung schreibt.
pub fn fnkey_schreib_ausgabe(gesperrt: bool, a: &Ausfuehrung) -> (out: FnKeyCommandOutput)
    ensures
        match fehlermeldung_spec("pkexec"@, "pkexec"@, *a) {
            None => out == FnKeyCommandOutput::Gesetzt(gesperrt),
            Some(m) => out matches FnKeyCommandOutput::Fehler(e) && e@ == m,
        },
{
    match fehlermeldung("pkexec", "pkexec", a) {
        None => FnKeyCommandOutput::Gesetzt(gesperrt),
        Some(m) => FnKeyCommandOutput::Fehler(m),
    }
}

/// Nachdem der gelesene Anfangswert übernommen ist, bewirkt die Auswahl desselben Werts,
/// die das Aktivieren seines Auswahlfelds auslöst, nichts: es wird nichts geschrieben.
pub proof fn gesetz_init_wert_ohne_schreiben(gesperrt: bool, g: bool)
    ensures
        fnkey_update_spec(
            fnkey_update_cmd_zustand(gesperrt, FnKeyCommandOutput::InitWert(g)),
            FnKeyMsg::GesperrtUmschalten(g),
        ) == (g, None::<(bool, Seq<Seq<char>>)>),
{
}

/// Der Schreibbefehl legt die Zeile mit einem Zeilenende (von `echo`) in der Datei ab;
/// wird diese Datei beim nächsten Start gelesen, ergibt sich genau der geschriebene Wert.
pub proof fn gesetz_geschriebener_wert_wird_gelesen(g: bool)
    ensures
        init_wert_spec(Some(modprobe_zeile(g) + "\n"@)) == g,
        !init_wert_spec(None),
        !init_wert_spec(Some(Seq::<char>::empty())),
{
    reveal_strlit("options asus_wmi fnlock_default=");
    reveal_strlit("1");
    reveal_strlit("0");
    reveal_strlit("\n");
    reveal_strlit("fnlock_default=1");
    let text = modprobe_zeile(g) + "\n"@;
    let muster = fnlock_muster();
    assert(muster.len() == 16);
    assert(text.len() == 34);
    if g {
        assert(text.subrange(17, 17 + muster.len() as int) =~= muster);
    } else {
        assert forall|i: int| 0 <= i < text.len() implies text[i] != '1' by {
            assert(text =~= seq!['o', 'p', 't', 'i', 'o', 'n', 's', ' ', 'a', 's', 'u', 's', '_', 'w', 'm', 'i', ' ',
                'f', 'n', 'l', 'o', 'c', 'k', '_', 'd', 'e', 'f', 'a', 'u', 'l', 't', '=', '0', '\n']);
        }
        assert forall|i: int| 0 <= i && i + muster.len() <= text.len() implies
            #[trigger] text.subrange(i, i + muster.len()) != muster by {
            assert(text.subrange(i, i + muster.len())[15] == text[i + 15]);
            assert(muster[15] == '1');
        }
    }
}

/// Eine Auswahl wird übernommen: danach gilt der gewählte Wert. Geschrieben wird genau dann,
/// wenn er sich ändert, und dann genau der gewählte Wert.
pub proof fn gesetz_auswahl_wird_uebernommen(gesperrt: bool, g: bool)
    ensures
        fnkey_update_spec(gesperrt, FnKeyMsg::GesperrtUmschalten(g)).0 == g,
        (fnkey_update_spec(gesperrt, FnKeyMsg::GesperrtUmschalten(g)).1 is Some) == (g != gesperrt),
        fnkey_update_spec(gesperrt, FnKeyMsg::GesperrtUmschalten(g)).1 matches Some(auftrag)
            ==> auftrag.0 == g && auftrag.1 == pkexec_args_spec(g),
{
}

/// Geschrieben wird mit `pkexec sh -c` und einem `echo`, das die Zeile
/// `options asus_wmi fnlock_default=<Ziffer>` nach `/etc/modprobe.d/asus_wmi.conf` leitet,
/// für beide Werte gleich; nur die Ziffer unterscheidet sich: 1 für gesperrt, 0 für normal.
pub proof fn gesetz_pkexec_args(gesperrt: bool)
    ensures
        pkexec_args_spec(gesperrt).len() == 3,
        pkexec_args_spec(gesperrt)[0] == "sh"@,
        pkexec_args_spec(gesperrt)[1] == "-c"@,
        pkexec_args_spec(gesperrt)[2] == "echo 'options asus_wmi fnlock_default="@
            + (if gesperrt { "1"@ } else { "0"@ }) + "' > /etc/modprobe.d/asus_wmi.conf"@,
        pkexec_args_spec(true)[2] != pkexec_args_spec(false)[2],
{
    reveal_strlit("echo '");
    reveal_strlit("options asus_wmi fnlock_default=");
    reveal_strlit("echo 'options asus_wmi fnlock_default=");
    reveal_strlit("' > ");
    reveal_strlit("/etc/modprobe.d/asus_wmi.conf");
    reveal_strlit("' > /etc/modprobe.d/asus_wmi.conf");
    reveal_strlit("1");
    reveal_strlit("0");
    assert("echo '"@ + "options asus_wmi fnlock_default="@ =~= "echo 'options asus_wmi fnlock_default="@);
    assert("' > "@ + "/etc/modprobe.d/asus_wmi.conf"@ =~= "' > /etc/modprobe.d/asus_wmi.conf"@);
    assert(pkexec_args_spec(gesperrt)[2] =~= "echo 'options asus_wmi fnlock_default="@
        + (if gesperrt { "1"@ } else { "0"@ }) + "' > /etc/modprobe.d/asus_wmi.conf"@);
    assert(pkexec_args_spec(true)[2][38] != pkexec_args_spec(false)[2][38]);
}

/// Auf den gelesenen Anfangswert hin wird genau das Auswahlfeld des nun gespeicherten Werts
/// aktiviert; die Meldung nach dem Schreiben nennt dieselbe Ziffer, die der Schreibbefehl
/// in die Datei legt; eine Fehlermeldung steht unverändert hinter "Fehler (FnKey): ".
pub proof fn gesetz_fnkey_reaktionen(gesperrt: bool, g: bool, r: FnKeyReaktion, e: String)
    ensures
        fnkey_reaktion_entspricht(r, FnKeyCommandOutput::InitWert(g)) ==> (r matches FnKeyReaktion::KnopfAktivieren(k)
            && (k == FnKeyKnopf::Gesperrt) == fnkey_update_cmd_zustand(gesperrt, FnKeyCommandOutput::InitWert(g))
            && (k == FnKeyKnopf::Gesperrt) == g),
        fnkey_reaktion_entspricht(r, FnKeyCommandOutput::Gesetzt(g)) ==> (r matches FnKeyReaktion::Protokoll(z)
            && z@.subrange(0, 24) == "asus_wmi fnlock_default="@
            && z@[24] == pkexec_args_spec(g)[2][38]
            && z@[24] == (if g { '1' } else { '0' })),
        fnkey_reaktion_entspricht(r, FnKeyCommandOutput::Fehler(e)) ==> (r matches FnKeyReaktion::Protokoll(z)
            && z@.subrange(z@.len() - e@.len(), z@.len() as int) == e@),
{
    gesetz_pkexec_args(g);
    reveal_strlit("asus_wmi fnlock_default=");
    reveal_strlit("echo 'options asus_wmi fnlock_default=");
    reveal_strlit("1");
    reveal_strlit("0");
    if fnkey_reaktion_entspricht(r, FnKeyCommandOutput::Gesetzt(g)) {
        let z = r->Protokoll_0;
        assert(z@.subrange(0, 24) =~= "asus_wmi fnlock_default="@);
        assert(z@[24] == fnlock_ziffer(g)[0]);
    }
    if fnkey_reaktion_entspricht(r, FnKeyCommandOutput::Fehler(e)) {
        let z = r->Protokoll_0;
        assert(z@.subrange(z@.len() - e@.len(), z@.len() as int) =~= e@);
    }
}

} // verus!
