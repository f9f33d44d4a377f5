//! Zeichenketten-Bausteine: Dezimaldarstellung von Zahlen und Teilzeichenkettensuche.
use vstd::prelude::*;
use vstd::std_specs::iter::IteratorSpec;
use vstd::string::*;

verus! {

/// Das Dezimalzeichen für eine Ziffer `d < 10`.
pub open spec fn ziffer_zeichen(d: nat) -> char {
    if d == 0 { '0' }
    else if d == 1 { '1' }
    else if d == 2 { '2' }
    else if d == 3 { '3' }
    else if d == 4 { '4' }
    else if d == 5 { '5' }
    else if d == 6 { '6' }
    else if d == 7 { '7' }
    else if d == 8 { '8' }
    else { '9' }
}

/// Die Dezimalziffern einer natürlichen Zahl, ohne führende Nullen ("0" für null).
pub open spec fn dezimal(n: nat) -> Seq<char>
    decreases n,
{
    if n < 10 {
        seq![ziffer_zeichen(n)]
    } else {
        dezimal(n / 10).push(ziffer_zeichen(n % 10))
    }
}

/// Die Dezimaldarstellung einer ganzen Zahl, mit `-` vor negativen Werten.
pub open spec fn dezimal_vorzeichen(z: int) -> Seq<char> {
    if z < 0 {
        seq!['-'] + dezimal((-z) as nat)
    } else {
        dezimal(z as nat)
    }
}

fn ziffer_anhaengen(s: &mut String, d: u64)
    requires
        d < 10,
    ensures
        final(s)@ == old(s)@.push(ziffer_zeichen(d as nat)),
{
    let t: &str = if d == 0 {
        "0"
    } else if d == 1 {
        "1"
    } else if d == 2 {
        "2"
    } else if d == 3 {
        "3"
    } else if d == 4 {
        "4"
    } else if d == 5 {
        "5"
    } else if d == 6 {
        "6"
    } else if d == 7 {
        "7"
    } else if d == 8 {
        "8"
    } else {
        "9"
    };
    proof {
        reveal_strlit("0");
        reveal_strlit("1");
        reveal_strlit("2");
        reveal_strlit("3");
        reveal_strlit("4");
        reveal_strlit("5");
        reveal_strlit("6");
        reveal_strlit("7");
        reveal_strlit("8");
        reveal_strlit("9");
        assert(t@ =~= seq![ziffer_zeichen(d as nat)]);
    }
    s.append(t);
}

/// Hängt die Dezimaldarstellung von `n` an `s` an.
pub fn dezimal_anhaengen(s: &mut String, n: u64)
    ensures
        final(s)@ == old(s)@ + dezimal(n as nat),
    decreases n,
{
    if n < 10 {
        ziffer_anhaengen(s, n);
        assert(old(s)@.push(ziffer_zeichen(n as nat)) =~= old(s)@ + dezimal(n as nat));
    } else {
        dezimal_anhaengen(s, n / 10);
        ziffer_anhaengen(s, n % 10);
        assert(old(s)@ + dezimal((n / 10) as nat) + seq![ziffer_zeichen((n % 10) as nat)]
            =~= old(s)@ + dezimal(n as nat));
    }
}

/// Die Dezimaldarstellung einer vorzeichenlosen Zahl, wie `to_string` sie liefert.
pub fn u32_text(n: u32) -> (t: String)
    ensures
        t@ == dezimal(n as nat),
{
    let mut s = String::new();
    dezimal_anhaengen(&mut s, n as u64);
    assert(s@ =~= dezimal(n as nat));
    s
}

/// Die Dezimaldarstellung einer vorzeichenbehafteten Zahl, wie `to_string` sie liefert.
pub fn i32_text(z: i32) -> (t: String)
    ensures
        t@ == dezimal_vorzeichen(z as int),
{
    let mut s = String::new();
    if z < 0 {
        s.append("-");
        proof {
            reveal_strlit("-");
        }
        let betrag: u64 = (0i64 - (z as i64)) as u64;
        dezimal_anhaengen(&mut s, betrag);
        assert(s@ =~= dezimal_vorzeichen(z as int));
    } else {
        dezimal_anhaengen(&mut s, z as u64);
        assert(s@ =~= dezimal_vorzeichen(z as int));
    }
    s
}


/// `nadel` kommt in `heu` als zusammenhängende Zeichenfolge vor.
pub open spec fn kommt_vor(heu: Seq<char>, nadel: Seq<char>) -> bool {
    exists|i: int| 0 <= i && i + nadel.len() <= heu.len() && #[trigger] heu.subrange(i, i + nadel.len()) == nadel
}

fn zeichen_von(s: &str) -> (v: Vec<char>)
    ensures
        v@ == s@,
{
    broadcast use {vstd::string::axiom_spec_iter, vstd::string::next_postcondition};
    let mut it = s.chars();
    let mut v: Vec<char> = Vec::new();
    loop
        invariant
            v@ + it.remaining() == s@,
            it.decrease() is Some,
        ensures
            v@ == s@,
        decreases it.decrease()->0,
    {
        let ghost vorher = it.remaining();
        match it.next() {
            Some(c) => {
                v.push(c);
                assert(v@ + it.remaining() =~= s@) by {
                    assert(vorher =~= seq![c] + vorher.drop_first());
                }
            },
            None => {
                assert(v@ =~= s@);
                break;
            },
        }
    }
    v
}

fn passt_an(heu: &Vec<char>, nadel: &Vec<char>, i: usize) -> (b: bool)
    requires
        i + nadel.len() <= heu.len(),
    ensures
        b == (heu@.subrange(i as int, i + nadel.len()) == nadel@),
{
    let mut j: usize = 0;
    while j < nadel.len()
        invariant
            i + nadel.len() <= heu.len(),
            j <= nadel.len(),
            forall|k: int| 0 <= k < j ==> heu@[i + k] == nadel@[k],
        decreases nadel.len() - j,
    {
        if heu[i + j] != nadel[j] {
            assert(heu@.subrange(i as int, i + nadel.len())[j as int] != nadel@[j as int]);
            return false;
        }
        j = j + 1;
    }
    assert(heu@.subrange(i as int, i + nadel.len()) =~= nadel@);
    true
}

/// Ob `nadel` in `heu` vorkommt, wie `str::contains` mit einem `&str` als Muster.
pub fn enthaelt(heu: &str, nadel: &str) -> (b: bool)
    ensures
        b == kommt_vor(heu@, nadel@),
{
    let h = zeichen_von(heu);
    let n = zeichen_von(nadel);
    if n.len() > h.len() {
        return false;
    }
    let ende: usize = h.len() - n.len();
    let mut i: usize = 0;
    while i < ende
        invariant
            h@ == heu@,
            n@ == nadel@,
            ende + n.len() == h.len(),
            i <= ende,
            forall|k: int| 0 <= k < i ==> #[trigger] heu@.subrange(k, k + nadel@.len()) != nadel@,
        decreases ende - i,
    {
        if passt_an(&h, &n, i) {
            return true;
        }
        i = i + 1;
    }
    if passt_an(&h, &n, ende) {
        return true;
    }
    assert forall|k: int| 0 <= k && k + nadel@.len() <= heu@.len() implies
        #[trigger] heu@.subrange(k, k + nadel@.len()) != nadel@ by {
        assert(k <= ende);
    }
    false
}

/// Der Wert eines Dezimalzeichens.
pub open spec fn ziffer_wert(c: char) -> int {
    if c == '0' { 0 }
    else if c == '1' { 1 }
    else if c == '2' { 2 }
    else if c == '3' { 3 }
    else if c == '4' { 4 }
    else if c == '5' { 5 }
    else if c == '6' { 6 }
    else if c == '7' { 7 }
    else if c == '8' { 8 }
    else { 9 }
}

/// Ob ein Zeichen eine Dezimalziffer ist.
pub open spec fn ist_ziffer(c: char) -> bool {
    '0' <= c && c <= '9'
}

/// Der Zahlwert einer Folge von Dezimalziffern, höchstwertige zuerst.
pub open spec fn dezimal_wert(s: Seq<char>) -> int
    decreases s.len(),
{
    if s.len() == 0 {
        0
    } else {
        10 * dezimal_wert(s.drop_last()) + ziffer_wert(s.last())
    }
}

proof fn lemma_ziffer_wert(d: nat)
    requires
        d < 10,
    ensures
        ziffer_wert(ziffer_zeichen(d)) == d,
        ist_ziffer(ziffer_zeichen(d)),
        d != 0 ==> ziffer_zeichen(d) != '0',
{
}

/// Die Dezimaldarstellung ist eine nichtleere Ziffernfolge ohne führende Null (außer für
/// null selbst), und ihr Zahlwert ist wieder die Zahl: wer sie liest, erhält `n` zurück.
pub proof fn gesetz_dezimal_wird_gelesen(n: nat)
    ensures
        dezimal_wert(dezimal(n)) == n,
        dezimal(n).len() >= 1,
        forall|i: int| 0 <= i < dezimal(n).len() ==> ist_ziffer(#[trigger] dezimal(n)[i]),
        n > 0 ==> dezimal(n)[0] != '0',
    decreases n,
{
    lemma_ziffer_wert(n % 10);
    if n < 10 {
        lemma_ziffer_wert(n);
        assert(dezimal(n).drop_last() =~= Seq::<char>::empty());
        assert(dezimal(n).last() == ziffer_zeichen(n));
        assert(dezimal_wert(dezimal(n)) == 10 * dezimal_wert(Seq::<char>::empty()) + ziffer_wert(ziffer_zeichen(n)));
    } else {
        let vorne = dezimal(n / 10);
        gesetz_dezimal_wird_gelesen(n / 10);
        assert(dezimal(n).drop_last() =~= vorne);
        assert(dezimal(n)[0] == vorne[0]);
        assert forall|i: int| 0 <= i < dezimal(n).len() implies ist_ziffer(#[trigger] dezimal(n)[i]) by {
            if i < vorne.len() {
                assert(dezimal(n)[i] == vorne[i]);
            }
        }
        assert(dezimal(n).last() == ziffer_zeichen(n % 10));
        assert(dezimal_wert(dezimal(n)) == 10 * dezimal_wert(vorne) + ziffer_wert(ziffer_zeichen(n % 10)));
        assert(n == 10 * (n / 10) + n % 10);
    }
}

/// Verschiedene Zahlen haben verschiedene Dezimaldarstellungen.
pub proof fn gesetz_dezimal_eindeutig(a: nat, b: nat)
    ensures
        (dezimal(a) == dezimal(b)) == (a == b),
{
    gesetz_dezimal_wird_gelesen(a);
    gesetz_dezimal_wird_gelesen(b);
}

/// Die vorzeichenbehaftete Darstellung beginnt genau bei negativen Zahlen mit `-`; der Rest
/// ist die Darstellung des Betrags.
pub proof fn gesetz_dezimal_vorzeichen_wird_gelesen(z: int)
    ensures
        z < 0 ==> dezimal_vorzeichen(z)[0] == '-' && dezimal_wert(dezimal_vorzeichen(z).drop_first()) == -z,
        z >= 0 ==> dezimal_wert(dezimal_vorzeichen(z)) == z && ist_ziffer(dezimal_vorzeichen(z)[0]),
{
    if z < 0 {
        gesetz_dezimal_wird_gelesen((-z) as nat);
        assert(dezimal_vorzeichen(z).drop_first() =~= dezimal((-z) as nat));
    } else {
        gesetz_dezimal_wird_gelesen(z as nat);
    }
}

} // verus!
