//! Rendering of a playback time as `HH:MM:SS`.
use crate::text::{digits_value, is_digit};
use vstd::prelude::*;

verus! {

/// The character of a single decimal digit.
pub open spec fn digit_char(d: nat) -> char
    recommends
        d < 10,
{
    if d == 0 { '0' }
    else if d == 1 { '1' }
    else if d == 2 { '2' }
    else if d == 3 { '3' }
    else if d == 4 { '4' }
    else if d == 5 { '5' }
    else if d == 6 { '6' }
    else if d == 7 { '7' }
    else if d == 8 { '8' }
    else { '9' }
}

/// The decimal digits of `n`, most significant first, without leading zeros.
pub open spec fn decimal(n: nat) -> Seq<char>
    decreases n,
{
    if n < 10 {
        seq![digit_char(n)]
    } else {
        decimal(n / 10).push(digit_char(n % 10))
    }
}

/// `n` in decimal, padded with zeros to at least two characters.
pub open spec fn two_digits(n: nat) -> Seq<char> {
    if n < 10 {
        seq!['0', digit_char(n)]
    } else {
        decimal(n)
    }
}

/// The text `HH:MM:SS` for a count of seconds: hours, then the minutes and
/// seconds within the hour, each at least two digits wide.
pub open spec fn time_text(seconds: nat) -> Seq<char> {
    two_digits(seconds / 3600) + seq![':'] + two_digits((seconds % 3600) / 60) + seq![':']
        + two_digits(seconds % 60)
}


proof fn lemma_digit_char_injective(a: nat, b: nat)
    requires
        a < 10,
        b < 10,
        digit_char(a) == digit_char(b),
    ensures
        a == b,
{
}

proof fn lemma_decimal_shape(n: nat)
    ensures
        decimal(n).len() >= 1,
        n >= 10 ==> decimal(n).len() >= 2,
        n < 10 ==> decimal(n).len() == 1,
        n >= 1 ==> decimal(n)[0] != '0',
    decreases n,
{
    if n >= 10 {
        lemma_decimal_shape(n / 10);
    }
}

proof fn lemma_decimal_injective(a: nat, b: nat)
    requires
        decimal(a) == decimal(b),
    ensures
        a == b,
    decreases a,
{
    lemma_decimal_shape(a);
    lemma_decimal_shape(b);
    if a < 10 && b < 10 {
        assert(decimal(a)[0] == decimal(b)[0]);
        lemma_digit_char_injective(a, b);
    } else if a >= 10 && b >= 10 {
        let da = decimal(a);
        let db = decimal(b);
        assert(da.last() == db.last());
        lemma_digit_char_injective(a % 10, b % 10);
        assert(da.drop_last() =~= decimal(a / 10));
        assert(db.drop_last() =~= decimal(b / 10));
        lemma_decimal_injective(a / 10, b / 10);
    }
}

proof fn lemma_two_digits_width(n: nat)
    requires
        n < 100,
    ensures
        two_digits(n).len() == 2,
{
    if n >= 10 {
        lemma_decimal_shape(n / 10);
    }
}

proof fn lemma_two_digits_injective(a: nat, b: nat)
    requires
        two_digits(a) == two_digits(b),
    ensures
        a == b,
{
    lemma_decimal_shape(a);
    lemma_decimal_shape(b);
    if a < 10 && b < 10 {
        assert(two_digits(a)[1] == two_digits(b)[1]);
        lemma_digit_char_injective(a, b);
    } else if a >= 10 && b >= 10 {
        lemma_decimal_injective(a, b);
    } else if a < 10 {
        assert(two_digits(a)[0] == two_digits(b)[0]);
    } else {
        assert(two_digits(a)[0] == two_digits(b)[0]);
    }
}

/// Distinct playback times render to distinct texts: the rendering loses
/// nothing of the time it shows.
pub proof fn law_time_text_injective(a: nat, b: nat)
    requires
        time_text(a) == time_text(b),
    ensures
        a == b,
{
    let (ha, ma, sa) = (two_digits(a / 3600), two_digits((a % 3600) / 60), two_digits(a % 60));
    let (hb, mb, sb) = (two_digits(b / 3600), two_digits((b % 3600) / 60), two_digits(b % 60));
    lemma_two_digits_width((a % 3600) / 60);
    lemma_two_digits_width(a % 60);
    lemma_two_digits_width((b % 3600) / 60);
    lemma_two_digits_width(b % 60);
    let t = time_text(a);
    assert(t =~= ha + seq![':'] + ma + seq![':'] + sa);
    assert(t =~= hb + seq![':'] + mb + seq![':'] + sb);
    assert(t.len() == ha.len() + 6);
    assert(t.len() == hb.len() + 6);
    let k = ha.len() as int;
    assert(ha =~= t.subrange(0, k));
    assert(hb =~= t.subrange(0, k));
    assert(ma =~= t.subrange(k + 1, k + 3));
    assert(mb =~= t.subrange(k + 1, k + 3));
    assert(sa =~= t.subrange(k + 4, k + 6));
    assert(sb =~= t.subrange(k + 4, k + 6));
    lemma_two_digits_injective(a / 3600, b / 3600);
    lemma_two_digits_injective((a % 3600) / 60, (b % 3600) / 60);
    lemma_two_digits_injective(a % 60, b % 60);
    assert(a == (a / 3600) * 3600 + ((a % 3600) / 60) * 60 + a % 60);
    assert(b == (b / 3600) * 3600 + ((b % 3600) / 60) * 60 + b % 60);
}

proof fn lemma_digit_char_value(d: nat)
    requires
        d < 10,
    ensures
        is_digit(digit_char(d)),
        (digit_char(d) as nat) - ('0' as nat) == d,
{
}

proof fn lemma_digit_char_increasing(a: nat, b: nat)
    requires
        a < b < 10,
    ensures
        digit_char(a) < digit_char(b),
{
}

proof fn lemma_decimal_digits(n: nat)
    ensures
        forall|i: int| 0 <= i < decimal(n).len() ==> is_digit(#[trigger] decimal(n)[i]),
        digits_value(decimal(n)) == n,
    decreases n,
{
    lemma_digit_char_value(n % 10);
    if n >= 10 {
        lemma_decimal_digits(n / 10);
        let d = decimal(n);
        assert(d.drop_last() =~= decimal(n / 10));
        assert(d.last() == digit_char(n % 10));
        assert(digits_value(d) == digits_value(d.drop_last()) * 10 + ((d.last() as nat) - (
        '0' as nat)) as nat);
        assert(n == (n / 10) * 10 + n % 10);
        assert forall|i: int| 0 <= i < d.len() implies is_digit(#[trigger] d[i]) by {
            if i < d.len() - 1 {
                assert(d[i] == decimal(n / 10)[i]);
            }
        }
    } else {
        let d = decimal(n);
        assert(d.drop_last() =~= Seq::<char>::empty());
        assert(digits_value(d.drop_last()) == 0);
        assert(digits_value(d) == digits_value(d.drop_last()) * 10 + ((d.last() as nat) - (
        '0' as nat)) as nat);
    }
}

proof fn lemma_two_digits_digits(n: nat)
    ensures
        forall|i: int| 0 <= i < two_digits(n).len() ==> is_digit(#[trigger] two_digits(n)[i]),
        digits_value(two_digits(n)) == n,
        two_digits(n).len() >= 2,
{
    lemma_decimal_digits(n);
    lemma_decimal_shape(n);
    if n < 10 {
        lemma_digit_char_value(n);
        lemma_digit_char_value(0);
        let t = two_digits(n);
        let z = seq!['0'];
        assert(t.drop_last() =~= z);
        assert(z.drop_last() =~= Seq::<char>::empty());
        assert(digits_value(z.drop_last()) == 0);
        assert(digits_value(z) == digits_value(z.drop_last()) * 10 + ((z.last() as nat) - (
        '0' as nat)) as nat);
        assert(digits_value(t) == digits_value(t.drop_last()) * 10 + ((t.last() as nat) - (
        '0' as nat)) as nat);
    }
}

proof fn lemma_two_digits_below_hundred(n: nat)
    requires
        n < 100,
    ensures
        two_digits(n) == seq![digit_char(n / 10), digit_char(n % 10)],
{
    if n >= 10 {
        assert(decimal(n / 10) == seq![digit_char(n / 10)]);
        assert(decimal(n) =~= seq![digit_char(n / 10), digit_char(n % 10)]);
    }
}

/// The shape of the text of a time: the hours in at least two digits, a
/// colon, the minutes within the hour in two digits, a colon, and the
/// seconds within the minute in two digits; digits everywhere else, so there
/// are exactly two colons; and the three fields, read as numbers, add up to
/// the time.
pub proof fn law_time_text_shape(seconds: nat)
    ensures
        ({
            let t = time_text(seconds);
            let h = two_digits(seconds / 3600);
            let m = two_digits((seconds % 3600) / 60);
            let s = two_digits(seconds % 60);
            let k = h.len() as int;
            &&& t == h + seq![':'] + m + seq![':'] + s
            &&& k >= 2
            &&& m.len() == 2
            &&& s.len() == 2
            &&& t.len() == k + 6
            &&& t[k] == ':'
            &&& t[k + 3] == ':'
            &&& forall|i: int| 0 <= i < t.len() && i != k && i != k + 3 ==> is_digit(#[trigger] t[i])
            &&& digits_value(m) < 60
            &&& digits_value(s) < 60
            &&& digits_value(h) * 3600 + digits_value(m) * 60 + digits_value(s) == seconds
        }),
{
    let t = time_text(seconds);
    let h = two_digits(seconds / 3600);
    let m = two_digits((seconds % 3600) / 60);
    let s = two_digits(seconds % 60);
    lemma_two_digits_digits(seconds / 3600);
    lemma_two_digits_digits((seconds % 3600) / 60);
    lemma_two_digits_digits(seconds % 60);
    lemma_two_digits_width((seconds % 3600) / 60);
    lemma_two_digits_width(seconds % 60);
    let k = h.len() as int;
    assert(t =~= h + seq![':'] + m + seq![':'] + s);
    assert forall|i: int| 0 <= i < t.len() && i != k && i != k + 3 implies is_digit(#[trigger] t[i]) by {
        if i < k {
            assert(t[i] == h[i]);
        } else if i < k + 3 {
            assert(t[i] == m[i - k - 1]);
        } else {
            assert(t[i] == s[i - k - 4]);
        }
    }
    assert(seconds == (seconds / 3600) * 3600 + ((seconds % 3600) / 60) * 60 + seconds % 60);
}

/// Texts are ordered letter by letter: `a` comes no later than `b` where
/// they are equal, where `a` is a beginning of `b`, or where at the first
/// place they differ `a` has the smaller character.
pub open spec fn text_le(a: Seq<char>, b: Seq<char>) -> bool {
    ||| a == b
    ||| (a.len() < b.len() && a == b.take(a.len() as int))
    ||| exists|i: int|
        0 <= i < a.len() && i < b.len() && a.take(i) == b.take(i) && #[trigger] a[i] < b[i]
}

/// Below a hundred hours every time renders to eight characters, and the
/// texts sort as the times do.
pub proof fn law_time_text_sorts(a: nat, b: nat)
    requires
        a <= b < 360000,
    ensures
        time_text(a).len() == 8,
        time_text(b).len() == 8,
        text_le(time_text(a), time_text(b)),
{
    let (ha, ma, sa) = (a / 3600, (a % 3600) / 60, a % 60);
    let (hb, mb, sb) = (b / 3600, (b % 3600) / 60, b % 60);
    lemma_two_digits_below_hundred(ha);
    lemma_two_digits_below_hundred(ma);
    lemma_two_digits_below_hundred(sa);
    lemma_two_digits_below_hundred(hb);
    lemma_two_digits_below_hundred(mb);
    lemma_two_digits_below_hundred(sb);
    let ta = time_text(a);
    let tb = time_text(b);
    let da = seq![ha / 10, ha % 10, 0, ma / 10, ma % 10, 0, sa / 10, sa % 10];
    let db = seq![hb / 10, hb % 10, 0, mb / 10, mb % 10, 0, sb / 10, sb % 10];
    assert(ta =~= seq![
        digit_char(ha / 10), digit_char(ha % 10), ':', digit_char(ma / 10), digit_char(ma % 10),
        ':', digit_char(sa / 10), digit_char(sa % 10),
    ]);
    assert(tb =~= seq![
        digit_char(hb / 10), digit_char(hb % 10), ':', digit_char(mb / 10), digit_char(mb % 10),
        ':', digit_char(sb / 10), digit_char(sb % 10),
    ]);
    assert(a == ha * 3600 + ma * 60 + sa);
    assert(b == hb * 3600 + mb * 60 + sb);
    if a == b {
    } else {
        // the first of the six digits where the times differ
        let i: int = if ha / 10 != hb / 10 {
            0
        } else if ha % 10 != hb % 10 {
            1
        } else if ma / 10 != mb / 10 {
            3
        } else if ma % 10 != mb % 10 {
            4
        } else if sa / 10 != sb / 10 {
            6
        } else {
            7
        };
        assert(ha * 3600 + ma * 60 + sa < hb * 3600 + mb * 60 + sb);
        assert(ha == (ha / 10) * 10 + ha % 10);
        assert(hb == (hb / 10) * 10 + hb % 10);
        assert(ma == (ma / 10) * 10 + ma % 10);
        assert(mb == (mb / 10) * 10 + mb % 10);
        assert(sa == (sa / 10) * 10 + sa % 10);
        assert(sb == (sb / 10) * 10 + sb % 10);
        if i == 0 {
            lemma_digit_char_increasing(ha / 10, hb / 10);
        } else if i == 1 {
            lemma_digit_char_increasing(ha % 10, hb % 10);
        } else if i == 3 {
            lemma_digit_char_increasing(ma / 10, mb / 10);
        } else if i == 4 {
            lemma_digit_char_increasing(ma % 10, mb % 10);
        } else if i == 6 {
            lemma_digit_char_increasing(sa / 10, sb / 10);
        } else {
            lemma_digit_char_increasing(sa % 10, sb % 10);
        }
        assert(ta.take(i) =~= tb.take(i));
        assert(ta[i] < tb[i]);
    }
}

fn digit_str(d: u64) -> (s: &'static str)
    requires
        d < 10,
    ensures
        s@ == seq![digit_char(d as nat)],
{
    proof {
        reveal_strlit("0");
        reveal_strlit("1");
        reveal_strlit("2");
        reveal_strlit("3");
        reveal_strlit("4");
        reveal_strlit("5");
        reveal_strlit("6");
        reveal_strlit("7");
        reveal_strlit("8");
        reveal_strlit("9");
    }
    if d == 0 { "0" }
    else if d == 1 { "1" }
    else if d == 2 { "2" }
    else if d == 3 { "3" }
    else if d == 4 { "4" }
    else if d == 5 { "5" }
    else if d == 6 { "6" }
    else if d == 7 { "7" }
    else if d == 8 { "8" }
    else { "9" }
}

fn push_decimal(out: &mut String, n: u64)
    ensures
        final(out)@ == old(out)@ + decimal(n as nat),
    decreases n,
{
    if n >= 10 {
        push_decimal(out, n / 10);
    }
    out.append(digit_str(n % 10));
}

fn push_two_digits(out: &mut String, n: u64)
    ensures
        final(out)@ == old(out)@ + two_digits(n as nat),
{
    if n < 10 {
        proof { reveal_strlit("0"); }
        out.append("0");
        out.append(digit_str(n));
    } else {
        push_decimal(out, n);
    }
}

/// Renders `seconds` as hours, minutes and seconds, `HH:MM:SS`, each field
/// zero-padded to two digits (the hours grow beyond two digits when needed).
pub fn fmt_time(seconds: u64) -> (text: String)
    ensures
        text@ == time_text(seconds as nat),
{
    let hours = seconds / 3600;
    let minutes = (seconds % 3600) / 60;
    let secs = seconds % 60;
    let mut text = String::new();
    push_two_digits(&mut text, hours);
    proof { reveal_strlit(":"); }
    text.append(":");
    push_two_digits(&mut text, minutes);
    text.append(":");
    push_two_digits(&mut text, secs);
    text
}

} // verus!
