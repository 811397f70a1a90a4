use vstd::prelude::*;

verus! {

/// Relies on `str::ends_with` with a one-character pattern: true exactly when the
/// text is non-empty and its last character is that character.
#[verifier::external_body]
fn ends_with_char(s: &str, c: char) -> (r: bool)
    ensures
        r == (s@.len() > 0 && s@.last() == c),
{
    s.ends_with(c)
}

/// Relies on `<[&str]>::concat`: the two texts one after the other.
#[verifier::external_body]
fn concat(a: &str, b: &str) -> (r: String)
    ensures
        r@ == a@ + b@,
{
    [a, b].concat()
}

pub open spec fn possessive_suffix() -> Seq<char> {
    seq!['\'', 's', ' ', 'v', 'o', 'i', 'c', 'e']
}

pub open spec fn apostrophe_suffix() -> Seq<char> {
    seq!['\'', ' ', 'v', 'o', 'i', 'c', 'e']
}

/// The name of the voice channel created for a user: "<name>'s voice", or
/// "<name>' voice" when the name ends in `s`.
pub open spec fn voice_channel_name_of(username: Seq<char>) -> Seq<char> {
    if username.len() > 0 && username.last() == 's' {
        username + apostrophe_suffix()
    } else {
        username + possessive_suffix()
    }
}

pub fn voice_channel_name(username: &str) -> (r: String)
    ensures
        r@ == voice_channel_name_of(username@),
{
    if ends_with_char(username, 's') {
        let suffix = "' voice";
        proof { reveal_strlit("' voice"); assert(suffix@ =~= apostrophe_suffix()); }
        concat(username, suffix)
    } else {
        let suffix = "'s voice";
        proof { reveal_strlit("'s voice"); assert(suffix@ =~= possessive_suffix()); }
        concat(username, suffix)
    }
}

pub open spec fn digit_char(d: nat) -> char {
    if d == 0 { '0' }
    else if d == 1 { '1' }
    else if d == 2 { '2' }
    else if d == 3 { '3' }
    else if d == 4 { '4' }
    else if d == 5 { '5' }
    else if d == 6 { '6' }
    else if d == 7 { '7' }
    else if d == 8 { '8' }
    else { '9' }
}

/// The decimal digits of a number, most significant first, with no leading zeros.
pub open spec fn decimal(n: nat) -> Seq<char>
    decreases n,
{
    if n < 10 {
        seq![digit_char(n)]
    } else {
        decimal(n / 10) + seq![digit_char(n % 10)]
    }
}

/// Relies on `u64`'s `Display` (through `to_string`): the decimal digits of the number.
#[verifier::external_body]
fn decimal_string(n: u64) -> (r: String)
    ensures
        r@ == decimal(n as nat),
{
    n.to_string()
}

/// Parts joined with single spaces.
pub open spec fn join_words(parts: Seq<Seq<char>>) -> Seq<char>
    decreases parts.len(),
{
    if parts.len() == 0 {
        Seq::empty()
    } else if parts.len() == 1 {
        parts[0]
    } else {
        join_words(parts.drop_last()) + seq![' '] + parts.last()
    }
}

pub open spec fn duration_part(value: nat, unit: char) -> Seq<char> {
    decimal(value) + seq![unit]
}

/// The non-zero hour, minute and second parts of a duration, in that order.
pub open spec fn duration_parts(seconds: nat) -> Seq<Seq<char>> {
    let h = seconds / 3600;
    let m = seconds % 3600 / 60;
    let s = seconds % 60;
    let p1: Seq<Seq<char>> = if h > 0 { seq![duration_part(h, 'h')] } else { Seq::empty() };
    let p2 = if m > 0 { p1.push(duration_part(m, 'm')) } else { p1 };
    if s > 0 { p2.push(duration_part(s, 's')) } else { p2 }
}

/// A duration written as "1h 2m 3s", leaving out the zero parts.
pub open spec fn humanized(seconds: nat) -> Seq<char> {
    join_words(duration_parts(seconds))
}

fn push_part(out: String, first: bool, parts: Ghost<Seq<Seq<char>>>, value: u64, unit: &str) -> (r: String)
    requires
        out@ == join_words(parts@),
        first == (parts@.len() == 0),
        unit@.len() == 1,
    ensures
        r@ == join_words(parts@.push(duration_part(value as nat, unit@[0]))),
{
    let digits = decimal_string(value);
    let part = concat(digits.as_str(), unit);
    let ghost p = parts@.push(duration_part(value as nat, unit@[0]));
    proof {
        assert(unit@ =~= seq![unit@[0]]);
        assert(p.drop_last() =~= parts@);
    }
    if first {
        proof { assert(p.len() == 1); }
        part
    } else {
        let space = " ";
        proof { reveal_strlit(" "); }
        let spaced = concat(out.as_str(), space);
        concat(spaced.as_str(), part.as_str())
    }
}

/// Writes a number of seconds as hours, minutes and seconds, such as "1h 1m 1s" for
/// 3661; parts that are zero are left out, so zero gives the empty string.
pub fn humanize(seconds: u64) -> (r: String)
    ensures
        r@ == humanized(seconds as nat),
{
    let hours = seconds / 3600;
    let minutes = seconds % 3600 / 60;
    let secs = seconds % 60;
    proof {
        reveal_strlit("h");
        reveal_strlit("m");
        reveal_strlit("s");
    }
    let mut out = String::new();
    let mut first = true;
    let ghost mut parts: Seq<Seq<char>> = Seq::empty();
    if hours > 0 {
        out = push_part(out, first, Ghost(parts), hours, "h");
        first = false;
        proof { parts = parts.push(duration_part(hours as nat, 'h')); }
    }
    if minutes > 0 {
        out = push_part(out, first, Ghost(parts), minutes, "m");
        first = false;
        proof { parts = parts.push(duration_part(minutes as nat, 'm')); }
    }
    if secs > 0 {
        out = push_part(out, first, Ghost(parts), secs, "s");
        first = false;
        proof { parts = parts.push(duration_part(secs as nat, 's')); }
    }
    proof {
        assert(parts =~= duration_parts(seconds as nat));
    }
    out
}

} // verus!
