//! The `session_id` cookie: reading it out of a `Cookie` request header and
//! writing the `Set-Cookie` values that issue and clear it.
use vstd::prelude::*;
use vstd::string::*;

verus! {

/// The `name=` part of the session cookie.
pub open spec fn cookie_prefix() -> Seq<char> {
    seq!['s', 'e', 's', 's', 'i', 'o', 'n', '_', 'i', 'd', '=']
}

/// A `"; "` separator starts at position `i` of `s`.
pub open spec fn separator_at(s: Seq<char>, i: int) -> bool {
    0 <= i && i + 1 < s.len() && s[i] == ';' && s[i + 1] == ' '
}

/// The value of the cookie pair `s[a..b]`, if that pair is the session cookie.
pub open spec fn pair_value(s: Seq<char>, a: int, b: int) -> Option<Seq<char>> {
    if b - a >= cookie_prefix().len() && s.subrange(a, a + cookie_prefix().len()) == cookie_prefix() {
        Some(s.subrange(a + cookie_prefix().len(), b))
    } else {
        None
    }
}

/// Walks `s` from position `i`, where the current pair began at `start`;
/// pairs are separated by `"; "`, and the first session cookie found wins.
pub open spec fn scan_pairs(s: Seq<char>, start: int, i: int) -> Option<Seq<char>>
    decreases s.len() - i,
{
    if i >= s.len() {
        pair_value(s, start, s.len() as int)
    } else if separator_at(s, i) {
        match pair_value(s, start, i) {
            Some(v) => Some(v),
            None => scan_pairs(s, i + 2, i + 2),
        }
    } else {
        scan_pairs(s, start, i + 1)
    }
}

/// The session identifier that a `Cookie` header carries, if any.
pub open spec fn session_cookie(header: Seq<char>) -> Option<Seq<char>> {
    scan_pairs(header, 0, 0)
}

/// Whether the pair `s[a..b]` starts with `session_id=`.
fn pair_is_session(s: &str, a: usize, b: usize) -> (r: bool)
    requires
        a <= b <= s@.len(),
    ensures
        r == (pair_value(s@, a as int, b as int) is Some),
{
    let name = "session_id=";
    proof {
        reveal_strlit("session_id=");
        assert(name@ == cookie_prefix());
    }
    let n = name.unicode_len();
    if b - a < n {
        return false;
    }
    let mut k: usize = 0;
    while k < n
        invariant
            n == cookie_prefix().len(),
            name@ == cookie_prefix(),
            a + n <= b <= s@.len(),
            k <= n,
            forall|j: int| 0 <= j < k ==> s@[a + j] == cookie_prefix()[j],
        decreases n - k,
    {
        if s.get_char(a + k) != name.get_char(k) {
            assert(s@.subrange(a as int, a + n)[k as int] != cookie_prefix()[k as int]);
            return false;
        }
        k = k + 1;
    }
    assert(s@.subrange(a as int, a + n) =~= cookie_prefix());
    true
}

/// Finds the session identifier in the value of a `Cookie` request header:
/// the header is split at each `"; "`, and the first pair that begins with
/// `session_id=` gives the rest of that pair.
pub fn get_session_id(header: &str) -> (r: Option<String>)
    ensures
        r matches Some(v) ==> session_cookie(header@) == Some(v@),
        r is None ==> session_cookie(header@) is None,
{
    let len = header.unicode_len();
    let mut start: usize = 0;
    let mut i: usize = 0;
    while i < len
        invariant
            len == header@.len(),
            start <= i <= len,
            scan_pairs(header@, start as int, i as int) == session_cookie(header@),
        decreases len - i,
    {
        if i + 1 < len && header.get_char(i) == ';' && header.get_char(i + 1) == ' ' {
            if pair_is_session(header, start, i) {
                let v = header.substring_char(start + 11, i);
                proof {
                    reveal_strlit("session_id=");
                }
                return Some(v.to_owned());
            }
            i = i + 2;
            start = i;
        } else {
            i = i + 1;
        }
    }
    if pair_is_session(header, start, len) {
        let v = header.substring_char(start + 11, len);
        Some(v.to_owned())
    } else {
        None
    }
}

/// The attributes that follow the value in `Set-Cookie`, up to the age.
pub open spec fn cookie_attributes() -> Seq<char> {
    seq![';', ' ', 'P', 'a', 't', 'h', '=', '/', ';', ' ', 'H', 't', 't', 'p', 'O', 'n', 'l', 'y', ';', ' ', 'M', 'a', 'x', '-', 'A', 'g', 'e', '=']
}

/// The character of a decimal digit.
pub open spec fn digit_char(d: nat) -> char {
    if d == 0 { '0' } else if d == 1 { '1' } else if d == 2 { '2' } else if d == 3 { '3' }
    else if d == 4 { '4' } else if d == 5 { '5' } else if d == 6 { '6' } else if d == 7 { '7' }
    else if d == 8 { '8' } else { '9' }
}

/// `n` written in decimal, without leading zeros.
pub open spec fn decimal(n: nat) -> Seq<char>
    decreases n,
{
    if n < 10 {
        seq![digit_char(n)]
    } else {
        decimal(n / 10) + seq![digit_char(n % 10)]
    }
}

/// The `Set-Cookie` value that gives the browser session `id` for `max_age` seconds.
pub open spec fn set_cookie_text(id: Seq<char>, max_age: nat) -> Seq<char> {
    cookie_prefix() + id + cookie_attributes() + decimal(max_age)
}

fn digit_text(d: u64) -> (r: &'static str)
    requires
        d < 10,
    ensures
        r@ == seq![digit_char(d as nat)],
{
    proof {
        reveal_strlit("0"); reveal_strlit("1"); reveal_strlit("2"); reveal_strlit("3");
        reveal_strlit("4"); reveal_strlit("5"); reveal_strlit("6"); reveal_strlit("7");
        reveal_strlit("8"); reveal_strlit("9");
    }
    let r = if d == 0 { "0" } else if d == 1 { "1" } else if d == 2 { "2" } else if d == 3 { "3" }
    else if d == 4 { "4" } else if d == 5 { "5" } else if d == 6 { "6" } else if d == 7 { "7" }
    else if d == 8 { "8" } else { "9" };
    assert(r@ =~= seq![digit_char(d as nat)]);
    r
}

/// Appends `n` in decimal to `s`.
fn append_decimal(s: &mut String, n: u64)
    ensures
        final(s)@ == old(s)@ + decimal(n as nat),
    decreases n,
{
    if n >= 10 {
        append_decimal(s, n / 10);
    }
    s.append(digit_text(n % 10));
    assert(final(s)@ =~= old(s)@ + decimal(n as nat));
}

/// The `Set-Cookie` value that issues session `id` for `max_age` seconds:
/// `session_id=<id>; Path=/; HttpOnly; Max-Age=<max_age>`.
pub fn session_cookie_header(id: &str, max_age: u64) -> (r: String)
    ensures
        r@ == set_cookie_text(id@, max_age as nat),
{
    let mut r = String::from_str("session_id=");
    r.append(id);
    r.append("; Path=/; HttpOnly; Max-Age=");
    proof {
        reveal_strlit("session_id=");
        reveal_strlit("; Path=/; HttpOnly; Max-Age=");
    }
    append_decimal(&mut r, max_age);
    assert(r@ =~= set_cookie_text(id@, max_age as nat));
    r
}

/// The `Set-Cookie` value that clears the session cookie:
/// an empty value with `Max-Age=0`.
pub fn clear_cookie_header() -> (r: String)
    ensures
        r@ == set_cookie_text(Seq::empty(), 0),
{
    proof {
        reveal_strlit("");
    }
    let r = session_cookie_header("", 0);
    assert(""@ =~= Seq::<char>::empty());
    r
}

} // verus!
