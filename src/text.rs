//! Character-level string helpers shared by the search filter, the worker's
//! messages and the display helpers.
use vstd::prelude::*;
use vstd::string::StrSliceExecFns;
use vstd::string::StringExecFns;

verus! {

/// What `str::to_lowercase` returns for a string: Unicode lower-case mapping.
pub uninterp spec fn lower_of(s: Seq<char>) -> Seq<char>;

/// What `str::trim` returns for a string: Unicode white space removed at both ends.
pub uninterp spec fn trim_of(s: Seq<char>) -> Seq<char>;

/// `q` occurs in `s` as a contiguous run of characters.
pub open spec fn contains_seq(s: Seq<char>, q: Seq<char>) -> bool {
    exists|i: int| 0 <= i && i + q.len() <= s.len() && #[trigger] s.subrange(i, i + q.len()) == q
}

/// Relies on `String::push`: appends one character.
#[verifier::external_body]
pub fn push_char(s: &mut String, c: char)
    ensures
        final(s)@ == old(s)@.push(c),
{
    s.push(c)
}

/// Relies on `String::pop`: removes and returns the last character, if any.
#[verifier::external_body]
pub fn pop_char(s: &mut String) -> (r: Option<char>)
    ensures
        old(s)@.len() == 0 ==> r.is_none() && final(s)@ == old(s)@,
        old(s)@.len() > 0 ==> r == Some(old(s)@.last()) && final(s)@ == old(s)@.drop_last(),
{
    s.pop()
}

/// Relies on `String::clear`: the string becomes empty.
#[verifier::external_body]
pub fn clear_string(s: &mut String)
    ensures
        final(s)@ == Seq::<char>::empty(),
{
    s.clear()
}

/// Relies on `str::to_lowercase`: the result depends on the characters alone,
/// and the empty string stays empty.
#[verifier::external_body]
pub fn lowercase(s: &str) -> (r: String)
    ensures
        r@ == lower_of(s@),
        s@.len() == 0 ==> r@.len() == 0,
{
    s.to_lowercase()
}

/// Relies on `str::trim`: the result depends on the characters alone, and the
/// empty string stays empty.
#[verifier::external_body]
pub fn trimmed(s: &str) -> (r: String)
    ensures
        r@ == trim_of(s@),
        s@.len() == 0 ==> r@.len() == 0,
{
    s.trim().to_string()
}

/// The characters of a string, in order.
pub fn chars_of(s: &str) -> (r: Vec<char>)
    ensures
        r@ == s@,
{
    let n = s.unicode_len();
    let mut r: Vec<char> = Vec::new();
    let mut i: usize = 0;
    while i < n
        invariant
            n == s@.len(),
            i <= n,
            r@ == s@.subrange(0, i as int),
        decreases n - i,
    {
        r.push(s.get_char(i));
        i += 1;
    }
    r
}

/// A string made of the given characters.
pub fn string_of(cs: &Vec<char>) -> (r: String)
    ensures
        r@ == cs@,
{
    let mut r = String::new();
    let mut i: usize = 0;
    while i < cs.len()
        invariant
            i <= cs@.len(),
            r@ == cs@.subrange(0, i as int),
        decreases cs@.len() - i,
    {
        push_char(&mut r, cs[i]);
        i += 1;
    }
    r
}

/// Whether `q` occurs in `s` as a contiguous run.
pub fn seq_contains(s: &Vec<char>, q: &Vec<char>) -> (r: bool)
    ensures
        r == contains_seq(s@, q@),
{
    if q.len() > s.len() {
        return false;
    }
    let slen = s.len();
    let last = slen - q.len();
    let mut i: usize = 0;
    while i <= last
        invariant
            last == s@.len() - q@.len(),
            slen == s@.len(),
            i <= last + 1,
            forall|k: int| 0 <= k < i ==> #[trigger] s@.subrange(k, k + q@.len()) != q@,
        decreases last + 1 - i,
    {
        let mut j: usize = 0;
        let mut same = true;
        while j < q.len()
            invariant
                i <= last,
                last == s@.len() - q@.len(),
                q@.len() <= s@.len(),
                slen == s@.len(),
                j <= q@.len(),
                same == (forall|t: int| 0 <= t < j ==> s@[i + t] == q@[t]),
            decreases q@.len() - j,
        {
            assert(i + j < s@.len());
            if s[i + j] != q[j] {
                same = false;
            }
            j += 1;
        }
        if same {
            assert(s@.subrange(i as int, i + q@.len()) =~= q@);
            return true;
        }
        proof {
            let t = choose|t: int| 0 <= t < q@.len() && s@[i + t] != q@[t];
            assert(s@.subrange(i as int, i + q@.len())[t] != q@[t]);
        }
        if i == last {
            proof {
                assert forall|k: int|
                    0 <= k && k + q@.len() <= s@.len() implies #[trigger] s@.subrange(
                    k,
                    k + q@.len(),
                ) != q@ by {
                    assert(k <= i);
                }
            }
            return false;
        }
        i += 1;
    }
    false
}

/// Whether the string `q` occurs in the string `s`.
pub fn str_contains(s: &str, q: &str) -> (r: bool)
    ensures
        r == contains_seq(s@, q@),
{
    let sv = chars_of(s);
    let qv = chars_of(q);
    seq_contains(&sv, &qv)
}

/// A string made of a literal followed by another string.
pub fn concat_str(prefix: &str, rest: &str) -> (r: String)
    ensures
        r@ == prefix@ + rest@,
{
    let mut r = String::from_str(prefix);
    r.append(rest);
    r
}

/// The decimal digit character for `d < 10`.
pub open spec fn digit_char(d: nat) -> char {
    ((d + 48) as u8) as char
}

/// The decimal text of a natural number, without leading zeros.
pub open spec fn decimal(n: nat) -> Seq<char>
    decreases n,
{
    if n < 10 {
        seq![digit_char(n)]
    } else {
        decimal(n / 10).push(digit_char(n % 10))
    }
}

/// The decimal text of `n`, padded on the left with zeros to at least `w` characters.
pub open spec fn zero_padded(n: nat, w: nat) -> Seq<char> {
    let d = decimal(n);
    if d.len() >= w {
        d
    } else {
        Seq::new((w - d.len()) as nat, |i: int| '0') + d
    }
}

/// Writes `n` in decimal.
pub fn decimal_string(n: u64) -> (r: String)
    ensures
        r@ == decimal(n as nat),
{
    let mut digits: Vec<char> = Vec::new();
    let mut m: u64 = n;
    // digits holds the text of the low-order part, most significant first
    while m >= 10
        invariant
            decimal(n as nat) == decimal(m as nat) + digits@,
        decreases m,
    {
        let d = (m % 10) as u8;
        let c = (d + 48) as char;
        digits.insert(0, c);
        proof {
            assert(decimal(m as nat) == decimal((m / 10) as nat).push(digit_char((m % 10) as nat)));
            assert(decimal(m as nat) + digits@.subrange(1, digits@.len() as int) =~= decimal(
                (m / 10) as nat,
            ) + digits@);
        }
        m = m / 10;
    }
    let c0 = ((m as u8) + 48) as char;
    digits.insert(0, c0);
    assert(decimal(n as nat) =~= digits@);
    string_of(&digits)
}

} // verus!
