//! Small verified text helpers: decimal rendering, equality and substring search.

use vstd::prelude::*;

verus! {

/// The digit characters, in order of value.
pub const DIGITS: &'static str = "0123456789";

/// The one-character text of a digit value.
pub open spec fn digit_text(d: nat) -> Seq<char> {
    DIGITS@.subrange(d as int, d as int + 1)
}

/// Decimal text of a natural number, without leading zeros.
pub open spec fn nat_decimal(n: nat) -> Seq<char>
    decreases n,
{
    if n < 10 {
        digit_text(n)
    } else {
        nat_decimal(n / 10) + digit_text(n % 10)
    }
}

/// Decimal text of an integer, with a leading `-` when it is negative.
pub open spec fn decimal(n: int) -> Seq<char> {
    if n < 0 {
        seq!['-'] + nat_decimal((-n) as nat)
    } else {
        nat_decimal(n as nat)
    }
}

fn digit_string(d: u64) -> (r: String)
    requires
        d < 10,
    ensures
        r@ == digit_text(d as nat),
{
    proof {
        reveal_strlit("0123456789");
    }
    String::from_str(DIGITS.substring_char(d as usize, d as usize + 1))
}

fn nat_string(n: u64) -> (r: String)
    ensures
        r@ == nat_decimal(n as nat),
    decreases n,
{
    if n < 10 {
        digit_string(n)
    } else {
        let front = nat_string(n / 10);
        let last = digit_string(n % 10);
        front.concat(last.as_str())
    }
}

/// Decimal text of `n`, as `to_string` writes an integer.
pub fn decimal_string(n: i64) -> (r: String)
    ensures
        r@ == decimal(n as int),
{
    if n < 0 {
        let m: u64 = (-(n as i128)) as u64;
        let digits = nat_string(m);
        proof {
            reveal_strlit("-");
            assert("-"@ =~= seq!['-']);
        }
        String::from_str("-").concat(digits.as_str())
    } else {
        nat_string(n as u64)
    }
}

/// Whether `part` occurs in `whole` as a contiguous run of characters.
pub open spec fn contains_part(whole: Seq<char>, part: Seq<char>) -> bool {
    exists|i: int|
        0 <= i && i + part.len() <= whole.len() && #[trigger] whole.subrange(i, i + part.len())
            == part
}

fn occurs_at(whole: &str, part: &str, at: usize) -> (r: bool)
    requires
        at + part@.len() <= whole@.len(),
    ensures
        r == (whole@.subrange(at as int, at + part@.len()) == part@),
{
    let total = whole.unicode_len();
    let n = part.unicode_len();
    let mut k: usize = 0;
    while k < n
        invariant
            n == part@.len(),
            total == whole@.len(),
            at + n <= whole@.len(),
            k <= n,
            forall|j: int| 0 <= j < k ==> whole@[at + j] == part@[j],
        decreases n - k,
    {
        if whole.get_char(at + k) != part.get_char(k) {
            assert(whole@.subrange(at as int, at + n)[k as int] != part@[k as int]);
            return false;
        }
        k = k + 1;
    }
    assert(whole@.subrange(at as int, at + n) =~= part@);
    true
}

/// Whether `part` occurs in `whole`, as `str::contains` answers for a string pattern.
pub fn contains_text(whole: &str, part: &str) -> (r: bool)
    ensures
        r == contains_part(whole@, part@),
{
    let m = whole.unicode_len();
    let n = part.unicode_len();
    if n > m {
        return false;
    }
    let mut i: usize = 0;
    while i < m - n
        invariant
            m == whole@.len(),
            n == part@.len(),
            n <= m,
            i <= m - n,
            forall|j: int| 0 <= j < i ==> #[trigger] whole@.subrange(j, j + n) != part@,
        decreases m - n - i,
    {
        if occurs_at(whole, part, i) {
            return true;
        }
        i = i + 1;
    }
    occurs_at(whole, part, i)
}

/// Whether two texts hold the same characters.
pub fn same_text(a: &str, b: &str) -> (r: bool)
    ensures
        r == (a@ == b@),
{
    let m = a.unicode_len();
    let n = b.unicode_len();
    if m != n {
        return false;
    }
    let r = occurs_at(a, b, 0);
    assert(a@.subrange(0, n as int) =~= a@);
    r
}

}
