use vstd::prelude::*;

use crate::errors::ExecError;

verus! {

/// An amount of a chain-native denomination such as `uluna`.
#[derive(Debug, Clone, PartialEq, Eq)]
pub struct Coin {
    pub amount: u64,
    pub denom: String,
}

/// Mathematical model of a coin: the amount and the denomination characters.
#[verifier::ext_equal]
pub ghost struct CoinModel {
    pub amount: u64,
    pub denom: Seq<char>,
}

impl View for Coin {
    type V = CoinModel;

    open spec fn view(&self) -> CoinModel {
        CoinModel { amount: self.amount, denom: self.denom@ }
    }
}

/// An ASCII decimal digit.
pub open spec fn is_digit(c: char) -> bool {
    48 <= c as u32 && c as u32 <= 57
}

/// The numeric value of a decimal digit.
pub open spec fn digit_val(c: char) -> nat
    recommends
        is_digit(c),
{
    (c as u32 - 48) as nat
}

/// A character allowed in a denomination: lowercase ASCII letter or digit.
pub open spec fn is_denom_char(c: char) -> bool {
    (97 <= c as u32 && c as u32 <= 122) || is_digit(c)
}

/// A well-formed denomination: non-empty, lowercase alphanumeric, and not
/// starting with a digit (a leading digit would belong to the amount).
pub open spec fn valid_denom(s: Seq<char>) -> bool {
    &&& s.len() > 0
    &&& !is_digit(s[0])
    &&& forall|i: int| 0 <= i < s.len() ==> is_denom_char(#[trigger] s[i])
}

/// The numeric value of a digit string, most significant digit first.
pub open spec fn digits_value(s: Seq<char>) -> nat
    decreases s.len(),
{
    if s.len() == 0 {
        0
    } else {
        digits_value(s.drop_last()) * 10 + digit_val(s.last())
    }
}

/// The length of the longest all-digit prefix of `s`.
pub open spec fn digit_run_len(s: Seq<char>) -> nat
    decreases s.len(),
{
    if s.len() == 0 {
        0
    } else if !is_digit(s[0]) {
        0
    } else {
        1 + digit_run_len(s.subrange(1, s.len() as int))
    }
}

pub proof fn lemma_digit_run_len(s: Seq<char>)
    ensures
        digit_run_len(s) <= s.len(),
        forall|i: int| 0 <= i < digit_run_len(s) ==> is_digit(#[trigger] s[i]),
        digit_run_len(s) < s.len() ==> !is_digit(s[digit_run_len(s) as int]),
    decreases s.len(),
{
    if s.len() > 0 && is_digit(s[0]) {
        let t = s.subrange(1, s.len() as int);
        lemma_digit_run_len(t);
        assert forall|i: int| 0 <= i < digit_run_len(s) implies is_digit(#[trigger] s[i]) by {
            if i >= 1 {
                assert(t[i - 1] == s[i]);
            }
        }
        if digit_run_len(s) < s.len() {
            assert(t[digit_run_len(s) as int - 1] == s[digit_run_len(s) as int]);
        }
    }
}

/// The digit run length is the unique cut `k` with digits before it and a
/// non-digit (or the end) at it.
pub proof fn lemma_digit_run_len_unique(s: Seq<char>, k: nat)
    requires
        k <= s.len(),
        forall|i: int| 0 <= i < k ==> is_digit(#[trigger] s[i]),
        k < s.len() ==> !is_digit(s[k as int]),
    ensures
        digit_run_len(s) == k,
{
    lemma_digit_run_len(s);
    let d = digit_run_len(s);
    if d < k {
        assert(is_digit(s[d as int]));
    }
    if k < d {
        assert(is_digit(s[k as int]));
    }
}

/// Extending a digit string never lowers its value.
pub proof fn lemma_digits_value_prefix_le(s: Seq<char>, i: int, j: int)
    requires
        0 <= i <= j <= s.len(),
    ensures
        digits_value(s.subrange(0, i)) <= digits_value(s.subrange(0, j)),
    decreases j - i,
{
    if i < j {
        lemma_digits_value_prefix_le(s, i, j - 1);
        let p = s.subrange(0, j);
        assert(p.drop_last() =~= s.subrange(0, j - 1));
    }
}

/// What `parse_coin` returns: the maximal digit prefix is the amount, the
/// rest is the denomination. `None` when the amount is missing or does not
/// fit in the chain's native integer width, or the denomination is missing
/// or malformed.
pub open spec fn parse_coin_spec(s: Seq<char>) -> Option<CoinModel> {
    let k = digit_run_len(s) as int;
    let denom = s.subrange(k, s.len() as int);
    if 1 <= k && k < s.len() && digits_value(s.subrange(0, k)) <= u64::MAX && valid_denom(denom) {
        Some(CoinModel { amount: digits_value(s.subrange(0, k)) as u64, denom })
    } else {
        None
    }
}

/// The character for a single decimal digit value.
pub open spec fn digit_char(d: nat) -> char {
    if d == 0 {
        '0'
    } else if d == 1 {
        '1'
    } else if d == 2 {
        '2'
    } else if d == 3 {
        '3'
    } else if d == 4 {
        '4'
    } else if d == 5 {
        '5'
    } else if d == 6 {
        '6'
    } else if d == 7 {
        '7'
    } else if d == 8 {
        '8'
    } else {
        '9'
    }
}

/// The canonical decimal digit string of a number (no leading zeros,
/// except that zero itself is written `"0"`).
pub open spec fn u64_digits(n: nat) -> Seq<char>
    decreases n,
{
    if n < 10 {
        seq![digit_char(n)]
    } else {
        u64_digits(n / 10) + seq![digit_char(n % 10)]
    }
}

pub proof fn lemma_u64_digits(n: nat)
    ensures
        u64_digits(n).len() >= 1,
        forall|i: int| 0 <= i < u64_digits(n).len() ==> is_digit(#[trigger] u64_digits(n)[i]),
        digits_value(u64_digits(n)) == n,
    decreases n,
{
    if n < 10 {
        let s = u64_digits(n);
        assert(s.drop_last() =~= Seq::<char>::empty());
        assert(digit_val(digit_char(n)) == n);
        assert(digits_value(s) == digits_value(s.drop_last()) * 10 + digit_val(s.last()));
    } else {
        lemma_u64_digits(n / 10);
        vstd::arithmetic::div_mod::lemma_fundamental_div_mod(n as int, 10);
        let s = u64_digits(n);
        let p = u64_digits(n / 10);
        assert(s.drop_last() =~= p);
        assert(s.last() == digit_char(n % 10));
        assert(digit_val(digit_char(n % 10)) == n % 10);
        assert(digits_value(s) == digits_value(p) * 10 + digit_val(s.last()));
        assert(digits_value(s) == (n / 10) * 10 + (n % 10));
        assert forall|i: int| 0 <= i < s.len() implies is_digit(#[trigger] s[i]) by {
            if i < p.len() {
                assert(s[i] == p[i]);
            }
        }
    }
}

/// The coin grammar round-trips: writing any amount in decimal digits in
/// front of any well-formed denomination gives a string that `parse_coin`
/// takes back to exactly that amount and that denomination.
pub proof fn lemma_parse_coin_round_trip(amount: u64, denom: Seq<char>)
    requires
        valid_denom(denom),
    ensures
        parse_coin_spec(u64_digits(amount as nat) + denom) == Some(
            CoinModel { amount, denom },
        ),
{
    let d = u64_digits(amount as nat);
    lemma_u64_digits(amount as nat);
    let s = d + denom;
    assert forall|i: int| 0 <= i < d.len() implies is_digit(#[trigger] s[i]) by {
        assert(s[i] == d[i]);
    }
    assert(s[d.len() as int] == denom[0]);
    lemma_digit_run_len_unique(s, d.len() as nat);
    assert(s.subrange(0, d.len() as int) =~= d);
    assert(s.subrange(d.len() as int, s.len() as int) =~= denom);
    assert(parse_coin_spec(s).unwrap() =~= CoinModel { amount, denom });
}

/// A string without a numeric prefix, or without a denomination suffix
/// after it, is never a coin.
pub proof fn lemma_parse_coin_needs_both_parts(s: Seq<char>)
    ensures
        digit_run_len(s) == 0 ==> parse_coin_spec(s) is None,
        digit_run_len(s) == s.len() ==> parse_coin_spec(s) is None,
{
}

fn char_is_digit(c: char) -> (b: bool)
    ensures
        b == is_digit(c),
{
    let u = c as u32;
    48 <= u && u <= 57
}

fn char_is_denom(c: char) -> (b: bool)
    ensures
        b == is_denom_char(c),
{
    let u = c as u32;
    (97 <= u && u <= 122) || (48 <= u && u <= 57)
}

/// Parse a single `"<amount><denom>"` coin string: a non-empty decimal
/// amount immediately followed by a non-empty denomination. Fails with
/// `ParseError` naming the input when either part is missing or malformed,
/// or the amount overflows.
pub fn parse_coin(s: &str) -> (r: Result<Coin, ExecError>)
    ensures
        r is Ok <==> parse_coin_spec(s@) is Some,
        r matches Ok(c) ==> c@ == parse_coin_spec(s@).unwrap(),
        r matches Err(e) ==> e matches ExecError::ParseError(m) && m@ == s@,
{
    let len = s.unicode_len();
    let mut k: usize = 0;
    while k < len && char_is_digit(s.get_char(k))
        invariant
            k <= len,
            len == s@.len(),
            forall|i: int| 0 <= i < k ==> is_digit(#[trigger] s@[i]),
        decreases len - k,
    {
        k += 1;
    }
    proof {
        lemma_digit_run_len_unique(s@, k as nat);
    }
    if k == 0 || k == len {
        return Err(ExecError::ParseError(s.to_owned()));
    }
    let mut amount: u64 = 0;
    let mut i: usize = 0;
    while i < k
        invariant
            i <= k <= len,
            len == s@.len(),
            k == digit_run_len(s@),
            k < len,
            forall|j: int| 0 <= j < k ==> is_digit(#[trigger] s@[j]),
            amount == digits_value(s@.subrange(0, i as int)),
        decreases k - i,
    {
        let c = s.get_char(i);
        let d: u64 = ((c as u32) - 48) as u64;
        proof {
            assert(s@.subrange(0, i + 1).drop_last() =~= s@.subrange(0, i as int));
        }
        let next = match amount.checked_mul(10) {
            Some(v) => v.checked_add(d),
            None => None,
        };
        match next {
            Some(v) => {
                amount = v;
                i += 1;
            },
            None => {
                proof {
                    lemma_digits_value_prefix_le(s@, i + 1, k as int);
                }
                return Err(ExecError::ParseError(s.to_owned()));
            },
        }
    }
    let mut j: usize = k;
    while j < len
        invariant
            k <= j <= len,
            len == s@.len(),
            1 <= k < len,
            k == digit_run_len(s@),
            forall|i2: int| k <= i2 < j ==> is_denom_char(#[trigger] s@[i2]),
        decreases len - j,
    {
        if !char_is_denom(s.get_char(j)) {
            proof {
                assert(s@.subrange(k as int, len as int)[j - k] == s@[j as int]);
            }
            return Err(ExecError::ParseError(s.to_owned()));
        }
        j += 1;
    }
    let denom = s.substring_char(k, len).to_owned();
    let coin = Coin { amount, denom };
    proof {
        let d = s@.subrange(k as int, len as int);
        assert(d[0] == s@[k as int]);
        assert(coin@ =~= parse_coin_spec(s@).unwrap());
    }
    Ok(coin)
}

/// Whitespace that is trimmed around list segments.
pub open spec fn is_space(c: char) -> bool {
    c == ' ' || c == '\t' || c == '\n' || c == '\r'
}

/// The length of the longest whitespace prefix of `s`.
pub open spec fn trim_start_len(s: Seq<char>) -> nat
    decreases s.len(),
{
    if s.len() == 0 {
        0
    } else if !is_space(s[0]) {
        0
    } else {
        1 + trim_start_len(s.subrange(1, s.len() as int))
    }
}

/// The length of the longest whitespace suffix of `s`.
pub open spec fn trim_end_len(s: Seq<char>) -> nat
    decreases s.len(),
{
    if s.len() == 0 {
        0
    } else if !is_space(s.last()) {
        0
    } else {
        1 + trim_end_len(s.drop_last())
    }
}

/// `s` with leading and trailing whitespace removed.
pub open spec fn trim_seq(s: Seq<char>) -> Seq<char> {
    if trim_start_len(s) == s.len() {
        Seq::empty()
    } else {
        s.subrange(trim_start_len(s) as int, s.len() - trim_end_len(s))
    }
}

pub proof fn lemma_trim_start_len(s: Seq<char>)
    ensures
        trim_start_len(s) <= s.len(),
        forall|i: int| 0 <= i < trim_start_len(s) ==> is_space(#[trigger] s[i]),
        trim_start_len(s) < s.len() ==> !is_space(s[trim_start_len(s) as int]),
    decreases s.len(),
{
    if s.len() > 0 && is_space(s[0]) {
        let t = s.subrange(1, s.len() as int);
        lemma_trim_start_len(t);
        assert forall|i: int| 0 <= i < trim_start_len(s) implies is_space(#[trigger] s[i]) by {
            if i >= 1 {
                assert(t[i - 1] == s[i]);
            }
        }
        if trim_start_len(s) < s.len() {
            assert(t[trim_start_len(s) as int - 1] == s[trim_start_len(s) as int]);
        }
    }
}

pub proof fn lemma_trim_start_len_unique(s: Seq<char>, k: nat)
    requires
        k <= s.len(),
        forall|i: int| 0 <= i < k ==> is_space(#[trigger] s[i]),
        k < s.len() ==> !is_space(s[k as int]),
    ensures
        trim_start_len(s) == k,
{
    lemma_trim_start_len(s);
    let a = trim_start_len(s);
    if a < k {
        assert(is_space(s[a as int]));
    }
    if k < a {
        assert(is_space(s[k as int]));
    }
}

pub proof fn lemma_trim_end_len(s: Seq<char>)
    ensures
        trim_end_len(s) <= s.len(),
        forall|i: int| s.len() - trim_end_len(s) <= i < s.len() ==> is_space(#[trigger] s[i]),
        trim_end_len(s) < s.len() ==> !is_space(s[s.len() - 1 - trim_end_len(s)]),
    decreases s.len(),
{
    if s.len() > 0 && is_space(s.last()) {
        let t = s.drop_last();
        lemma_trim_end_len(t);
        assert forall|i: int| s.len() - trim_end_len(s) <= i < s.len() implies is_space(
            #[trigger] s[i],
        ) by {
            if i < s.len() - 1 {
                assert(t[i] == s[i]);
            }
        }
        if trim_end_len(s) < s.len() {
            assert(t[s.len() - 2 - (trim_end_len(s) - 1)] == s[s.len() - 1 - trim_end_len(s)]);
        }
    }
}

pub proof fn lemma_trim_end_len_unique(s: Seq<char>, k: nat)
    requires
        k <= s.len(),
        forall|i: int| s.len() - k <= i < s.len() ==> is_space(#[trigger] s[i]),
        k < s.len() ==> !is_space(s[s.len() - 1 - k]),
    ensures
        trim_end_len(s) == k,
{
    lemma_trim_end_len(s);
    let e = trim_end_len(s);
    if e < k {
        assert(is_space(s[s.len() - 1 - e]));
    }
    if k < e {
        assert(is_space(s[s.len() - 1 - k]));
    }
}

/// The index of the first comma in `s`, or `s.len()` if there is none.
pub open spec fn first_comma(s: Seq<char>) -> nat
    decreases s.len(),
{
    if s.len() == 0 {
        0
    } else if s[0] == ',' {
        0
    } else {
        1 + first_comma(s.subrange(1, s.len() as int))
    }
}

pub proof fn lemma_first_comma(s: Seq<char>)
    ensures
        first_comma(s) <= s.len(),
        forall|i: int| 0 <= i < first_comma(s) ==> #[trigger] s[i] != ',',
        first_comma(s) < s.len() ==> s[first_comma(s) as int] == ',',
    decreases s.len(),
{
    if s.len() > 0 && s[0] != ',' {
        let t = s.subrange(1, s.len() as int);
        lemma_first_comma(t);
        assert forall|i: int| 0 <= i < first_comma(s) implies #[trigger] s[i] != ',' by {
            if i >= 1 {
                assert(t[i - 1] == s[i]);
            }
        }
        if first_comma(s) < s.len() {
            assert(t[first_comma(s) as int - 1] == s[first_comma(s) as int]);
        }
    }
}

pub proof fn lemma_first_comma_unique(s: Seq<char>, k: nat)
    requires
        k <= s.len(),
        forall|i: int| 0 <= i < k ==> #[trigger] s[i] != ',',
        k < s.len() ==> s[k as int] == ',',
    ensures
        first_comma(s) == k,
{
    lemma_first_comma(s);
    let f = first_comma(s);
    if f < k {
        assert(s[f as int] != ',');
    }
    if k < f {
        assert(s[k as int] != ',');
    }
}

/// What `parse_coins` returns: split on commas, trim each segment, skip the
/// segments that are empty after trimming, and parse each remaining segment
/// as a coin, in input order. `None` as soon as one segment is invalid.
pub open spec fn parse_coins_spec(s: Seq<char>) -> Option<Seq<CoinModel>>
    decreases s.len(),
{
    let i = first_comma(s);
    let seg = trim_seq(s.subrange(0, i as int));
    let head: Option<Seq<CoinModel>> = if seg.len() == 0 {
        Some(Seq::empty())
    } else {
        match parse_coin_spec(seg) {
            Some(c) => Some(seq![c]),
            None => None,
        }
    };
    if i >= s.len() {
        head
    } else {
        match (head, parse_coins_spec(s.subrange(i as int + 1, s.len() as int))) {
            (Some(h), Some(t)) => Some(h + t),
            _ => None,
        }
    }
}

/// The number of comma-separated segments of `s` that are non-empty after
/// trimming.
pub open spec fn nonempty_segment_count(s: Seq<char>) -> nat
    decreases s.len(),
{
    let i = first_comma(s);
    let head: nat = if trim_seq(s.subrange(0, i as int)).len() == 0 {
        0
    } else {
        1
    };
    if i >= s.len() {
        head
    } else {
        head + nonempty_segment_count(s.subrange(i as int + 1, s.len() as int))
    }
}

/// The first trimmed segment of `s` that is non-empty and fails to parse as
/// a coin; empty if every segment parses.
pub open spec fn first_bad_segment(s: Seq<char>) -> Seq<char>
    decreases s.len(),
{
    let i = first_comma(s);
    let seg = trim_seq(s.subrange(0, i as int));
    if seg.len() > 0 && parse_coin_spec(seg) is None {
        seg
    } else if i >= s.len() {
        Seq::empty()
    } else {
        first_bad_segment(s.subrange(i as int + 1, s.len() as int))
    }
}

/// A coin list has exactly one coin per segment that is non-empty after
/// trimming, in input order.
pub proof fn lemma_parse_coins_count(s: Seq<char>)
    requires
        parse_coins_spec(s) is Some,
    ensures
        parse_coins_spec(s).unwrap().len() == nonempty_segment_count(s),
    decreases s.len(),
{
    let i = first_comma(s);
    lemma_first_comma(s);
    if i < s.len() {
        lemma_parse_coins_count(s.subrange(i as int + 1, s.len() as int));
    }
}

fn char_is_space(c: char) -> (b: bool)
    ensures
        b == is_space(c),
{
    c == ' ' || c == '\t' || c == '\n' || c == '\r'
}

/// Parse one comma-separated suffix of the list, starting at `pos`.
fn parse_coins_from(s: &str, pos: usize) -> (r: Result<Vec<Coin>, ExecError>)
    requires
        pos <= s@.len(),
    ensures
        r is Ok <==> parse_coins_spec(s@.subrange(pos as int, s@.len() as int)) is Some,
        r matches Ok(v) ==> v@.map_values(|c: Coin| c@) == parse_coins_spec(
            s@.subrange(pos as int, s@.len() as int),
        ).unwrap(),
        r matches Err(e) ==> e matches ExecError::ParseError(m) && m@ == first_bad_segment(
            s@.subrange(pos as int, s@.len() as int),
        ),
    decreases s@.len() - pos,
{
    let ghost t = s@.subrange(pos as int, s@.len() as int);
    let len = s.unicode_len();
    let mut c: usize = pos;
    while c < len && s.get_char(c) != ','
        invariant
            pos <= c <= len,
            len == s@.len(),
            forall|i: int| pos <= i < c ==> #[trigger] s@[i] != ',',
        decreases len - c,
    {
        c += 1;
    }
    proof {
        assert forall|i: int| 0 <= i < c - pos implies #[trigger] t[i] != ',' by {
            assert(t[i] == s@[pos + i]);
        }
        if c < len {
            assert(t[c - pos] == s@[c as int]);
        }
        lemma_first_comma_unique(t, (c - pos) as nat);
    }
    let mut a: usize = pos;
    while a < c && char_is_space(s.get_char(a))
        invariant
            pos <= a <= c <= len,
            len == s@.len(),
            forall|i: int| pos <= i < a ==> is_space(#[trigger] s@[i]),
        decreases c - a,
    {
        a += 1;
    }
    let mut b: usize = c;
    while b > a && char_is_space(s.get_char(b - 1))
        invariant
            pos <= a <= b <= c <= len,
            len == s@.len(),
            forall|i: int| b <= i < c ==> is_space(#[trigger] s@[i]),
        decreases b,
    {
        b -= 1;
    }
    let ghost seg = t.subrange(0, (c - pos) as int);
    proof {
        assert(seg =~= s@.subrange(pos as int, c as int));
        if a == c {
            assert forall|i: int| 0 <= i < seg.len() implies is_space(#[trigger] seg[i]) by {
                assert(seg[i] == s@[pos + i]);
            }
            lemma_trim_start_len_unique(seg, (c - pos) as nat);
            assert(b == a);
        } else {
            assert forall|i: int| 0 <= i < a - pos implies is_space(#[trigger] seg[i]) by {
                assert(seg[i] == s@[pos + i]);
            }
            assert(seg[a - pos] == s@[a as int]);
            lemma_trim_start_len_unique(seg, (a - pos) as nat);
            assert(b == a ==> is_space(s@[a as int]));
            assert(b > a);
            assert forall|i: int| seg.len() - (c - b) <= i < seg.len() implies is_space(
                #[trigger] seg[i],
            ) by {
                assert(seg[i] == s@[pos + i]);
            }
            assert(seg[(b - 1 - pos) as int] == s@[b as int - 1]);
            lemma_trim_end_len_unique(seg, (c - b) as nat);
            assert(trim_seq(seg) =~= s@.subrange(a as int, b as int));
        }
    }
    if a == b {
        if c == len {
            let r: Vec<Coin> = Vec::new();
            proof {
                assert(r@.map_values(|x: Coin| x@) =~= Seq::<CoinModel>::empty());
            }
            return Ok(r);
        }
        proof {
            assert(t.subrange(c - pos + 1, t.len() as int) =~= s@.subrange(
                c + 1,
                s@.len() as int,
            ));
        }
        match parse_coins_from(s, c + 1) {
            Ok(v) => {
                proof {
                    assert(v@.map_values(|x: Coin| x@) =~= parse_coins_spec(t).unwrap());
                }
                Ok(v)
            },
            Err(e) => Err(e),
        }
    } else {
        let segment = s.substring_char(a, b);
        match parse_coin(segment) {
            Err(_) => Err(ExecError::ParseError(segment.to_owned())),
            Ok(coin) => {
                if c == len {
                    let mut v: Vec<Coin> = Vec::new();
                    v.push(coin);
                    proof {
                        assert(v@.map_values(|x: Coin| x@) =~= seq![coin@]);
                    }
                    Ok(v)
                } else {
                    proof {
                        assert(t.subrange(c - pos + 1, t.len() as int) =~= s@.subrange(
                            c + 1,
                            s@.len() as int,
                        ));
                    }
                    match parse_coins_from(s, c + 1) {
                        Ok(rest) => {
                            let mut v = rest;
                            v.insert(0, coin);
                            proof {
                                assert(v@.map_values(|x: Coin| x@) =~= seq![coin@]
                                    + parse_coins_spec(
                                    s@.subrange(c + 1, s@.len() as int),
                                ).unwrap());
                            }
                            Ok(v)
                        },
                        Err(e) => Err(e),
                    }
                }
            },
        }
    }
}

/// Parse a comma-separated coin list. Whitespace around each segment is
/// trimmed and segments that are then empty are skipped, so an empty or
/// all-whitespace input yields an empty list, not an error. Fails with
/// `ParseError` naming the first invalid segment.
pub fn parse_coins(s: &str) -> (r: Result<Vec<Coin>, ExecError>)
    ensures
        r is Ok <==> parse_coins_spec(s@) is Some,
        r matches Ok(v) ==> v@.map_values(|c: Coin| c@) == parse_coins_spec(s@).unwrap(),
        r matches Err(e) ==> e matches ExecError::ParseError(m) && m@ == first_bad_segment(s@),
{
    proof {
        assert(s@.subrange(0, s@.len() as int) =~= s@);
    }
    parse_coins_from(s, 0)
}

} // verus!
