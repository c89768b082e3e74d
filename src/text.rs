//! Byte-level pieces of the report grammar: literal tokens, digit runs and
//! the numbers they spell, and the whitespace rule between fields.
use vstd::prelude::*;

use crate::failure::{noted, Expected, ParseError};
use vstd::arithmetic::div_mod::lemma_fundamental_div_mod;

verus! {

/// The position of a successful match as a mathematical integer.
pub open spec fn lift_pos<T>(r: Option<(T, usize)>) -> Option<(T, int)> {
    match r {
        Some((v, e)) => Some((v, e as int)),
        None => None,
    }
}

/// The end of a match that yields no value.
pub open spec fn lift_end(r: Option<usize>) -> Option<int> {
    match r {
        Some(e) => Some(e as int),
        None => None,
    }
}

/// The byte at `p` is the ASCII character `c`.
pub open spec fn byte_is(s: Seq<u8>, p: int, c: char) -> bool {
    0 <= p < s.len() && s[p] == c as u8
}

/// The bytes at `p` spell `t` (ASCII); the match ends after it.
pub open spec fn lit(s: Seq<u8>, p: int, t: Seq<char>) -> Option<int> {
    if 0 <= p && p + t.len() <= s.len() && (forall|i: int|
        0 <= i < t.len() ==> s[p + i] == #[verifier::truncate] ((#[trigger] t[i]) as u8)) {
        Some(p + t.len())
    } else {
        None
    }
}

/// The bytes of an ASCII text.
pub open spec fn ascii(t: Seq<char>) -> Seq<u8> {
    t.map_values(|c: char| #[verifier::truncate] (c as u8))
}

/// Both texts are the same characters.
pub fn same_text(a: &str, b: &str) -> (r: bool)
    ensures
        r == (a@ == b@),
{
    let n = a.unicode_len();
    if n != b.unicode_len() {
        return false;
    }
    let mut i: usize = 0;
    while i < n
        invariant
            n == a@.len(),
            n == b@.len(),
            0 <= i <= n,
            forall|j: int| 0 <= j < i ==> a@[j] == b@[j],
        decreases n - i,
    {
        if a.get_char(i) != b.get_char(i) {
            return false;
        }
        i += 1;
    }
    assert(a@ =~= b@);
    true
}

/// Matches the literal `t` at `p`.
pub fn lit_at(s: &[u8], p: usize, t: &str) -> (r: Option<usize>)
    requires
        p <= s@.len(),
    ensures
        lift_end(r) == lit(s@, p as int, t@),
        r matches Some(e) ==> e == p + t@.len() && e <= s@.len(),
{
    let n = t.unicode_len();
    if n > s.len() - p {
        return None;
    }
    let mut i: usize = 0;
    while i < n
        invariant
            n == t@.len(),
            p + n <= s.len(),
            0 <= i <= n,
            forall|j: int| 0 <= j < i ==> s@[p + j] == #[verifier::truncate] ((#[trigger] t@[j]) as u8),
        decreases n - i,
    {
        if s[p + i] != #[verifier::truncate] (t.get_char(i) as u8) {
            return None;
        }
        i += 1;
    }
    Some(p + n)
}

/// Matches the single ASCII character `c` at `p`.
pub fn byte_at(s: &[u8], p: usize, c: char) -> (r: bool)
    requires
        p <= s@.len(),
    ensures
        r == byte_is(s@, p as int, c),
        r ==> p < s.len() && p + 1 <= usize::MAX,
{
    p < s.len() && s[p] == #[verifier::truncate] (c as u8)
}

/// An ASCII digit.
pub open spec fn is_digit(b: u8) -> bool {
    48 <= b <= 57
}

/// An ASCII capital letter.
pub open spec fn is_letter(b: u8) -> bool {
    65 <= b <= 90
}

/// Longest numeral accepted as a number. Report fields hold a few digits
/// each; six keep every quantity built from numerals (a mixed fraction of
/// statute miles, a decimal pressure in inches of mercury) within the `i64`
/// numerators and `u64` denominators of the exact fractions of
/// [`crate::units`]. A longer run of digits does not match a number.
pub const MAX_DIGITS: usize = 6;

/// The end of the run of digits that starts at `p`.
pub open spec fn digit_run_end(s: Seq<u8>, p: int) -> int
    decreases s.len() - p,
{
    if 0 <= p < s.len() && is_digit(s[p]) {
        digit_run_end(s, p + 1)
    } else {
        p
    }
}

/// The decimal value of the digits in `p..e`.
pub open spec fn digits_value(s: Seq<u8>, p: int, e: int) -> nat
    decreases e - p,
{
    if e <= p {
        0
    } else {
        10 * digits_value(s, p, e - 1) + (s[e - 1] - 48) as nat
    }
}

/// `10` to the power `k`.
pub open spec fn pow10(k: nat) -> nat
    decreases k,
{
    if k == 0 {
        1
    } else {
        10 * pow10((k - 1) as nat)
    }
}

/// A non-empty run of at most [`MAX_DIGITS`] digits at `p`, all of the
/// run taken, and its value.
pub open spec fn number(s: Seq<u8>, p: int) -> Option<(u64, int)> {
    let e = digit_run_end(s, p);
    if p < e && e - p <= MAX_DIGITS {
        Some((digits_value(s, p, e) as u64, e))
    } else {
        None
    }
}

/// Exactly `k` digits at `p` and their value.
pub open spec fn fixed_digits(s: Seq<u8>, p: int, k: int) -> Option<(u64, int)> {
    if 0 <= p && p + k <= s.len() && (forall|i: int| p <= i < p + k ==> is_digit(#[trigger] s[i])) {
        Some((digits_value(s, p, p + k) as u64, p + k))
    } else {
        None
    }
}

proof fn lemma_digit_run_step(s: Seq<u8>, p: int)
    requires
        0 <= p < s.len(),
        is_digit(s[p]),
    ensures
        digit_run_end(s, p) == digit_run_end(s, p + 1),
{
}

proof fn lemma_digit_run_bounds(s: Seq<u8>, p: int)
    requires
        0 <= p <= s.len(),
    ensures
        p <= digit_run_end(s, p) <= s.len(),
    decreases s.len() - p,
{
    if p < s.len() && is_digit(s[p]) {
        lemma_digit_run_bounds(s, p + 1);
    }
}

proof fn lemma_value_step(s: Seq<u8>, p: int, e: int, v: nat)
    requires
        p <= e < s.len(),
        is_digit(s[e]),
        v == digits_value(s, p, e),
        v < pow10((e - p) as nat),
    ensures
        digits_value(s, p, e + 1) == 10 * v + (s[e] - 48) as nat,
        digits_value(s, p, e + 1) < pow10((e + 1 - p) as nat),
{
    assert(pow10((e + 1 - p) as nat) == 10 * pow10((e - p) as nat));
}

/// Reads a number at `p`; notes that a digit was expected where the run
/// ends.
pub fn number_at(s: &[u8], p: usize, err: &mut ParseError) -> (r: Option<(u64, usize)>)
    requires
        p <= s@.len(),
        old(err).wf(s@.len() as int),
    ensures
        lift_pos(r) == number(s@, p as int),
        r matches Some((v, e)) ==> p < e <= s@.len() && v < 1_000_000,
        final(err).wf(s@.len() as int),
{
    let mut i: usize = p;
    let mut v: u64 = 0;
    while i < s.len() && 48 <= s[i] && s[i] <= 57
        invariant
            p <= i <= s@.len(),
            i - p <= MAX_DIGITS,
            digit_run_end(s@, p as int) == digit_run_end(s@, i as int),
            v == digits_value(s@, p as int, i as int),
            v < pow10((i - p) as nat),
            *err == *old(err),
            err.wf(s@.len() as int),
        decreases s@.len() - i,
    {
        proof {
            lemma_digit_run_step(s@, i as int);
            lemma_digit_run_bounds(s@, i + 1);
        }
        if i - p == MAX_DIGITS {
            return None;
        }
        proof {
            lemma_value_step(s@, p as int, i as int, v as nat);
            reveal_with_fuel(pow10, 7);
        }
        v = 10 * v + (s[i] - 48) as u64;
        i += 1;
    }
    err.note(i, Expected::Digit);
    if i == p {
        return None;
    }
    proof {
        reveal_with_fuel(pow10, 7);
    }
    Some((v, i))
}

/// Reads exactly `k` digits at `p`; notes that a digit was expected where
/// one is missing.
pub fn fixed_digits_at(s: &[u8], p: usize, k: usize, err: &mut ParseError) -> (r: Option<
    (u64, usize),
>)
    requires
        p <= s@.len(),
        k <= 4,
        old(err).wf(s@.len() as int),
    ensures
        lift_pos(r) == fixed_digits(s@, p as int, k as int),
        r matches Some((v, e)) ==> e == p + k && e <= s@.len() && v < 10_000,
        final(err).wf(s@.len() as int),
        final(err).state() == fixed_digits_failure(s@, p as int, k as int, old(err).state()),
{
    let mut i: usize = p;
    let mut v: u64 = 0;
    while i - p < k
        invariant
            p <= i <= s@.len(),
            i - p <= k,
            k <= 4,
            forall|j: int| p <= j < i ==> is_digit(#[trigger] s@[j]),
            fixed_digits_failure(s@, p as int, k as int, old(err).state())
                == fixed_digits_failure(s@, i as int, k - (i - p), old(err).state()),
            v == digits_value(s@, p as int, i as int),
            v < pow10((i - p) as nat),
            *err == *old(err),
            err.wf(s@.len() as int),
        decreases k - (i - p),
    {
        if i >= s.len() || s[i] < 48 || s[i] > 57 {
            err.note(i, Expected::Digit);
            return None;
        }
        proof {
            lemma_value_step(s@, p as int, i as int, v as nat);
            reveal_with_fuel(pow10, 5);
        }
        v = 10 * v + (s[i] - 48) as u64;
        i += 1;
    }
    proof {
        reveal_with_fuel(pow10, 5);
    }
    Some((v, i))
}

/// The decimal numeral of `v` in exactly `k` digits, zero padded.
pub open spec fn numeral(v: nat, k: nat) -> Seq<u8>
    decreases k,
{
    if k == 0 {
        Seq::empty()
    } else {
        numeral(v / 10, (k - 1) as nat).push((48 + v % 10) as u8)
    }
}

/// A numeral of `k` digits is `k` bytes long.
pub proof fn numeral_len(v: nat, k: nat)
    ensures
        numeral(v, k).len() == k,
    decreases k,
{
    if k > 0 {
        numeral_len(v / 10, (k - 1) as nat);
    }
}

/// The bytes `p..p + k` of `s` are the numeral of `v`: all digits, with
/// value `v`.
pub proof fn numeral_value(s: Seq<u8>, p: int, k: nat, v: nat)
    requires
        0 <= p,
        p + k <= s.len(),
        v < pow10(k),
        s.subrange(p, p + k) == numeral(v, k),
    ensures
        forall|i: int| p <= i < p + k ==> is_digit(#[trigger] s[i]),
        digits_value(s, p, p + k) == v,
    decreases k,
{
    if k > 0 {
        let k1 = (k - 1) as nat;
        lemma_fundamental_div_mod(v as int, 10);
        assert(v / 10 < pow10(k1)) by {
            assert(pow10(k) == 10 * pow10(k1));
        }
        assert(s.subrange(p, p + k1) =~= s.subrange(p, p + k).drop_last());
        assert(numeral(v, k).drop_last() =~= numeral(v / 10, k1));
        numeral_value(s, p, k1, v / 10);
        assert(s[p + k1] == s.subrange(p, p + k)[k1 as int]);
        assert(s[p + k1] == 48 + v % 10);
        assert forall|i: int| p <= i < p + k implies is_digit(#[trigger] s[i]) by {
            if i < p + k1 {
            } else {
                assert(i == p + k1);
            }
        }
    }
}

/// A numeral read as exactly `k` digits gives its value.
pub proof fn numeral_fixed_digits(s: Seq<u8>, p: int, k: nat, v: nat)
    requires
        0 <= p,
        p + k <= s.len(),
        v < pow10(k),
        k <= 4,
        s.subrange(p, p + k) == numeral(v, k),
    ensures
        fixed_digits(s, p, k as int) == Some((v as u64, p + k)),
{
    numeral_value(s, p, k, v);
    reveal_with_fuel(pow10, 5);
}

/// A numeral of one to six digits followed by something other than a digit
/// is read as a number with its value.
pub proof fn numeral_number(s: Seq<u8>, p: int, k: nat, v: nat)
    requires
        0 <= p,
        1 <= k <= MAX_DIGITS,
        p + k <= s.len(),
        v < pow10(k),
        s.subrange(p, p + k) == numeral(v, k),
        p + k == s.len() || !is_digit(s[p + k]),
    ensures
        number(s, p) == Some((v as u64, p + k)),
{
    numeral_value(s, p, k, v);
    reveal_with_fuel(pow10, 7);
    lemma_run_through(s, p, p + k);
}

proof fn lemma_run_through(s: Seq<u8>, p: int, e: int)
    requires
        0 <= p <= e <= s.len(),
        forall|i: int| p <= i < e ==> is_digit(#[trigger] s[i]),
        e == s.len() || !is_digit(s[e]),
    ensures
        digit_run_end(s, p) == e,
    decreases e - p,
{
    if p < e {
        lemma_run_through(s, p + 1, e);
    }
}

/// The failure state after looking for a capital letter at `p`.
pub open spec fn letter_failure(s: Seq<u8>, p: int, f: (int, Set<Expected>)) -> (
    int,
    Set<Expected>,
) {
    if letter(s, p) is Some {
        f
    } else {
        noted(f, p, Expected::Letter)
    }
}

/// The failure state after looking for a digit at `p`.
pub open spec fn digit_failure(s: Seq<u8>, p: int, f: (int, Set<Expected>)) -> (
    int,
    Set<Expected>,
) {
    if digit(s, p) is Some {
        f
    } else {
        noted(f, p, Expected::Digit)
    }
}

/// The failure state after reading `k` digits at `p`: a digit is expected
/// where the first one is missing.
pub open spec fn fixed_digits_failure(s: Seq<u8>, p: int, k: int, f: (int, Set<Expected>)) -> (
    int,
    Set<Expected>,
)
    decreases k,
{
    if k <= 0 {
        f
    } else if 0 <= p < s.len() && is_digit(s[p]) {
        fixed_digits_failure(s, p + 1, k - 1, f)
    } else {
        noted(f, p, Expected::Digit)
    }
}

/// One capital letter at `p`.
pub open spec fn letter(s: Seq<u8>, p: int) -> Option<int> {
    if 0 <= p < s.len() && is_letter(s[p]) {
        Some(p + 1)
    } else {
        None
    }
}

/// Reads one capital letter at `p`, noting a letter as expected otherwise.
pub fn letter_at(s: &[u8], p: usize, err: &mut ParseError) -> (r: Option<usize>)
    requires
        p <= s@.len(),
        old(err).wf(s@.len() as int),
    ensures
        lift_end(r) == letter(s@, p as int),
        final(err).wf(s@.len() as int),
        final(err).state() == letter_failure(s@, p as int, old(err).state()),
{
    if p < s.len() && 65 <= s[p] && s[p] <= 90 {
        Some(p + 1)
    } else {
        err.note(p, Expected::Letter);
        None
    }
}

/// One digit at `p`.
pub open spec fn digit(s: Seq<u8>, p: int) -> Option<int> {
    if 0 <= p < s.len() && is_digit(s[p]) {
        Some(p + 1)
    } else {
        None
    }
}

/// Reads one digit at `p`, noting a digit as expected otherwise.
pub fn digit_at(s: &[u8], p: usize, err: &mut ParseError) -> (r: Option<usize>)
    requires
        p <= s@.len(),
        old(err).wf(s@.len() as int),
    ensures
        lift_end(r) == digit(s@, p as int),
        final(err).wf(s@.len() as int),
        final(err).state() == digit_failure(s@, p as int, old(err).state()),
{
    if p < s.len() && 48 <= s[p] && s[p] <= 57 {
        Some(p + 1)
    } else {
        err.note(p, Expected::Digit);
        None
    }
}

/// The end of the run of `c` that starts at `p`.
pub open spec fn run_end(s: Seq<u8>, p: int, c: char) -> int
    decreases s.len() - p,
{
    if 0 <= p < s.len() && byte_is(s, p, c) {
        run_end(s, p + 1, c)
    } else {
        p
    }
}

/// Skips the run of `c` that starts at `p`.
pub fn run_end_at(s: &[u8], p: usize, c: char) -> (r: usize)
    requires
        p <= s@.len(),
    ensures
        r == run_end(s@, p as int, c),
        p <= r <= s@.len(),
{
    let mut i = p;
    while byte_at(s, i, c)
        invariant
            p <= i <= s@.len(),
            run_end(s@, p as int, c) == run_end(s@, i as int, c),
        decreases s@.len() - i,
    {
        i += 1;
    }
    i
}

/// Spaces each followed by slashes, as often as they come.
pub open spec fn spaced_slashes(s: Seq<u8>, p: int) -> int
    decreases s.len() - p,
{
    if 0 <= p && byte_is(s, p, ' ') && byte_is(s, p + 1, '/') {
        let q = run_end(s, p + 1, '/');
        if p < q <= s.len() {
            spaced_slashes(s, q)
        } else {
            p
        }
    } else {
        p
    }
}

proof fn lemma_run_end_bounds(s: Seq<u8>, p: int, c: char)
    requires
        0 <= p <= s.len(),
    ensures
        p <= run_end(s, p, c) <= s.len(),
        byte_is(s, p, c) ==> run_end(s, p, c) > p,
    decreases s.len() - p,
{
    if p < s.len() && byte_is(s, p, c) {
        lemma_run_end_bounds(s, p + 1, c);
    }
}

/// Two-character groups of a space and an `M`, as often as they come.
pub open spec fn spaced_ms(s: Seq<u8>, p: int) -> int
    decreases s.len() - p,
{
    if 0 <= p && byte_is(s, p, ' ') && byte_is(s, p + 1, 'M') {
        spaced_ms(s, p + 2)
    } else {
        p
    }
}

/// Slash garbage: ` //` groups closed by a space.
pub open spec fn slash_garbage(s: Seq<u8>, p: int) -> Option<int> {
    let q = spaced_slashes(s, p);
    if q > p && byte_is(s, q, ' ') {
        Some(q + 1)
    } else {
        None
    }
}

/// One group of ` M` pairs closed by a space.
pub open spec fn m_group(s: Seq<u8>, p: int) -> Option<int> {
    let q = spaced_ms(s, p);
    if q > p && byte_is(s, q, ' ') {
        Some(q + 1)
    } else {
        None
    }
}

/// `M` groups, as often as they come.
pub open spec fn m_groups(s: Seq<u8>, p: int) -> int
    decreases s.len() - p,
{
    match m_group(s, p) {
        Some(q) => if p < q <= s.len() {
            m_groups(s, q)
        } else {
            p
        },
        None => p,
    }
}

/// One unit of whitespace: slash garbage, `M` garbage, a space, a line
/// break, a tab or a `>`.
pub open spec fn whitespace_unit(s: Seq<u8>, p: int) -> Option<int> {
    if slash_garbage(s, p) is Some {
        slash_garbage(s, p)
    } else if m_groups(s, p) > p {
        Some(m_groups(s, p))
    } else if byte_is(s, p, ' ') {
        Some(p + 1)
    } else if byte_is(s, p, '\r') && byte_is(s, p + 1, '\n') {
        Some(p + 2)
    } else if byte_is(s, p, '\n') || byte_is(s, p, '\t') || byte_is(s, p, '>') {
        Some(p + 1)
    } else {
        None
    }
}

/// Whitespace units, as many as come: the end of the separator at `p`,
/// which is `p` itself when there is none.
pub open spec fn whitespace(s: Seq<u8>, p: int) -> int
    decreases s.len() - p,
{
    match whitespace_unit(s, p) {
        Some(q) => if p < q <= s.len() {
            whitespace(s, q)
        } else {
            p
        },
        None => p,
    }
}

/// The failure state after skipping the separator at `p`: whitespace is
/// expected there when there is none.
pub open spec fn whitespace_failure(s: Seq<u8>, p: int, f: (int, Set<Expected>)) -> (
    int,
    Set<Expected>,
) {
    if whitespace(s, p) == p {
        noted(f, p, Expected::Whitespace)
    } else {
        f
    }
}

/// A separator of at least one whitespace unit.
pub open spec fn required_whitespace(s: Seq<u8>, p: int) -> Option<int> {
    let q = whitespace(s, p);
    if q > p {
        Some(q)
    } else {
        None
    }
}

/// A separator, or the end of the text.
pub open spec fn whitespace_or_end(s: Seq<u8>, p: int) -> bool {
    required_whitespace(s, p) is Some || p == s.len()
}

fn spaced_slashes_at(s: &[u8], p: usize) -> (r: usize)
    requires
        p <= s@.len(),
    ensures
        r == spaced_slashes(s@, p as int),
        p <= r <= s@.len(),
{
    let mut i = p;
    while byte_at(s, i, ' ') && i < s.len() && byte_at(s, i + 1, '/')
        invariant
            p <= i <= s@.len(),
            spaced_slashes(s@, p as int) == spaced_slashes(s@, i as int),
        decreases s@.len() - i,
    {
        proof {
            lemma_run_end_bounds(s@, i + 1, '/');
        }
        i = run_end_at(s, i + 1, '/');
    }
    i
}

fn spaced_ms_at(s: &[u8], p: usize) -> (r: usize)
    requires
        p <= s@.len(),
    ensures
        r == spaced_ms(s@, p as int),
        p <= r <= s@.len(),
{
    let mut i = p;
    while byte_at(s, i, ' ') && i < s.len() && byte_at(s, i + 1, 'M')
        invariant
            p <= i <= s@.len(),
            spaced_ms(s@, p as int) == spaced_ms(s@, i as int),
        decreases s@.len() - i,
    {
        i = i + 2;
    }
    i
}

fn m_group_at(s: &[u8], p: usize) -> (r: Option<usize>)
    requires
        p <= s@.len(),
    ensures
        lift_end(r) == m_group(s@, p as int),
        r matches Some(e) ==> p < e <= s@.len(),
{
    let q = spaced_ms_at(s, p);
    if q > p && byte_at(s, q, ' ') {
        Some(q + 1)
    } else {
        None
    }
}

fn m_groups_at(s: &[u8], p: usize) -> (r: usize)
    requires
        p <= s@.len(),
    ensures
        r == m_groups(s@, p as int),
        p <= r <= s@.len(),
{
    let mut i = p;
    loop
        invariant
            p <= i <= s@.len(),
            m_groups(s@, p as int) == m_groups(s@, i as int),
        decreases s@.len() - i,
    {
        match m_group_at(s, i) {
            Some(q) => {
                i = q;
            },
            None => {
                return i;
            },
        }
    }
}

fn whitespace_unit_at(s: &[u8], p: usize) -> (r: Option<usize>)
    requires
        p <= s@.len(),
    ensures
        lift_end(r) == whitespace_unit(s@, p as int),
        r matches Some(e) ==> p < e <= s@.len(),
{
    let q = spaced_slashes_at(s, p);
    if q > p && byte_at(s, q, ' ') {
        return Some(q + 1);
    }
    let m = m_groups_at(s, p);
    if m > p {
        Some(m)
    } else if byte_at(s, p, ' ') {
        Some(p + 1)
    } else if byte_at(s, p, '\r') && byte_at(s, p + 1, '\n') {
        Some(p + 2)
    } else if byte_at(s, p, '\n') || byte_at(s, p, '\t') || byte_at(s, p, '>') {
        Some(p + 1)
    } else {
        None
    }
}

/// Skips the separator at `p`; notes whitespace as expected when there is
/// none.
pub fn whitespace_at(s: &[u8], p: usize, err: &mut ParseError) -> (r: usize)
    requires
        p <= s@.len(),
        old(err).wf(s@.len() as int),
    ensures
        r == whitespace(s@, p as int),
        p <= r <= s@.len(),
        final(err).wf(s@.len() as int),
        final(err).state() == whitespace_failure(s@, p as int, old(err).state()),
{
    let mut i = p;
    loop
        invariant
            p <= i <= s@.len(),
            whitespace(s@, p as int) == whitespace(s@, i as int),
        ensures
            p <= i <= s@.len(),
            whitespace(s@, p as int) == i,
        decreases s@.len() - i,
    {
        match whitespace_unit_at(s, i) {
            Some(q) => {
                i = q;
            },
            None => {
                break;
            },
        }
    }
    if i == p {
        err.note(p, Expected::Whitespace);
    }
    i
}

/// Matches a separator of at least one unit at `p`.
pub fn required_whitespace_at(s: &[u8], p: usize, err: &mut ParseError) -> (r: Option<usize>)
    requires
        p <= s@.len(),
        old(err).wf(s@.len() as int),
    ensures
        lift_end(r) == required_whitespace(s@, p as int),
        r matches Some(e) ==> p < e <= s@.len(),
        final(err).wf(s@.len() as int),
{
    let q = whitespace_at(s, p, err);
    if q > p {
        Some(q)
    } else {
        None
    }
}

/// Tests for a separator or the end of the text at `p`, without noting
/// anything.
pub fn whitespace_or_end_at(s: &[u8], p: usize) -> (r: bool)
    requires
        p <= s@.len(),
    ensures
        r == whitespace_or_end(s@, p as int),
{
    let mut scratch = ParseError::start();
    required_whitespace_at(s, p, &mut scratch).is_some() || p == s.len()
}

} // verus!
