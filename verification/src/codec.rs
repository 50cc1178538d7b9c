//! Serial protocol codec: board status bitfield, command rendering and
//! reply-line parsing.
//!
//! Wire format: one ASCII line per frame. Outbound frames are
//! `<OPCODE> [ARG]*\n`; inbound frames are `<STATUS> <OPCODE> [ARG]*\n`
//! where the status token is `OK` for success. Tokens are separated by
//! whitespace and compared case-insensitively. Numeric readings are decimal
//! and are held as fixed-point thousandths.

use vstd::prelude::*;

verus! {

// ---------------------------------------------------------------------------
// Status bitfield
// ---------------------------------------------------------------------------

pub const STATUS_NONE: u32 = 0;
pub const TDS_CONNECTED: u32 = 0x1;
pub const PH_CONNECTED: u32 = 0x4;
pub const TEMPERATURE_CONNECTED: u32 = 0x8;
pub const OSMOS_SWITCH_OPENED: u32 = 0x10;
pub const OSMOS_SWITCH_OPENING: u32 = 0x20;
pub const OSMOS_SWITCH_CLOSING: u32 = 0x40;
pub const OSMOS_SWITCH_CLOSED: u32 = 0x80;
pub const PERISTALIC_PUMP_ON: u32 = 0x100;
pub const PERISTALIC_PUMP_REV: u32 = 0x200;
pub const BRONCHUS_STANDBY_FULL: u32 = 0x400;
pub const BRONCHUS_STANDBY_SAMPLING: u32 = 0x800;
pub const BRONCHUS_WAIT_FULL: u32 = 0x1000;
pub const BRONCHUS_WAIT_EMPTY: u32 = 0x2000;
pub const BREATHING: u32 = 0x4000;

/// Union of every bit the board is known to report.
pub const STATUS_KNOWN_BITS: u32 = 0x7FFD;

/// Set of independent flags reported by the board on every filtered read.
#[derive(Clone, Copy, Debug, PartialEq, Eq, Structural)]
pub struct Status {
    pub bits: u32,
}

impl Status {
    /// Every set bit is one of the named flags.
    pub open spec fn wf(self) -> bool {
        self.bits & STATUS_KNOWN_BITS == self.bits
    }

    pub open spec fn spec_from_bits(bits: u32) -> Option<Status> {
        if bits & STATUS_KNOWN_BITS == bits {
            Some(Status { bits })
        } else {
            None
        }
    }

    /// Decode the raw 32-bit status word. The whole field is rejected
    /// whenever a bit outside the known set is present.
    pub fn from_bits(bits: u32) -> (r: Option<Status>)
        ensures
            r == Status::spec_from_bits(bits),
            r is Some <==> bits & STATUS_KNOWN_BITS == bits,
            r matches Some(s) ==> s.bits == bits && s.wf(),
    {
        if bits & STATUS_KNOWN_BITS == bits {
            Some(Status { bits })
        } else {
            None
        }
    }

    /// The empty flag set.
    pub fn none() -> (r: Status)
        ensures
            r.bits == 0,
            r.wf(),
    {
        proof {
            assert(0u32 & STATUS_KNOWN_BITS == 0u32) by (bit_vector);
        }
        Status { bits: 0 }
    }

    pub open spec fn spec_contains(self, flag: u32) -> bool {
        self.bits & flag == flag
    }

    /// True when every bit of `flag` is set.
    pub fn contains(&self, flag: u32) -> (r: bool)
        ensures
            r == self.spec_contains(flag),
    {
        self.bits & flag == flag
    }
}

// ---------------------------------------------------------------------------
// Tokenizer: split a line on whitespace, upper-case each token
// ---------------------------------------------------------------------------

/// Whitespace bytes that separate tokens: space, tab, carriage return, newline.
pub open spec fn is_ws(b: u8) -> bool {
    b == 32 || b == 9 || b == 13 || b == 10
}

/// ASCII upper-casing of one byte.
pub open spec fn spec_upper(b: u8) -> u8 {
    if 97 <= b && b <= 122 {
        (b - 32) as u8
    } else {
        b
    }
}

pub open spec fn upper_seq(s: Seq<u8>) -> Seq<u8> {
    s.map_values(|b: u8| spec_upper(b))
}

/// Length of the maximal non-whitespace prefix of `s`.
pub open spec fn token_len(s: Seq<u8>) -> int
    decreases s.len(),
{
    if s.len() == 0 || is_ws(s[0]) {
        0
    } else {
        1 + token_len(s.skip(1))
    }
}

pub proof fn lemma_token_len_bounds(s: Seq<u8>)
    ensures
        0 <= token_len(s) <= s.len(),
        forall|i: int| 0 <= i < token_len(s) ==> !is_ws(s[i]),
        token_len(s) < s.len() ==> is_ws(s[token_len(s)]),
        s.len() > 0 && !is_ws(s[0]) ==> token_len(s) >= 1,
    decreases s.len(),
{
    if s.len() == 0 || is_ws(s[0]) {
    } else {
        lemma_token_len_bounds(s.skip(1));
        assert forall|i: int| 0 <= i < token_len(s) implies !is_ws(s[i]) by {
            if i >= 1 {
                assert(s.skip(1)[i - 1] == s[i]);
            }
        }
        if token_len(s) < s.len() {
            assert(s.skip(1)[token_len(s) - 1] == s[token_len(s)]);
        }
    }
}

/// A maximal run of `k` non-whitespace bytes at the front pins `token_len`.
pub proof fn lemma_token_len_determined(s: Seq<u8>, k: int)
    requires
        0 <= k <= s.len(),
        forall|i: int| 0 <= i < k ==> !is_ws(s[i]),
        k == s.len() || is_ws(s[k]),
    ensures
        token_len(s) == k,
{
    lemma_token_len_bounds(s);
    if token_len(s) < k {
        assert(!is_ws(s[token_len(s)]));
    }
    if token_len(s) > k {
        assert(!is_ws(s[k]));
    }
}

/// The whitespace-separated tokens of `s`, in order.
pub open spec fn tokenize(s: Seq<u8>) -> Seq<Seq<u8>>
    decreases s.len(),
    via tokenize_decreases
{
    if s.len() == 0 {
        Seq::empty()
    } else if is_ws(s[0]) {
        tokenize(s.skip(1))
    } else {
        seq![s.take(token_len(s))] + tokenize(s.skip(token_len(s)))
    }
}

#[via_fn]
proof fn tokenize_decreases(s: Seq<u8>) {
    lemma_token_len_bounds(s);
}

/// Tokens of a line, upper-cased: the alphabet the parser works over.
pub open spec fn upper_tokens(s: Seq<u8>) -> Seq<Seq<u8>> {
    tokenize(s).map_values(|t: Seq<u8>| upper_seq(t))
}

fn is_ws_byte(b: u8) -> (r: bool)
    ensures
        r == is_ws(b),
{
    b == 32 || b == 9 || b == 13 || b == 10
}

fn upper_byte(b: u8) -> (r: u8)
    ensures
        r == spec_upper(b),
{
    if 97 <= b && b <= 122 {
        b - 32
    } else {
        b
    }
}

/// Split `s` into whitespace-separated tokens and upper-case them.
fn tokenize_upper(s: &[u8]) -> (r: Vec<Vec<u8>>)
    ensures
        r.deep_view() == upper_tokens(s@),
{
    let ghost whole: Seq<u8> = s@;
    let mut toks: Vec<Vec<u8>> = Vec::new();
    let mut i: usize = 0;
    proof {
        assert(whole.skip(0) =~= whole);
        assert(toks.deep_view() =~= Seq::<Seq<u8>>::empty());
        assert(toks.deep_view() + upper_tokens(whole) =~= upper_tokens(whole));
    }
    while i < s.len()
        invariant
            i <= s.len(),
            whole == s@,
            toks.deep_view() + upper_tokens(whole.skip(i as int)) == upper_tokens(whole),
        decreases s.len() - i,
    {
        if is_ws_byte(s[i]) {
            proof {
                let rest = whole.skip(i as int);
                assert(rest.skip(1) =~= whole.skip(i + 1));
                assert(tokenize(rest) == tokenize(whole.skip(i + 1)));
            }
            i = i + 1;
        } else {
            let mut j: usize = i;
            let mut tok: Vec<u8> = Vec::new();
            while j < s.len() && !is_ws_byte(s[j])
                invariant
                    i <= j <= s.len(),
                    whole == s@,
                    forall|k: int| i <= k < j ==> !is_ws(whole[k]),
                    tok@ == upper_seq(whole.subrange(i as int, j as int)),
                decreases s.len() - j,
            {
                let ghost before: Seq<u8> = whole.subrange(i as int, j as int);
                tok.push(upper_byte(s[j]));
                proof {
                    let after = whole.subrange(i as int, j + 1);
                    assert(after.drop_last() =~= before);
                    assert(upper_seq(after) =~= upper_seq(before).push(spec_upper(whole[j as int])));
                }
                j = j + 1;
            }
            proof {
                let rest = whole.skip(i as int);
                lemma_token_len_determined(rest, j - i);
                assert(rest.take(j - i) =~= whole.subrange(i as int, j as int));
                assert(rest.skip(j - i) =~= whole.skip(j as int));
                assert(tokenize(rest) == seq![whole.subrange(i as int, j as int)]
                    + tokenize(whole.skip(j as int)));
                assert(upper_tokens(whole.skip(i as int)) =~= seq![
                    upper_seq(whole.subrange(i as int, j as int)),
                ] + upper_tokens(whole.skip(j as int)));
            }
            let ghost old_toks = toks.deep_view();
            toks.push(tok);
            proof {
                assert(tok.deep_view() =~= tok@);
                assert(toks.deep_view() =~= old_toks.push(tok@));
                assert(toks.deep_view() + upper_tokens(whole.skip(j as int)) =~= old_toks
                    + upper_tokens(whole.skip(i as int)));
            }
            i = j;
        }
    }
    proof {
        assert(whole.skip(i as int) =~= Seq::<u8>::empty());
        assert(upper_tokens(whole.skip(i as int)) =~= Seq::<Seq<u8>>::empty());
        assert(toks.deep_view() =~= upper_tokens(whole));
    }
    toks
}

// ---------------------------------------------------------------------------
// Numeric tokens
// ---------------------------------------------------------------------------

pub open spec fn is_digit(b: u8) -> bool {
    48 <= b && b <= 57
}

pub open spec fn all_digits(s: Seq<u8>) -> bool {
    forall|i: int| 0 <= i < s.len() ==> is_digit(s[i])
}

/// Value of a run of decimal digit bytes, most significant first.
pub open spec fn digits_val(s: Seq<u8>) -> int
    decreases s.len(),
{
    if s.len() == 0 {
        0
    } else {
        digits_val(s.take(s.len() - 1)) * 10 + (s[s.len() - 1] - 48)
    }
}

pub open spec fn pow10(n: nat) -> int
    decreases n,
{
    if n == 0 {
        1
    } else {
        10 * pow10((n - 1) as nat)
    }
}

pub proof fn lemma_digits_val_bound(s: Seq<u8>)
    requires
        all_digits(s),
    ensures
        0 <= digits_val(s) < pow10(s.len()),
    decreases s.len(),
{
    if s.len() > 0 {
        assert(all_digits(s.take(s.len() - 1)));
        lemma_digits_val_bound(s.take(s.len() - 1));
    }
}

/// Extending a digit run by one digit multiplies its value by ten.
pub proof fn lemma_digits_val_step(s: Seq<u8>, a: int, k: int)
    requires
        0 <= a <= k < s.len(),
    ensures
        digits_val(s.subrange(a, k + 1)) == digits_val(s.subrange(a, k)) * 10 + (s[k] - 48),
{
    let p = s.subrange(a, k + 1);
    assert(p.take(p.len() - 1) =~= s.subrange(a, k));
}

/// Index of the first `.` in `s`, or `s.len()` if there is none.
pub open spec fn dot_pos(s: Seq<u8>) -> int
    decreases s.len(),
{
    if s.len() == 0 {
        0
    } else if s[0] == 46 {
        0
    } else {
        1 + dot_pos(s.skip(1))
    }
}

pub proof fn lemma_dot_pos_determined(s: Seq<u8>, k: int)
    requires
        0 <= k <= s.len(),
        forall|i: int| 0 <= i < k ==> s[i] != 46,
        k == s.len() || s[k] == 46,
    ensures
        dot_pos(s) == k,
    decreases s.len(),
{
    if s.len() > 0 && s[0] != 46 {
        let r = s.skip(1);
        assert(forall|i: int| 0 <= i < k - 1 ==> r[i] == s[i + 1] && s[i + 1] != 46);
        if k - 1 < r.len() {
            assert(r[k - 1] == s[k]);
        }
        lemma_dot_pos_determined(r, k - 1);
    }
}

pub open spec fn milli_neg(s: Seq<u8>) -> bool {
    s.len() > 0 && s[0] == 45
}

pub open spec fn sign_off(s: Seq<u8>) -> int {
    if s.len() > 0 && (s[0] == 43 || s[0] == 45) {
        1
    } else {
        0
    }
}

pub open spec fn milli_int_part(s: Seq<u8>) -> Seq<u8> {
    let d = s.skip(sign_off(s));
    d.take(dot_pos(d))
}

pub open spec fn milli_frac_part(s: Seq<u8>) -> Seq<u8> {
    let d = s.skip(sign_off(s));
    if dot_pos(d) < d.len() {
        d.skip(dot_pos(d) + 1)
    } else {
        Seq::empty()
    }
}

/// Grammar of a reading: optional sign, then decimal digits with an optional
/// point; at least one digit in all, at most twelve before the point and at
/// most three after it.
pub open spec fn milli_valid(s: Seq<u8>) -> bool {
    let ip = milli_int_part(s);
    let fp = milli_frac_part(s);
    &&& all_digits(ip)
    &&& all_digits(fp)
    &&& ip.len() + fp.len() >= 1
    &&& ip.len() <= 12
    &&& fp.len() <= 3
}

/// The reading in thousandths, exact for up to three decimal places.
pub open spec fn milli_value(s: Seq<u8>) -> int {
    let ip = milli_int_part(s);
    let fp = milli_frac_part(s);
    let mag = digits_val(ip) * 1000 + digits_val(fp) * pow10((3 - fp.len()) as nat);
    if milli_neg(s) {
        -mag
    } else {
        mag
    }
}

pub open spec fn spec_parse_milli(s: Seq<u8>) -> Option<i64> {
    if milli_valid(s) {
        Some(milli_value(s) as i64)
    } else {
        None
    }
}

/// Parse a decimal reading token into fixed-point thousandths.
#[verifier::rlimit(100)]
#[verifier::spinoff_prover]
#[verifier::loop_isolation(false)]
pub fn parse_milli(t: &Vec<u8>) -> (r: Option<i64>)
    ensures
        r == spec_parse_milli(t@),
{
    let ghost s = t@;
    let n = t.len();
    let mut off: usize = 0;
    let mut neg = false;
    if n > 0 && (t[0] == 43 || t[0] == 45) {
        neg = t[0] == 45;
        off = 1;
    }
    proof {
        assert(off as int == sign_off(s));
        assert(neg == milli_neg(s));
    }
    let ghost d = s.skip(off as int);

    // locate the decimal point
    let mut p: usize = off;
    while p < n && t[p] != 46
        invariant
            off <= p <= n,
            n == t.len(),
            s == t@,
            forall|k: int| off <= k < p ==> s[k] != 46,
        decreases n - p,
    {
        p = p + 1;
    }
    proof {
        assert(forall|i: int| 0 <= i < p - off ==> d[i] == s[off + i]);
        if p < n {
            assert(d[p - off] == s[p as int]);
        }
        lemma_dot_pos_determined(d, p - off);
        assert(milli_int_part(s) =~= s.subrange(off as int, p as int));
        if p < n {
            assert(milli_frac_part(s) =~= s.subrange(p + 1, n as int));
        } else {
            assert(milli_frac_part(s) =~= Seq::<u8>::empty());
        }
    }

    if p - off > 12 {
        return None;
    }

    // integer digits
    let mut int_acc: u64 = 0;
    let mut k: usize = off;
    proof {
        assert(s.subrange(off as int, off as int) =~= Seq::<u8>::empty());
    }
    while k < p
        invariant
            off <= k <= p <= n,
            p - off <= 12,
            n == t.len(),
            s == t@,
            forall|i: int| off <= i < k ==> is_digit(s[i]),
            int_acc == digits_val(s.subrange(off as int, k as int)),
            all_digits(s.subrange(off as int, k as int)),
        decreases p - k,
    {
        let b = t[k];
        if b < 48 || b > 57 {
            proof {
                assert(!is_digit(milli_int_part(s)[k - off]));
            }
            return None;
        }
        proof {
            lemma_digits_val_step(s, off as int, k as int);
            lemma_digits_val_bound(s.subrange(off as int, k as int));
            lemma_pow10_mono(((k - off) as nat), 11);
            lemma_pow10_vals();
            assert(s.subrange(off as int, k + 1) =~= s.subrange(off as int, k as int).push(
                s[k as int],
            ));
            assert(all_digits(s.subrange(off as int, k + 1)));
        }
        int_acc = int_acc * 10 + (b - 48) as u64;
        k = k + 1;
    }
    proof {
        lemma_digits_val_bound(s.subrange(off as int, p as int));
        lemma_pow10_mono(((p - off) as nat), 12);
        lemma_pow10_vals();
    }

    // fraction digits
    let mut frac_acc: u64 = 0;
    let mut frac_len: usize = 0;
    if p < n {
        let fstart = p + 1;
        if n - fstart > 3 {
            return None;
        }
        let mut k2: usize = fstart;
        proof {
            assert(s.subrange(fstart as int, fstart as int) =~= Seq::<u8>::empty());
        }
        while k2 < n
            invariant
                p < n,
                fstart == p + 1,
                fstart <= k2 <= n,
                n - fstart <= 3,
                n == t.len(),
                s == t@,
                forall|i: int| fstart <= i < k2 ==> is_digit(s[i]),
                frac_acc == digits_val(s.subrange(fstart as int, k2 as int)),
                all_digits(s.subrange(fstart as int, k2 as int)),
            decreases n - k2,
        {
            let b = t[k2];
            if b < 48 || b > 57 {
                proof {
                    assert(!is_digit(milli_frac_part(s)[k2 - fstart]));
                }
                return None;
            }
            proof {
                lemma_digits_val_step(s, fstart as int, k2 as int);
                lemma_digits_val_bound(s.subrange(fstart as int, k2 as int));
                lemma_pow10_mono(((k2 - fstart) as nat), 2);
                lemma_pow10_vals();
                assert(s.subrange(fstart as int, k2 + 1) =~= s.subrange(
                    fstart as int,
                    k2 as int,
                ).push(s[k2 as int]));
                assert(all_digits(s.subrange(fstart as int, k2 + 1)));
            }
            frac_acc = frac_acc * 10 + (b - 48) as u64;
            k2 = k2 + 1;
        }
        frac_len = n - fstart;
        proof {
            lemma_digits_val_bound(s.subrange(fstart as int, n as int));
            lemma_pow10_mono(((n - fstart) as nat), 3);
            lemma_pow10_vals();
        }
    }

    if p == off && frac_len == 0 {
        return None;
    }

    let scale: u64 = if frac_len == 0 {
        1000
    } else if frac_len == 1 {
        100
    } else if frac_len == 2 {
        10
    } else {
        1
    };
    proof {
        lemma_pow10_vals();
        assert(scale == pow10((3 - frac_len) as nat));
        assert(int_acc < 1000000000000);
        assert(frac_acc < 1000);
        assert(frac_acc * scale <= 1000000) by (nonlinear_arith)
            requires
                frac_acc < 1000,
                scale <= 1000,
        ;
    }
    let mag: u64 = int_acc * 1000 + frac_acc * scale;
    let v: i64 = if neg {
        -(mag as i64)
    } else {
        mag as i64
    };
    proof {
        assert(milli_valid(s));
        assert(mag == digits_val(milli_int_part(s)) * 1000 + digits_val(milli_frac_part(s))
            * pow10((3 - milli_frac_part(s).len()) as nat));
        assert(v == milli_value(s) as i64);
    }
    Some(v)
}

pub proof fn lemma_pow10_vals()
    ensures
        pow10(0) == 1,
        pow10(1) == 10,
        pow10(2) == 100,
        pow10(3) == 1000,
        pow10(9) == 1000000000,
        pow10(11) == 100000000000,
        pow10(12) == 1000000000000,
{
    reveal_with_fuel(pow10, 13);
}

pub proof fn lemma_pow10_mono(a: nat, b: nat)
    requires
        a <= b,
    ensures
        pow10(a) <= pow10(b),
        pow10(a) >= 1,
    decreases b,
{
    if a == b {
        lemma_pow10_pos(a);
    } else {
        lemma_pow10_mono(a, (b - 1) as nat);
    }
}

pub proof fn lemma_pow10_pos(n: nat)
    ensures
        pow10(n) >= 1,
    decreases n,
{
    if n > 0 {
        lemma_pow10_pos((n - 1) as nat);
    }
}

/// A `STATUS` argument: plain decimal digits forming a 32-bit unsigned value.
pub open spec fn spec_parse_u32(s: Seq<u8>) -> Option<u32> {
    if 1 <= s.len() <= 10 && all_digits(s) && digits_val(s) < 0x100000000 {
        Some(digits_val(s) as u32)
    } else {
        None
    }
}

#[verifier::loop_isolation(false)]
pub fn parse_u32(t: &Vec<u8>) -> (r: Option<u32>)
    ensures
        r == spec_parse_u32(t@),
{
    let ghost s = t@;
    let n = t.len();
    if n < 1 || n > 10 {
        return None;
    }
    let mut acc: u64 = 0;
    let mut k: usize = 0;
    proof {
        assert(s.subrange(0, 0) =~= Seq::<u8>::empty());
    }
    while k < n
        invariant
            0 <= k <= n <= 10,
            n == t.len(),
            s == t@,
            forall|i: int| 0 <= i < k ==> is_digit(s[i]),
            acc == digits_val(s.subrange(0, k as int)),
            all_digits(s.subrange(0, k as int)),
        decreases n - k,
    {
        let b = t[k];
        if b < 48 || b > 57 {
            return None;
        }
        proof {
            lemma_digits_val_step(s, 0, k as int);
            lemma_digits_val_bound(s.subrange(0, k as int));
            lemma_pow10_mono((k as nat), 9);
            lemma_pow10_vals();
            assert(s.subrange(0, k + 1) =~= s.subrange(0, k as int).push(s[k as int]));
            assert(all_digits(s.subrange(0, k + 1)));
        }
        acc = acc * 10 + (b - 48) as u64;
        k = k + 1;
    }
    proof {
        assert(s.subrange(0, n as int) =~= s);
    }
    if acc > 0xFFFFFFFF {
        return None;
    }
    Some(acc as u32)
}

// ---------------------------------------------------------------------------
// Replies and commands
// ---------------------------------------------------------------------------

// ASCII bytes used by the wire format.
pub const B_NL: u8 = 10;
pub const B_SP: u8 = 32;
pub const B_0: u8 = 48;
pub const B_1: u8 = 49;
pub const B_A: u8 = 65;
pub const B_D: u8 = 68;
pub const B_F: u8 = 70;
pub const B_G: u8 = 71;
pub const B_H: u8 = 72;
pub const B_K: u8 = 75;
pub const B_N: u8 = 78;
pub const B_O: u8 = 79;
pub const B_P: u8 = 80;
pub const B_S: u8 = 83;
pub const B_T: u8 = 84;
pub const B_U: u8 = 85;

/// Optional readings carried by a `G0` or `G1` reply, in thousandths.
#[derive(Clone, Copy, Debug, PartialEq, Eq)]
pub struct ReadFields {
    pub tds_1: Option<i64>,
    pub ph_1: Option<i64>,
    pub t_1: Option<i64>,
    pub status: Option<Status>,
}

pub open spec fn empty_fields() -> ReadFields {
    ReadFields { tds_1: None, ph_1: None, t_1: None, status: None }
}

/// A reply line from the board, tagged with its opcode.
#[derive(Clone, Debug, PartialEq, Eq)]
pub enum SerialCommandResult {
    G0 { tds_1: Option<i64>, ph_1: Option<i64>, t_1: Option<i64>, status: Option<Status> },
    G1 { tds_1: Option<i64>, ph_1: Option<i64>, t_1: Option<i64>, status: Option<Status> },
    S0 { on: Option<bool> },
    S1 { on: Option<bool> },
    Unknown { raw: String },
}

/// A request to the board.
#[derive(Clone, Copy, Debug, PartialEq, Eq, Structural)]
pub enum SerialCommand {
    /// Read raw sensor values.
    G0,
    /// Read filtered sensor values and the status word.
    G1,
    /// Drive the osmosis valve.
    S0 { on: bool },
}

// ---------------------------------------------------------------------------
// Token-level parser
// ---------------------------------------------------------------------------

/// Key/value arguments of a read reply, folded left to right; an unknown key
/// or an unparsable value rejects the whole line, a later key overrides an
/// earlier one, and a trailing key without a value is rejected.
pub open spec fn spec_parse_body(toks: Seq<Seq<u8>>, i: int, acc: ReadFields) -> Option<ReadFields>
    decreases toks.len() - i,
{
    if i >= toks.len() {
        Some(acc)
    } else if i + 1 >= toks.len() {
        None
    } else {
        let key = toks[i];
        let val = toks[i + 1];
        if key == seq![B_T, B_D, B_S, B_1] {
            match spec_parse_milli(val) {
                Some(v) => spec_parse_body(toks, i + 2, ReadFields { tds_1: Some(v), ..acc }),
                None => None,
            }
        } else if key == seq![B_P, B_H, B_1] {
            match spec_parse_milli(val) {
                Some(v) => spec_parse_body(toks, i + 2, ReadFields { ph_1: Some(v), ..acc }),
                None => None,
            }
        } else if key == seq![B_T, B_1] {
            match spec_parse_milli(val) {
                Some(v) => spec_parse_body(toks, i + 2, ReadFields { t_1: Some(v), ..acc }),
                None => None,
            }
        } else if key == seq![B_S, B_T, B_A, B_T, B_U, B_S] {
            match spec_parse_u32(val) {
                Some(u) => spec_parse_body(
                    toks,
                    i + 2,
                    ReadFields { status: Status::spec_from_bits(u), ..acc },
                ),
                None => None,
            }
        } else {
            None
        }
    }
}

/// Optional `ON`/`OFF` argument of an actuator reply: any third token other
/// than `ON` reads as off, a missing third token as unreported.
pub open spec fn spec_on_arg(toks: Seq<Seq<u8>>) -> Option<bool> {
    if toks.len() >= 3 {
        Some(toks[2] == seq![B_O, B_N])
    } else {
        None
    }
}

/// Parse an upper-cased token sequence: status token, opcode, arguments.
/// The parse fails when the status token or the opcode is missing, when the
/// opcode is not recognised, or when a read body is malformed.
pub open spec fn spec_parse_tokens(toks: Seq<Seq<u8>>) -> Option<(SerialCommandResult, bool)> {
    if toks.len() < 2 {
        None
    } else {
        let success = toks[0] == seq![B_O, B_K];
        let op = toks[1];
        if op == seq![B_S, B_0] {
            Some((SerialCommandResult::S0 { on: spec_on_arg(toks) }, success))
        } else if op == seq![B_S, B_1] {
            Some((SerialCommandResult::S1 { on: spec_on_arg(toks) }, success))
        } else if op == seq![B_G, B_0] {
            match spec_parse_body(toks, 2, empty_fields()) {
                Some(f) => Some(
                    (
                        SerialCommandResult::G0 {
                            tds_1: f.tds_1,
                            ph_1: f.ph_1,
                            t_1: f.t_1,
                            status: f.status,
                        },
                        success,
                    ),
                ),
                None => None,
            }
        } else if op == seq![B_G, B_1] {
            match spec_parse_body(toks, 2, empty_fields()) {
                Some(f) => Some(
                    (
                        SerialCommandResult::G1 {
                            tds_1: f.tds_1,
                            ph_1: f.ph_1,
                            t_1: f.t_1,
                            status: f.status,
                        },
                        success,
                    ),
                ),
                None => None,
            }
        } else {
            None
        }
    }
}

/// What a reply line means: its whitespace-separated, upper-cased tokens,
/// parsed.
pub open spec fn spec_parse_line(s: Seq<u8>) -> Option<(SerialCommandResult, bool)> {
    spec_parse_tokens(upper_tokens(s))
}

fn tok2(t: &Vec<u8>, b0: u8, b1: u8) -> (r: bool)
    ensures
        r == (t@ == seq![b0, b1]),
{
    let r = t.len() == 2 && t[0] == b0 && t[1] == b1;
    proof {
        if r {
            assert(t@ =~= seq![b0, b1]);
        }
    }
    r
}

fn tok3(t: &Vec<u8>, b0: u8, b1: u8, b2: u8) -> (r: bool)
    ensures
        r == (t@ == seq![b0, b1, b2]),
{
    let r = t.len() == 3 && t[0] == b0 && t[1] == b1 && t[2] == b2;
    proof {
        if r {
            assert(t@ =~= seq![b0, b1, b2]);
        }
    }
    r
}

fn tok4(t: &Vec<u8>, b0: u8, b1: u8, b2: u8, b3: u8) -> (r: bool)
    ensures
        r == (t@ == seq![b0, b1, b2, b3]),
{
    let r = t.len() == 4 && t[0] == b0 && t[1] == b1 && t[2] == b2 && t[3] == b3;
    proof {
        if r {
            assert(t@ =~= seq![b0, b1, b2, b3]);
        }
    }
    r
}

fn tok6(t: &Vec<u8>, b0: u8, b1: u8, b2: u8, b3: u8, b4: u8, b5: u8) -> (r: bool)
    ensures
        r == (t@ == seq![b0, b1, b2, b3, b4, b5]),
{
    let r = t.len() == 6 && t[0] == b0 && t[1] == b1 && t[2] == b2 && t[3] == b3 && t[4] == b4
        && t[5] == b5;
    proof {
        if r {
            assert(t@ =~= seq![b0, b1, b2, b3, b4, b5]);
        }
    }
    r
}

impl SerialCommandResult {
    /// Parse one reply line into a typed reply and its success flag.
    #[verifier::loop_isolation(false)]
    pub fn parse_line(line: &[u8]) -> (r: Option<(SerialCommandResult, bool)>)
        ensures
            r == spec_parse_line(line@),
    {
        let toks = tokenize_upper(line);
        let ghost tv = toks.deep_view();
        proof {
            assert forall|k: int| 0 <= k < toks@.len() implies tv[k] == toks@[k]@ by {
                assert(toks@[k].deep_view() =~= toks@[k]@);
            }
        }
        if toks.len() < 2 {
            return None;
        }
        let success = tok2(&toks[0], B_O, B_K);
        if tok2(&toks[1], B_S, B_0) {
            let on = if toks.len() >= 3 {
                Some(tok2(&toks[2], B_O, B_N))
            } else {
                None
            };
            Some((SerialCommandResult::S0 { on }, success))
        } else if tok2(&toks[1], B_S, B_1) {
            let on = if toks.len() >= 3 {
                Some(tok2(&toks[2], B_O, B_N))
            } else {
                None
            };
            Some((SerialCommandResult::S1 { on }, success))
        } else if tok2(&toks[1], B_G, B_0) || tok2(&toks[1], B_G, B_1) {
            let is_g1 = tok2(&toks[1], B_G, B_1);
            let mut acc = ReadFields { tds_1: None, ph_1: None, t_1: None, status: None };
            let mut i: usize = 2;
            while i < toks.len()
                invariant
                    2 <= i,
                    spec_parse_body(tv, 2, empty_fields()) == spec_parse_body(tv, i as int, acc),
                decreases toks.len() - i,
            {
                if i + 1 >= toks.len() {
                    return None;
                }
                let key = &toks[i];
                if tok4(key, B_T, B_D, B_S, B_1) {
                    match parse_milli(&toks[i + 1]) {
                        Some(v) => {
                            acc = ReadFields { tds_1: Some(v), ..acc };
                        },
                        None => {
                            return None;
                        },
                    }
                } else if tok3(key, B_P, B_H, B_1) {
                    match parse_milli(&toks[i + 1]) {
                        Some(v) => {
                            acc = ReadFields { ph_1: Some(v), ..acc };
                        },
                        None => {
                            return None;
                        },
                    }
                } else if tok2(key, B_T, B_1) {
                    match parse_milli(&toks[i + 1]) {
                        Some(v) => {
                            acc = ReadFields { t_1: Some(v), ..acc };
                        },
                        None => {
                            return None;
                        },
                    }
                } else if tok6(key, B_S, B_T, B_A, B_T, B_U, B_S) {
                    match parse_u32(&toks[i + 1]) {
                        Some(u) => {
                            acc = ReadFields { status: Status::from_bits(u), ..acc };
                        },
                        None => {
                            return None;
                        },
                    }
                } else {
                    return None;
                }
                i = i + 2;
            }
            if is_g1 {
                Some(
                    (
                        SerialCommandResult::G1 {
                            tds_1: acc.tds_1,
                            ph_1: acc.ph_1,
                            t_1: acc.t_1,
                            status: acc.status,
                        },
                        success,
                    ),
                )
            } else {
                Some(
                    (
                        SerialCommandResult::G0 {
                            tds_1: acc.tds_1,
                            ph_1: acc.ph_1,
                            t_1: acc.t_1,
                            status: acc.status,
                        },
                        success,
                    ),
                )
            }
        } else {
            None
        }
    }
}

// ---------------------------------------------------------------------------
// Renderer
// ---------------------------------------------------------------------------

impl SerialCommand {
    /// The exact bytes of a rendered command: opcode, arguments, one newline.
    pub open spec fn spec_render(self) -> Seq<u8> {
        match self {
            SerialCommand::G0 => seq![B_G, B_0, B_NL],
            SerialCommand::G1 => seq![B_G, B_1, B_NL],
            SerialCommand::S0 { on } => if on {
                seq![B_S, B_0, B_SP, B_O, B_N, B_NL]
            } else {
                seq![B_S, B_0, B_SP, B_O, B_F, B_F, B_NL]
            },
        }
    }

    /// Render the command for the wire. Deterministic: same command, same
    /// bytes; no leading whitespace, exactly one trailing newline.
    pub fn render(&self) -> (r: Vec<u8>)
        ensures
            r@ == self.spec_render(),
    {
        let mut v: Vec<u8> = Vec::new();
        match self {
            SerialCommand::G0 => {
                v.push(B_G);
                v.push(B_0);
                v.push(B_NL);
                proof {
                    assert(v@ =~= self.spec_render());
                }
            },
            SerialCommand::G1 => {
                v.push(B_G);
                v.push(B_1);
                v.push(B_NL);
                proof {
                    assert(v@ =~= self.spec_render());
                }
            },
            SerialCommand::S0 { on } => {
                v.push(B_S);
                v.push(B_0);
                v.push(B_SP);
                if *on {
                    v.push(B_O);
                    v.push(B_N);
                    v.push(B_NL);
                } else {
                    v.push(B_O);
                    v.push(B_F);
                    v.push(B_F);
                    v.push(B_NL);
                }
                proof {
                    assert(v@ =~= self.spec_render());
                }
            },
        }
        v
    }
}

// ---------------------------------------------------------------------------
// Round trip
// ---------------------------------------------------------------------------

/// One tokenizer step: a maximal non-whitespace run peels off as a token.
pub proof fn lemma_tokenize_token(s: Seq<u8>, k: int)
    requires
        0 < k <= s.len(),
        forall|i: int| 0 <= i < k ==> !is_ws(s[i]),
        k == s.len() || is_ws(s[k]),
    ensures
        tokenize(s) == seq![s.take(k)] + tokenize(s.skip(k)),
{
    lemma_token_len_determined(s, k);
}

/// One tokenizer step: leading whitespace is dropped.
pub proof fn lemma_tokenize_ws(s: Seq<u8>)
    requires
        s.len() > 0,
        is_ws(s[0]),
    ensures
        tokenize(s) == tokenize(s.skip(1)),
{
}

/// The reply the board sends when it echoes a command successfully.
pub open spec fn echo_reply(c: SerialCommand) -> SerialCommandResult {
    match c {
        SerialCommand::G0 => SerialCommandResult::G0 {
            tds_1: None,
            ph_1: None,
            t_1: None,
            status: None,
        },
        SerialCommand::G1 => SerialCommandResult::G1 {
            tds_1: None,
            ph_1: None,
            t_1: None,
            status: None,
        },
        SerialCommand::S0 { on } => SerialCommandResult::S0 { on: Some(on) },
    }
}

/// The line such an echo arrives on: the success token, then the rendered
/// command (the board answers in lower case; the parser upper-cases).
pub open spec fn echo_line(c: SerialCommand) -> Seq<u8> {
    seq![111u8, 107u8, B_SP] + c.spec_render()
}

/// Round trip: for every command, parsing the board's successful echo of its
/// rendering yields the corresponding reply with the success flag set.
pub proof fn lemma_command_round_trip(c: SerialCommand)
    ensures
        spec_parse_line(echo_line(c)) == Some((echo_reply(c), true)),
{
    let line = echo_line(c);
    match c {
        SerialCommand::G0 => {
            lemma_round_trip_get(line, B_0);
        },
        SerialCommand::G1 => {
            lemma_round_trip_get(line, B_1);
        },
        SerialCommand::S0 { on } => {
            lemma_tokenize_token(line, 2);
            let r1 = line.skip(2);
            lemma_tokenize_ws(r1);
            let r2 = r1.skip(1);
            assert(r2 =~= line.skip(3));
            lemma_tokenize_token(r2, 2);
            let r3 = r2.skip(2);
            lemma_tokenize_ws(r3);
            let r4 = r3.skip(1);
            if on {
                lemma_tokenize_token(r4, 2);
                let r5 = r4.skip(2);
                lemma_tokenize_ws(r5);
                let r6 = r5.skip(1);
                assert(r6 =~= Seq::<u8>::empty());
                assert(tokenize(line) =~= seq![line.take(2), r2.take(2), r4.take(2)]);
                assert(upper_tokens(line) =~= seq![
                    upper_seq(line.take(2)),
                    upper_seq(r2.take(2)),
                    upper_seq(r4.take(2)),
                ]);
                assert(upper_seq(line.take(2)) =~= seq![B_O, B_K]);
                assert(upper_seq(r2.take(2)) =~= seq![B_S, B_0]);
                assert(upper_seq(r4.take(2)) =~= seq![B_O, B_N]);
            } else {
                lemma_tokenize_token(r4, 3);
                let r5 = r4.skip(3);
                lemma_tokenize_ws(r5);
                let r6 = r5.skip(1);
                assert(r6 =~= Seq::<u8>::empty());
                assert(tokenize(line) =~= seq![line.take(2), r2.take(2), r4.take(3)]);
                assert(upper_tokens(line) =~= seq![
                    upper_seq(line.take(2)),
                    upper_seq(r2.take(2)),
                    upper_seq(r4.take(3)),
                ]);
                assert(upper_seq(line.take(2)) =~= seq![B_O, B_K]);
                assert(upper_seq(r2.take(2)) =~= seq![B_S, B_0]);
                assert(upper_seq(r4.take(3)) =~= seq![B_O, B_F, B_F]);
                assert(upper_seq(r4.take(3)) != seq![B_O, B_N]);
            }
        },
    }
}

/// Shared case of the round trip for the two read commands.
proof fn lemma_round_trip_get(line: Seq<u8>, digit: u8)
    requires
        line =~= seq![111u8, 107u8, B_SP, B_G, digit, B_NL],
        digit == B_0 || digit == B_1,
    ensures
        spec_parse_tokens(upper_tokens(line)) == Some(
            (
                if digit == B_0 {
                    SerialCommandResult::G0 { tds_1: None, ph_1: None, t_1: None, status: None }
                } else {
                    SerialCommandResult::G1 { tds_1: None, ph_1: None, t_1: None, status: None }
                },
                true,
            ),
        ),
{
    lemma_tokenize_token(line, 2);
    let r1 = line.skip(2);
    lemma_tokenize_ws(r1);
    let r2 = r1.skip(1);
    assert(r2 =~= line.skip(3));
    lemma_tokenize_token(r2, 2);
    let r3 = r2.skip(2);
    lemma_tokenize_ws(r3);
    let r4 = r3.skip(1);
    assert(r4 =~= Seq::<u8>::empty());
    assert(tokenize(line) =~= seq![line.take(2), r2.take(2)]);
    assert(upper_tokens(line) =~= seq![upper_seq(line.take(2)), upper_seq(r2.take(2))]);
    assert(upper_seq(line.take(2)) =~= seq![B_O, B_K]);
    assert(upper_seq(r2.take(2)) =~= seq![B_G, digit]);
    assert(seq![B_G, digit] != seq![B_S, B_0]);
    assert(seq![B_G, digit] != seq![B_S, B_1]);
}

/// A read body is well-formed: keys drawn from the known set, each followed
/// by a value that parses.
pub open spec fn body_ok(toks: Seq<Seq<u8>>, i: int) -> bool
    decreases toks.len() - i,
{
    if i >= toks.len() {
        true
    } else if i + 1 >= toks.len() {
        false
    } else {
        let key = toks[i];
        let val = toks[i + 1];
        if key == seq![B_T, B_D, B_S, B_1] || key == seq![B_P, B_H, B_1] || key == seq![B_T, B_1] {
            spec_parse_milli(val) is Some && body_ok(toks, i + 2)
        } else if key == seq![B_S, B_T, B_A, B_T, B_U, B_S] {
            spec_parse_u32(val) is Some && body_ok(toks, i + 2)
        } else {
            false
        }
    }
}

/// A line is malformed exactly when the status token or the opcode is
/// missing, the opcode is not recognised, or a read body is not
/// well-formed.
pub open spec fn line_malformed(s: Seq<u8>) -> bool {
    let toks = upper_tokens(s);
    ||| toks.len() < 2
    ||| (toks[1] != seq![B_S, B_0] && toks[1] != seq![B_S, B_1] && toks[1] != seq![B_G, B_0]
        && toks[1] != seq![B_G, B_1])
    ||| ((toks[1] == seq![B_G, B_0] || toks[1] == seq![B_G, B_1]) && !body_ok(toks, 2))
}

proof fn lemma_parse_body_ok(toks: Seq<Seq<u8>>, i: int, acc: ReadFields)
    requires
        i >= 0,
    ensures
        spec_parse_body(toks, i, acc) is Some <==> body_ok(toks, i),
    decreases toks.len() - i,
{
    if i < toks.len() && i + 1 < toks.len() {
        let key = toks[i];
        let val = toks[i + 1];
        if key == seq![B_T, B_D, B_S, B_1] || key == seq![B_P, B_H, B_1] || key == seq![
            B_T,
            B_1,
        ] {
            if spec_parse_milli(val) is Some {
                if key == seq![B_T, B_D, B_S, B_1] {
                    lemma_parse_body_ok(
                        toks,
                        i + 2,
                        ReadFields { tds_1: Some(spec_parse_milli(val).unwrap()), ..acc },
                    );
                } else if key == seq![B_P, B_H, B_1] {
                    lemma_parse_body_ok(
                        toks,
                        i + 2,
                        ReadFields { ph_1: Some(spec_parse_milli(val).unwrap()), ..acc },
                    );
                } else {
                    lemma_parse_body_ok(
                        toks,
                        i + 2,
                        ReadFields { t_1: Some(spec_parse_milli(val).unwrap()), ..acc },
                    );
                }
            }
        } else if key == seq![B_S, B_T, B_A, B_T, B_U, B_S] {
            if spec_parse_u32(val) is Some {
                lemma_parse_body_ok(
                    toks,
                    i + 2,
                    ReadFields {
                        status: Status::spec_from_bits(spec_parse_u32(val).unwrap()),
                        ..acc
                    },
                );
            }
        }
    }
}

/// The other half of the round trip: a parse fails exactly on a malformed
/// line.
pub proof fn lemma_parse_failure_means_malformed(s: Seq<u8>)
    ensures
        spec_parse_line(s) is None <==> line_malformed(s),
{
    let toks = upper_tokens(s);
    if toks.len() >= 2 {
        lemma_parse_body_ok(toks, 2, empty_fields());
    }
}

} // verus!
