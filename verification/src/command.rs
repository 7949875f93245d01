//! Inbound control messages.
//!
//! A client steers the session with small JSON text frames:
//! `{"type":"start","duration":2}`, `{"type":"start"}` or `{"type":"stop"}`.
//! `parse_command` reads one such frame and classifies it as a `Command`.
//! The grammar accepted here is a flat JSON object: string keys, values that
//! are strings (without escape sequences), unsigned integers, or `null`,
//! with arbitrary blank space between tokens and the fields in any order.
//! Unknown keys are ignored; a repeated `type` or `duration` key, a value of
//! the wrong shape, a duration that does not fit in 64 bits, or any text
//! outside that grammar makes the whole message unrecognized, and an
//! unrecognized message is later ignored by the dispatcher.

use vstd::prelude::*;

verus! {

pub const B_QUOTE: u8 = 34;
pub const B_LBRACE: u8 = 123;
pub const B_RBRACE: u8 = 125;
pub const B_COLON: u8 = 58;
pub const B_COMMA: u8 = 44;

/// One parsed control message.
#[derive(Clone, Copy, Debug, PartialEq, Eq)]
pub enum Command {
    /// Begin a measurement loop; `duration` is in seconds when given.
    Start { duration: Option<u64> },
    /// Request that the active loop stop at its next tick boundary.
    Stop,
    /// Anything else: malformed text or an unknown command kind.
    Unrecognized,
}

/// Blank space accepted between JSON tokens.
pub open spec fn ws_byte(c: u8) -> bool {
    c == 32 || c == 9 || c == 10 || c == 13
}

pub open spec fn digit_byte(c: u8) -> bool {
    48 <= c && c <= 57
}

/// First index at or after `i` that does not hold blank space.
pub open spec fn spec_ws_end(s: Seq<u8>, i: int) -> int
    decreases s.len() - i,
{
    if 0 <= i && i < s.len() && ws_byte(s[i]) {
        spec_ws_end(s, i + 1)
    } else {
        i
    }
}

pub proof fn lemma_ws_end(s: Seq<u8>, i: int)
    requires
        0 <= i <= s.len(),
    ensures
        i <= spec_ws_end(s, i) <= s.len(),
    decreases s.len() - i,
{
    if i < s.len() && ws_byte(s[i]) {
        lemma_ws_end(s, i + 1);
    }
}

/// Position of the first quote at or after `i`, if any.
pub open spec fn spec_str_end(s: Seq<u8>, i: int) -> Option<int>
    decreases s.len() - i,
{
    if !(0 <= i && i < s.len()) {
        None
    } else if s[i] == B_QUOTE {
        Some(i)
    } else {
        spec_str_end(s, i + 1)
    }
}

pub proof fn lemma_str_end(s: Seq<u8>, i: int)
    requires
        0 <= i,
    ensures
        match spec_str_end(s, i) {
            Some(q) => i <= q < s.len() && s[q] == B_QUOTE,
            None => true,
        },
    decreases s.len() - i,
{
    if i < s.len() && s[i] != B_QUOTE {
        lemma_str_end(s, i + 1);
    }
}

/// First index at or after `i` that does not hold a decimal digit.
pub open spec fn spec_digits_end(s: Seq<u8>, i: int) -> int
    decreases s.len() - i,
{
    if 0 <= i && i < s.len() && digit_byte(s[i]) {
        spec_digits_end(s, i + 1)
    } else {
        i
    }
}

pub proof fn lemma_digits_end(s: Seq<u8>, i: int)
    requires
        0 <= i <= s.len(),
    ensures
        i <= spec_digits_end(s, i) <= s.len(),
    decreases s.len() - i,
{
    if i < s.len() && digit_byte(s[i]) {
        lemma_digits_end(s, i + 1);
    }
}

/// Value of the decimal digits `s[a..b]`, most significant first.
pub open spec fn spec_num_val(s: Seq<u8>, a: int, b: int) -> nat
    decreases b - a,
{
    if b <= a {
        0
    } else {
        (spec_num_val(s, a, b - 1) * 10 + (s[b - 1] - 48)) as nat
    }
}

/// A JSON value of the accepted grammar, as positions and numbers.
pub enum ValDesc {
    /// A string: the bytes `s[lo..hi]` between its quotes.
    VStr(int, int),
    /// An unsigned integer, of any size.
    VNum(nat),
    /// The literal `null`.
    VNull,
}

/// Parse one value at `i`: the value and the position after it.
pub open spec fn spec_value(s: Seq<u8>, i: int) -> Option<(ValDesc, int)> {
    if !(0 <= i && i < s.len()) {
        None
    } else if s[i] == B_QUOTE {
        match spec_str_end(s, i + 1) {
            Some(q) => Some((ValDesc::VStr(i + 1, q), q + 1)),
            None => None,
        }
    } else if digit_byte(s[i]) {
        Some(
            (
                ValDesc::VNum(spec_num_val(s, i, spec_digits_end(s, i))),
                spec_digits_end(s, i),
            ),
        )
    } else if i + 4 <= s.len() && s[i] == 110 && s[i + 1] == 117 && s[i + 2] == 108 && s[i + 3]
        == 108 {
        Some((ValDesc::VNull, i + 4))
    } else {
        None
    }
}

pub proof fn lemma_value_bounds(s: Seq<u8>, i: int)
    requires
        0 <= i,
    ensures
        match spec_value(s, i) {
            Some(r) => i < r.1 <= s.len(),
            None => true,
        },
{
    if 0 <= i && i < s.len() {
        if s[i] == B_QUOTE {
            lemma_str_end(s, i + 1);
        } else if digit_byte(s[i]) {
            lemma_digits_end(s, i);
            assert(spec_digits_end(s, i) == spec_digits_end(s, i + 1));
            lemma_digits_end(s, i + 1);
        }
    }
}

/// The bytes of the key `type`.
pub open spec fn type_key() -> Seq<u8> {
    seq![116u8, 121u8, 112u8, 101u8]
}

/// The bytes of the key `duration`.
pub open spec fn duration_key() -> Seq<u8> {
    seq![100u8, 117u8, 114u8, 97u8, 116u8, 105u8, 111u8, 110u8]
}

/// The bytes of the command kind `start`.
pub open spec fn start_lit() -> Seq<u8> {
    seq![115u8, 116u8, 97u8, 114u8, 116u8]
}

/// The bytes of the command kind `stop`.
pub open spec fn stop_lit() -> Seq<u8> {
    seq![115u8, 116u8, 111u8, 112u8]
}

/// Classified value of the `type` key.
#[derive(Clone, Copy, Debug, PartialEq, Eq)]
pub enum TyVal {
    TyStart,
    TyStop,
    TyOtherStr,
    TyNotStr,
}

/// Classified value of the `duration` key.
#[derive(Clone, Copy, Debug, PartialEq, Eq)]
pub enum DurVal {
    DurNum(u64),
    DurNull,
    DurBad,
}

/// What the two recognized keys held, accumulated over the object's fields.
#[derive(Clone, Copy)]
pub struct Acc {
    pub ty: Option<TyVal>,
    pub ty_dup: bool,
    pub dur: Option<DurVal>,
    pub dur_dup: bool,
}

pub open spec fn empty_acc() -> Acc {
    Acc { ty: None, ty_dup: false, dur: None, dur_dup: false }
}

pub open spec fn spec_ty_of(s: Seq<u8>, v: ValDesc) -> TyVal {
    match v {
        ValDesc::VStr(a, b) => {
            let w = s.subrange(a, b);
            if w == start_lit() {
                TyVal::TyStart
            } else if w == stop_lit() {
                TyVal::TyStop
            } else {
                TyVal::TyOtherStr
            }
        },
        _ => TyVal::TyNotStr,
    }
}

pub open spec fn spec_dur_of(v: ValDesc) -> DurVal {
    match v {
        ValDesc::VNum(n) => if n <= u64::MAX {
            DurVal::DurNum(n as u64)
        } else {
            DurVal::DurBad
        },
        ValDesc::VNull => DurVal::DurNull,
        ValDesc::VStr(_, _) => DurVal::DurBad,
    }
}

/// Fold one `key: value` field into the accumulator.
pub open spec fn spec_record(s: Seq<u8>, acc: Acc, klo: int, khi: int, v: ValDesc) -> Acc {
    let key = s.subrange(klo, khi);
    if key == type_key() {
        if acc.ty is Some {
            Acc { ty_dup: true, ..acc }
        } else {
            Acc { ty: Some(spec_ty_of(s, v)), ..acc }
        }
    } else if key == duration_key() {
        if acc.dur is Some {
            Acc { dur_dup: true, ..acc }
        } else {
            Acc { dur: Some(spec_dur_of(v)), ..acc }
        }
    } else {
        acc
    }
}

/// Parse the fields of an object from `i` (at a key's opening quote) up to
/// and including the closing brace; the accumulator and the position after
/// the brace.
pub open spec fn spec_members(s: Seq<u8>, i: int, acc: Acc) -> Option<(Acc, int)>
    decreases s.len() - i,
        via spec_members_dec
{
    if !(0 <= i && i < s.len() && s[i] == B_QUOTE) {
        None
    } else {
        match spec_str_end(s, i + 1) {
            None => None,
            Some(q) => {
                let j = spec_ws_end(s, q + 1);
                if !(j < s.len() && s[j] == B_COLON) {
                    None
                } else {
                    let k = spec_ws_end(s, j + 1);
                    match spec_value(s, k) {
                        None => None,
                        Some(vm) => {
                            let acc2 = spec_record(s, acc, i + 1, q, vm.0);
                            let t = spec_ws_end(s, vm.1);
                            if t < s.len() && s[t] == B_COMMA {
                                spec_members(s, spec_ws_end(s, t + 1), acc2)
                            } else if t < s.len() && s[t] == B_RBRACE {
                                Some((acc2, t + 1))
                            } else {
                                None
                            }
                        },
                    }
                }
            },
        }
    }
}

#[via_fn]
proof fn spec_members_dec(s: Seq<u8>, i: int, acc: Acc) {
    if 0 <= i && i < s.len() && s[i] == B_QUOTE {
        lemma_str_end(s, i + 1);
        match spec_str_end(s, i + 1) {
            Some(q) => {
                lemma_ws_end(s, q + 1);
                let j = spec_ws_end(s, q + 1);
                if j < s.len() && s[j] == B_COLON {
                    lemma_ws_end(s, j + 1);
                    let k = spec_ws_end(s, j + 1);
                    lemma_value_bounds(s, k);
                    match spec_value(s, k) {
                        Some(vm) => {
                            lemma_ws_end(s, vm.1);
                            let t = spec_ws_end(s, vm.1);
                            if t < s.len() && s[t] == B_COMMA {
                                lemma_ws_end(s, t + 1);
                            }
                        },
                        None => {},
                    }
                }
            },
            None => {},
        }
    }
}

/// The command that an accumulated object means.
pub open spec fn spec_command_of(acc: Acc) -> Command {
    if acc.ty_dup || acc.dur_dup || acc.dur == Some(DurVal::DurBad) {
        Command::Unrecognized
    } else {
        match acc.ty {
            Some(TyVal::TyStart) => Command::Start {
                duration: match acc.dur {
                    Some(DurVal::DurNum(v)) => Some(v),
                    _ => None,
                },
            },
            Some(TyVal::TyStop) => Command::Stop,
            _ => Command::Unrecognized,
        }
    }
}

/// The command that a whole inbound text frame means; anything outside the
/// grammar is `Unrecognized`.
pub open spec fn spec_parse_command(s: Seq<u8>) -> Command {
    let i = spec_ws_end(s, 0);
    if !(i < s.len() && s[i] == B_LBRACE) {
        Command::Unrecognized
    } else {
        match spec_members(s, spec_ws_end(s, i + 1), empty_acc()) {
            None => Command::Unrecognized,
            Some(am) => if spec_ws_end(s, am.1) == s.len() {
                spec_command_of(am.0)
            } else {
                Command::Unrecognized
            },
        }
    }
}

fn skip_ws(s: &[u8], i: usize) -> (j: usize)
    requires
        i <= s@.len(),
    ensures
        j == spec_ws_end(s@, i as int),
        i <= j <= s@.len(),
{
    let n = s.len();
    let mut j = i;
    while j < n && (s[j] == 32 || s[j] == 9 || s[j] == 10 || s[j] == 13)
        invariant
            i <= j <= n,
            n == s@.len(),
            spec_ws_end(s@, i as int) == spec_ws_end(s@, j as int),
        decreases n - j,
    {
        j = j + 1;
    }
    j
}

fn find_quote(s: &[u8], i: usize) -> (r: Option<usize>)
    requires
        i <= s@.len(),
    ensures
        match r {
            Some(q) => spec_str_end(s@, i as int) == Some(q as int) && i <= q < s@.len(),
            None => spec_str_end(s@, i as int) is None,
        },
{
    let n = s.len();
    let mut j = i;
    while j < n && s[j] != 34
        invariant
            i <= j <= n,
            n == s@.len(),
            spec_str_end(s@, i as int) == spec_str_end(s@, j as int),
        decreases n - j,
    {
        j = j + 1;
    }
    if j < n {
        Some(j)
    } else {
        None
    }
}

enum NumScan {
    Fits(u64),
    TooBig,
}

proof fn lemma_num_step_bound(val: u64, d: u64)
    requires
        d <= 9,
        val > (u64::MAX - d) / 10,
    ensures
        val * 10 + d > u64::MAX,
{
    let q = ((u64::MAX - d) / 10) as int;
    let r = ((u64::MAX - d) % 10) as int;
    assert(q * 10 + r == u64::MAX - d);
    assert(val >= q + 1);
    assert(val * 10 >= (q + 1) * 10) by (nonlinear_arith)
        requires val >= q + 1;
}

proof fn lemma_num_step_fits(val: u64, d: u64)
    requires
        d <= 9,
        val <= (u64::MAX - d) / 10,
    ensures
        val * 10 + d <= u64::MAX,
{
    let q = ((u64::MAX - d) / 10) as int;
    let r = ((u64::MAX - d) % 10) as int;
    assert(q * 10 + r == u64::MAX - d);
    assert(val * 10 <= q * 10) by (nonlinear_arith)
        requires val <= q;
}

fn scan_number(s: &[u8], i: usize) -> (r: (NumScan, usize))
    requires
        i <= s@.len(),
    ensures
        r.1 == spec_digits_end(s@, i as int),
        i <= r.1 <= s@.len(),
        match r.0 {
            NumScan::Fits(v) => spec_num_val(s@, i as int, r.1 as int) == v,
            NumScan::TooBig => spec_num_val(s@, i as int, r.1 as int) > u64::MAX,
        },
{
    let n = s.len();
    let mut j = i;
    let mut val: u64 = 0;
    let mut big = false;
    while j < n && 48 <= s[j] && s[j] <= 57
        invariant
            i <= j <= n,
            n == s@.len(),
            spec_digits_end(s@, i as int) == spec_digits_end(s@, j as int),
            !big ==> val == spec_num_val(s@, i as int, j as int),
            big ==> spec_num_val(s@, i as int, j as int) > u64::MAX,
        decreases n - j,
    {
        let d = (s[j] - 48) as u64;
        proof {
            assert(spec_num_val(s@, i as int, j + 1) == (spec_num_val(s@, i as int, j as int) * 10
                + d) as nat);
        }
        if big {
            proof {
                let prev = spec_num_val(s@, i as int, j as int);
                assert(prev * 10 >= prev) by (nonlinear_arith)
                    requires prev >= 0;
            }
        } else {
            let limit = (u64::MAX - d) / 10;
            if val > limit {
                proof {
                    lemma_num_step_bound(val, d);
                }
                big = true;
            } else {
                proof {
                    lemma_num_step_fits(val, d);
                }
                val = val * 10 + d;
            }
        }
        j = j + 1;
    }
    (
        if big {
            NumScan::TooBig
        } else {
            NumScan::Fits(val)
        },
        j,
    )
}

/// A scanned JSON value, in executable form; a number that does not fit in
/// 64 bits keeps no value.
enum Scanned {
    SStr(usize, usize),
    SNum(u64),
    SNumBig,
    SNull,
}

/// Whether the executable form stands for the given value description.
spec fn scanned_matches(s: Seq<u8>, v: Scanned, d: ValDesc) -> bool {
    match v {
        Scanned::SStr(a, b) => d == ValDesc::VStr(a as int, b as int),
        Scanned::SNum(u) => d == ValDesc::VNum(u as nat),
        Scanned::SNumBig => d matches ValDesc::VNum(n) && n > u64::MAX,
        Scanned::SNull => d == ValDesc::VNull,
    }
}

fn parse_value(s: &[u8], i: usize) -> (r: Option<(Scanned, usize)>)
    requires
        i <= s@.len(),
    ensures
        match r {
            None => spec_value(s@, i as int) is None,
            Some(vm) => {
                &&& i < vm.1 <= s@.len()
                &&& spec_value(s@, i as int) matches Some(sv) && sv.1 == vm.1 as int
                    && scanned_matches(s@, vm.0, sv.0)
                &&& (vm.0 matches Scanned::SStr(a, b) ==> i < a && a <= b && b < vm.1)
            },
        },
{
    let n = s.len();
    if i >= n {
        return None;
    }
    let c = s[i];
    if c == 34 {
        match find_quote(s, i + 1) {
            Some(q) => Some((Scanned::SStr(i + 1, q), q + 1)),
            None => None,
        }
    } else if 48 <= c && c <= 57 {
        let (num, m) = scan_number(s, i);
        proof {
            assert(spec_digits_end(s@, i as int) == spec_digits_end(s@, i + 1));
            lemma_digits_end(s@, i + 1);
        }
        match num {
            NumScan::Fits(v) => Some((Scanned::SNum(v), m)),
            NumScan::TooBig => Some((Scanned::SNumBig, m)),
        }
    } else if c == 110 && n - i >= 4 && s[i + 1] == 117 && s[i + 2] == 108 && s[i + 3] == 108 {
        Some((Scanned::SNull, i + 4))
    } else {
        None
    }
}

fn is_key(s: &[u8], lo: usize, hi: usize, which: bool) -> (r: bool)
    requires
        lo <= hi <= s@.len(),
    ensures
        which ==> r == (s@.subrange(lo as int, hi as int) == type_key()),
        !which ==> r == (s@.subrange(lo as int, hi as int) == duration_key()),
{
    proof {
        assert(type_key().len() == 4);
        assert(duration_key().len() == 8);
        assert(s@.subrange(lo as int, hi as int).len() == hi - lo);
    }
    if which {
        let r = hi - lo == 4 && s[lo] == 116 && s[lo + 1] == 121 && s[lo + 2] == 112 && s[lo + 3]
            == 101;
        proof {
            let w = s@.subrange(lo as int, hi as int);
            if r {
                assert(w =~= type_key());
            } else if w == type_key() {
                assert(s@[lo as int] == w[0] && s@[lo as int + 1] == w[1] && s@[lo as int + 2]
                    == w[2] && s@[lo as int + 3] == w[3]);
                assert(false);
            }
        }
        r
    } else {
        let r = hi - lo == 8 && s[lo] == 100 && s[lo + 1] == 117 && s[lo + 2] == 114 && s[lo + 3]
            == 97 && s[lo + 4] == 116 && s[lo + 5] == 105 && s[lo + 6] == 111 && s[lo + 7] == 110;
        proof {
            let w = s@.subrange(lo as int, hi as int);
            if r {
                assert(w =~= duration_key());
            } else if w == duration_key() {
                assert(s@[lo as int] == w[0] && s@[lo as int + 1] == w[1] && s@[lo as int + 2]
                    == w[2] && s@[lo as int + 3] == w[3] && s@[lo as int + 4] == w[4] && s@[lo
                    as int + 5] == w[5] && s@[lo as int + 6] == w[6] && s@[lo as int + 7] == w[7]);
                assert(false);
            }
        }
        r
    }
}

fn classify_str(s: &[u8], a: usize, b: usize) -> (r: TyVal)
    requires
        a <= b <= s@.len(),
    ensures
        r == spec_ty_of(s@, ValDesc::VStr(a as int, b as int)),
{
    proof {
        assert(start_lit().len() == 5);
        assert(stop_lit().len() == 4);
        assert(s@.subrange(a as int, b as int).len() == b - a);
    }
    let w_start = b - a == 5 && s[a] == 115 && s[a + 1] == 116 && s[a + 2] == 97 && s[a + 3] == 114
        && s[a + 4] == 116;
    let w_stop = b - a == 4 && s[a] == 115 && s[a + 1] == 116 && s[a + 2] == 111 && s[a + 3] == 112;
    proof {
        let w = s@.subrange(a as int, b as int);
        if w_start {
            assert(w =~= start_lit());
        } else if w == start_lit() {
            assert(s@[a as int] == w[0] && s@[a as int + 1] == w[1] && s@[a as int + 2] == w[2]
                && s@[a as int + 3] == w[3] && s@[a as int + 4] == w[4]);
            assert(false);
        }
        if w_stop {
            assert(w =~= stop_lit());
        } else if w == stop_lit() {
            assert(s@[a as int] == w[0] && s@[a as int + 1] == w[1] && s@[a as int + 2] == w[2]
                && s@[a as int + 3] == w[3]);
            assert(false);
        }
    }
    if w_start {
        TyVal::TyStart
    } else if w_stop {
        TyVal::TyStop
    } else {
        TyVal::TyOtherStr
    }
}

fn record_pair(s: &[u8], acc: Acc, klo: usize, khi: usize, v: &Scanned) -> (r: Acc)
    requires
        klo <= khi <= s@.len(),
        *v matches Scanned::SStr(a, b) ==> a <= b <= s@.len(),
    ensures
        forall|d: ValDesc|
            scanned_matches(s@, *v, d) ==> r == spec_record(s@, acc, klo as int, khi as int, d),
{
    if is_key(s, klo, khi, true) {
        if acc.ty.is_some() {
            Acc { ty_dup: true, ..acc }
        } else {
            let t = match v {
                Scanned::SStr(a, b) => classify_str(s, *a, *b),
                _ => TyVal::TyNotStr,
            };
            Acc { ty: Some(t), ..acc }
        }
    } else if is_key(s, klo, khi, false) {
        if acc.dur.is_some() {
            Acc { dur_dup: true, ..acc }
        } else {
            let dv = match v {
                Scanned::SNum(u) => DurVal::DurNum(*u),
                Scanned::SNumBig => DurVal::DurBad,
                Scanned::SNull => DurVal::DurNull,
                Scanned::SStr(_, _) => DurVal::DurBad,
            };
            Acc { dur: Some(dv), ..acc }
        }
    } else {
        acc
    }
}

fn command_of_acc(acc: &Acc) -> (c: Command)
    ensures
        c == spec_command_of(*acc),
{
    if acc.ty_dup || acc.dur_dup {
        return Command::Unrecognized;
    }
    if let Some(DurVal::DurBad) = acc.dur {
        return Command::Unrecognized;
    }
    match acc.ty {
        Some(TyVal::TyStart) => Command::Start {
            duration: match acc.dur {
                Some(DurVal::DurNum(v)) => Some(v),
                _ => None,
            },
        },
        Some(TyVal::TyStop) => Command::Stop,
        _ => Command::Unrecognized,
    }
}

/// Read one inbound text frame, as bytes, and say which command it carries.
pub fn parse_command(s: &[u8]) -> (c: Command)
    ensures
        c == spec_parse_command(s@),
{
    let n = s.len();
    let i = skip_ws(s, 0);
    if !(i < n && s[i] == 123) {
        return Command::Unrecognized;
    }
    let start = skip_ws(s, i + 1);
    let ghost full = spec_members(s@, start as int, empty_acc());
    let mut pos = start;
    let mut acc = Acc { ty: None, ty_dup: false, dur: None, dur_dup: false };
    loop
        invariant
            pos <= n,
            n == s@.len(),
            spec_members(s@, pos as int, acc) == full,
            spec_parse_command(s@) == match full {
                None => Command::Unrecognized,
                Some(am) => if spec_ws_end(s@, am.1) == s@.len() {
                    spec_command_of(am.0)
                } else {
                    Command::Unrecognized
                },
            },
        decreases n - pos,
    {
        if !(pos < n && s[pos] == 34) {
            return Command::Unrecognized;
        }
        let q = match find_quote(s, pos + 1) {
            Some(q) => q,
            None => {
                return Command::Unrecognized;
            },
        };
        let j = skip_ws(s, q + 1);
        if !(j < n && s[j] == 58) {
            return Command::Unrecognized;
        }
        let k = skip_ws(s, j + 1);
        let (v, m) = match parse_value(s, k) {
            Some(vm) => vm,
            None => {
                return Command::Unrecognized;
            },
        };
        let acc2 = record_pair(s, acc, pos + 1, q, &v);
        proof {
            let sv = spec_value(s@, k as int)->Some_0;
            assert(scanned_matches(s@, v, sv.0));
            assert(acc2 == spec_record(s@, acc, pos + 1, q as int, sv.0));
        }
        let t = skip_ws(s, m);
        if t < n && s[t] == 44 {
            let u = skip_ws(s, t + 1);
            pos = u;
            acc = acc2;
        } else if t < n && s[t] == 125 {
            let fin = skip_ws(s, t + 1);
            if fin == n {
                return command_of_acc(&acc2);
            } else {
                return Command::Unrecognized;
            }
        } else {
            return Command::Unrecognized;
        }
    }
}

} // verus!
