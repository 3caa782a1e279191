//! A parser for the token endpoint's JSON bodies: one flat object whose
//! values are strings or unsigned integers, which is all the OAuth token
//! and error responses carry.
//!
//! The grammar accepted is exactly: optional whitespace, `{`, members
//! (string key, `:`, string or unsigned-integer value, separated by `,`),
//! `}`, optional whitespace, end of input. String escapes are the
//! single-character ones (`\" \\ \/ \b \f \n \r \t`); `\u` escapes and
//! integers beyond 64 bits are rejected as malformed.

use vstd::prelude::*;

verus! {

/// A parsed JSON value: a decoded string or an unsigned integer.
#[derive(Debug)]
pub enum JsonVal {
    Str(Vec<u8>),
    UInt(u64),
}

/// The mathematical value of a [`JsonVal`].
pub enum SpecJsonVal {
    Str(Seq<u8>),
    UInt(u64),
}

impl View for JsonVal {
    type V = SpecJsonVal;

    open spec fn view(&self) -> SpecJsonVal {
        match self {
            JsonVal::Str(b) => SpecJsonVal::Str(b@),
            JsonVal::UInt(n) => SpecJsonVal::UInt(*n),
        }
    }
}

/// The members of a parsed object, keys paired with values in textual order.
pub open spec fn pairs_view(p: Seq<(Vec<u8>, JsonVal)>) -> Seq<(Seq<u8>, SpecJsonVal)> {
    p.map_values(|t: (Vec<u8>, JsonVal)| (t.0@, t.1@))
}

/// JSON insignificant whitespace: space, tab, line feed, carriage return.
pub open spec fn is_ws(b: u8) -> bool {
    b == 0x20 || b == 0x09 || b == 0x0A || b == 0x0D
}

/// An ASCII decimal digit.
pub open spec fn is_digit(b: u8) -> bool {
    0x30 <= b && b <= 0x39
}

/// The first position at or after `i` that holds no whitespace.
pub open spec fn spec_skip_ws(s: Seq<u8>, i: int) -> int
    decreases s.len() - i,
{
    if 0 <= i < s.len() && is_ws(s[i]) {
        spec_skip_ws(s, i + 1)
    } else {
        i
    }
}

/// Skipping whitespace never moves backwards nor past the end.
pub proof fn lemma_skip_ws_bounds(s: Seq<u8>, i: int)
    ensures
        i <= spec_skip_ws(s, i),
        i <= s.len() ==> spec_skip_ws(s, i) <= s.len(),
    decreases s.len() - i,
{
    if 0 <= i < s.len() && is_ws(s[i]) {
        lemma_skip_ws_bounds(s, i + 1);
    }
}

/// The byte a single-character escape stands for, or `None` where the
/// escape is not accepted.
pub open spec fn unescape(b: u8) -> Option<u8> {
    if b == 0x22 {
        Some(0x22u8)
    } else if b == 0x5C {
        Some(0x5Cu8)
    } else if b == 0x2F {
        Some(0x2Fu8)
    } else if b == 0x62 {
        Some(0x08u8)
    } else if b == 0x66 {
        Some(0x0Cu8)
    } else if b == 0x6E {
        Some(0x0Au8)
    } else if b == 0x72 {
        Some(0x0Du8)
    } else if b == 0x74 {
        Some(0x09u8)
    } else {
        None
    }
}

/// Parse a string's content from just after its opening quote: the decoded
/// bytes and the position after the closing quote, or `None` where the
/// string never closes or holds a control byte or an unaccepted escape.
pub open spec fn spec_string_body(s: Seq<u8>, i: int) -> Option<(Seq<u8>, int)>
    decreases s.len() - i,
{
    if i < 0 || i >= s.len() {
        None
    } else if s[i] == 0x22 {
        Some((Seq::empty(), i + 1))
    } else if s[i] == 0x5C {
        if i + 2 <= s.len() && unescape(s[i + 1]) is Some {
            match spec_string_body(s, i + 2) {
                Some((rest, j)) => Some((seq![unescape(s[i + 1])->Some_0] + rest, j)),
                None => None,
            }
        } else {
            None
        }
    } else if s[i] >= 0x20 {
        match spec_string_body(s, i + 1) {
            Some((rest, j)) => Some((seq![s[i]] + rest, j)),
            None => None,
        }
    } else {
        None
    }
}

/// A parsed string ends after its opening position and within the input.
pub proof fn lemma_string_body_bounds(s: Seq<u8>, i: int)
    requires
        spec_string_body(s, i) is Some,
    ensures
        0 <= i < s.len(),
        i + 1 <= spec_string_body(s, i)->Some_0.1 <= s.len(),
    decreases s.len() - i,
{
    if s[i] == 0x22 {
    } else if s[i] == 0x5C {
        lemma_string_body_bounds(s, i + 2);
    } else {
        lemma_string_body_bounds(s, i + 1);
    }
}

fn is_ws_byte(b: u8) -> (r: bool)
    ensures
        r == is_ws(b),
{
    b == 0x20 || b == 0x09 || b == 0x0A || b == 0x0D
}

/// Move past insignificant whitespace.
pub fn skip_ws(s: &[u8], start: usize) -> (r: usize)
    requires
        start <= s@.len(),
    ensures
        r == spec_skip_ws(s@, start as int),
        start <= r <= s@.len(),
{
    let mut i = start;
    while i < s.len() && is_ws_byte(s[i])
        invariant
            start <= i <= s@.len(),
            spec_skip_ws(s@, start as int) == spec_skip_ws(s@, i as int),
        decreases s@.len() - i,
    {
        i = i + 1;
    }
    i
}

fn unescape_byte(b: u8) -> (r: Option<u8>)
    ensures
        r == unescape(b),
{
    if b == 0x22 {
        Some(0x22u8)
    } else if b == 0x5C {
        Some(0x5Cu8)
    } else if b == 0x2F {
        Some(0x2Fu8)
    } else if b == 0x62 {
        Some(0x08u8)
    } else if b == 0x66 {
        Some(0x0Cu8)
    } else if b == 0x6E {
        Some(0x0Au8)
    } else if b == 0x72 {
        Some(0x0Du8)
    } else if b == 0x74 {
        Some(0x09u8)
    } else {
        None
    }
}

/// Parse a string's content from just after its opening quote.
fn parse_string_body(s: &[u8], start: usize) -> (r: Option<(Vec<u8>, usize)>)
    requires
        start <= s@.len(),
    ensures
        match r {
            Some(p) => spec_string_body(s@, start as int) == Some((p.0@, p.1 as int)) && start
                < p.1 <= s@.len(),
            None => spec_string_body(s@, start as int) is None,
        },
{
    let mut acc: Vec<u8> = Vec::new();
    let mut i = start;
    while i < s.len()
        invariant
            start <= i <= s@.len(),
            spec_string_body(s@, start as int) == (match spec_string_body(s@, i as int) {
                Some((rest, j)) => Some((acc@ + rest, j)),
                None => None,
            }),
        decreases s@.len() - i,
    {
        let b = s[i];
        if b == 0x22 {
            proof {
                assert(acc@ + Seq::<u8>::empty() =~= acc@);
            }
            return Some((acc, i + 1));
        } else if b == 0x5C {
            if i + 1 < s.len() {
                match unescape_byte(s[i + 1]) {
                    Some(d) => {
                        let ghost acc0 = acc@;
                        acc.push(d);
                        proof {
                            match spec_string_body(s@, i as int + 2) {
                                Some((rest, j)) => {
                                    assert((acc0 + seq![d]) + rest =~= acc0 + (seq![d] + rest));
                                },
                                None => {},
                            }
                        }
                        i = i + 2;
                    },
                    None => {
                        return None;
                    },
                }
            } else {
                return None;
            }
        } else if b >= 0x20 {
            let ghost acc0 = acc@;
            acc.push(b);
            proof {
                match spec_string_body(s@, i as int + 1) {
                    Some((rest, j)) => {
                        assert((acc0 + seq![b]) + rest =~= acc0 + (seq![b] + rest));
                    },
                    None => {},
                }
            }
            i = i + 1;
        } else {
            return None;
        }
    }
    None
}

/// Accumulate decimal digits left to right from position `i` onto `acc`;
/// the value and the position after the last digit, or `None` where the
/// value would not fit in 64 bits.
pub open spec fn spec_uint_acc(s: Seq<u8>, i: int, acc: int) -> Option<(int, int)>
    decreases s.len() - i,
{
    if 0 <= i < s.len() && is_digit(s[i]) {
        let v = acc * 10 + (s[i] - 0x30);
        if v > 0xFFFF_FFFF_FFFF_FFFF {
            None
        } else {
            spec_uint_acc(s, i + 1, v)
        }
    } else {
        Some((acc, i))
    }
}

/// Parse an unsigned integer at position `i`: at least one digit, value
/// within 64 bits.
pub open spec fn spec_parse_uint(s: Seq<u8>, i: int) -> Option<(int, int)> {
    if 0 <= i < s.len() && is_digit(s[i]) {
        spec_uint_acc(s, i, 0)
    } else {
        None
    }
}

/// Digit accumulation never moves backwards nor past the end, and its
/// value stays within 64 bits.
pub proof fn lemma_uint_acc_bounds(s: Seq<u8>, i: int, acc: int)
    requires
        spec_uint_acc(s, i, acc) is Some,
    ensures
        i <= spec_uint_acc(s, i, acc)->Some_0.1,
        i <= s.len() ==> spec_uint_acc(s, i, acc)->Some_0.1 <= s.len(),
        0 <= acc <= 0xFFFF_FFFF_FFFF_FFFF ==> 0 <= spec_uint_acc(s, i, acc)->Some_0.0
            <= 0xFFFF_FFFF_FFFF_FFFF,
    decreases s.len() - i,
{
    if 0 <= i < s.len() && is_digit(s[i]) {
        let v = acc * 10 + (s[i] - 0x30);
        if v <= 0xFFFF_FFFF_FFFF_FFFF {
            lemma_uint_acc_bounds(s, i + 1, v);
        }
    }
}

/// A parsed integer ends after its first digit and within the input.
pub proof fn lemma_parse_uint_bounds(s: Seq<u8>, i: int)
    requires
        spec_parse_uint(s, i) is Some,
    ensures
        0 <= i < s.len(),
        i < spec_parse_uint(s, i)->Some_0.1 <= s.len(),
        0 <= spec_parse_uint(s, i)->Some_0.0 <= 0xFFFF_FFFF_FFFF_FFFF,
{
    lemma_uint_acc_bounds(s, i + 1, (s[i] - 0x30) as int);
}

fn is_digit_byte(b: u8) -> (r: bool)
    ensures
        r == is_digit(b),
{
    0x30 <= b && b <= 0x39
}

/// Parse an unsigned integer at `start`.
fn parse_uint(s: &[u8], start: usize) -> (r: Option<(u64, usize)>)
    requires
        start <= s@.len(),
    ensures
        match r {
            Some(p) => spec_parse_uint(s@, start as int) == Some((p.0 as int, p.1 as int)) && start
                < p.1 <= s@.len(),
            None => spec_parse_uint(s@, start as int) is None,
        },
{
    if start >= s.len() || !is_digit_byte(s[start]) {
        return None;
    }
    let mut acc: u64 = 0;
    let mut i = start;
    while i < s.len() && 0x30 <= s[i] && s[i] <= 0x39
        invariant
            start <= i <= s@.len(),
            spec_uint_acc(s@, start as int, 0) == spec_uint_acc(s@, i as int, acc as int),
        decreases s@.len() - i,
    {
        let d = s[i] - 0x30;
        match acc.checked_mul(10) {
            Some(m) => {
                match m.checked_add(d as u64) {
                    Some(v) => {
                        acc = v;
                        i = i + 1;
                    },
                    None => {
                        return None;
                    },
                }
            },
            None => {
                return None;
            },
        }
    }
    Some((acc, i))
}

/// Parse one value at position `i`: a quoted string or an unsigned
/// integer.
pub open spec fn spec_parse_value(s: Seq<u8>, i: int) -> Option<(SpecJsonVal, int)> {
    if 0 <= i < s.len() && s[i] == 0x22 {
        match spec_string_body(s, i + 1) {
            Some((t, j)) => Some((SpecJsonVal::Str(t), j)),
            None => None,
        }
    } else {
        match spec_parse_uint(s, i) {
            Some((v, j)) => Some((SpecJsonVal::UInt(v as u64), j)),
            None => None,
        }
    }
}

/// A parsed value ends after its first byte and within the input.
pub proof fn lemma_value_bounds(s: Seq<u8>, i: int)
    requires
        spec_parse_value(s, i) is Some,
    ensures
        0 <= i < s.len(),
        i < spec_parse_value(s, i)->Some_0.1 <= s.len(),
{
    if 0 <= i < s.len() && s[i] == 0x22 {
        lemma_string_body_bounds(s, i + 1);
    } else {
        lemma_parse_uint_bounds(s, i);
    }
}

/// Parse the members of an object from position `i` (just after `{` or
/// after a `,`): whitespace, a string key, `:`, a value, then either a
/// `,` and further members or the position of the byte that ends the
/// list.
pub open spec fn spec_parse_members(s: Seq<u8>, i: int) -> Option<
    (Seq<(Seq<u8>, SpecJsonVal)>, int),
>
    decreases s.len() - i,
    via spec_parse_members_decreases
{
    let k = spec_skip_ws(s, i);
    if k < s.len() && s[k] == 0x22 {
        match spec_string_body(s, k + 1) {
            Some((key, j1)) => {
                let j2 = spec_skip_ws(s, j1);
                if j2 < s.len() && s[j2] == 0x3A {
                    let j3 = spec_skip_ws(s, j2 + 1);
                    match spec_parse_value(s, j3) {
                        Some((val, j4)) => {
                            let j5 = spec_skip_ws(s, j4);
                            if j5 < s.len() && s[j5] == 0x2C {
                                match spec_parse_members(s, j5 + 1) {
                                    Some((rest, j6)) => Some((seq![(key, val)] + rest, j6)),
                                    None => None,
                                }
                            } else {
                                Some((seq![(key, val)], j5))
                            }
                        },
                        None => None,
                    }
                } else {
                    None
                }
            },
            None => None,
        }
    } else {
        None
    }
}

#[via_fn]
proof fn spec_parse_members_decreases(s: Seq<u8>, i: int) {
    let k = spec_skip_ws(s, i);
    lemma_skip_ws_bounds(s, i);
    if k < s.len() && s[k] == 0x22 {
        match spec_string_body(s, k + 1) {
            Some((key, j1)) => {
                lemma_string_body_bounds(s, k + 1);
                let j2 = spec_skip_ws(s, j1);
                lemma_skip_ws_bounds(s, j1);
                if j2 < s.len() && s[j2] == 0x3A {
                    let j3 = spec_skip_ws(s, j2 + 1);
                    lemma_skip_ws_bounds(s, j2 + 1);
                    match spec_parse_value(s, j3) {
                        Some((val, j4)) => {
                            lemma_value_bounds(s, j3);
                            let j5 = spec_skip_ws(s, j4);
                            lemma_skip_ws_bounds(s, j4);
                        },
                        None => {},
                    }
                }
            },
            None => {},
        }
    }
}

/// Parse one value at `start`.
fn parse_value(s: &[u8], start: usize) -> (r: Option<(JsonVal, usize)>)
    requires
        start <= s@.len(),
    ensures
        match r {
            Some(p) => spec_parse_value(s@, start as int) == Some((p.0@, p.1 as int)) && start
                < p.1 <= s@.len(),
            None => spec_parse_value(s@, start as int) is None,
        },
{
    if start < s.len() && s[start] == 0x22 {
        match parse_string_body(s, start + 1) {
            Some((b, j)) => Some((JsonVal::Str(b), j)),
            None => None,
        }
    } else {
        match parse_uint(s, start) {
            Some((v, j)) => Some((JsonVal::UInt(v), j)),
            None => None,
        }
    }
}

/// Parse an object's members from `start`.
fn parse_members(s: &[u8], start: usize) -> (r: Option<(Vec<(Vec<u8>, JsonVal)>, usize)>)
    requires
        start <= s@.len(),
    ensures
        match r {
            Some(p) => spec_parse_members(s@, start as int) == Some((pairs_view(p.0@), p.1 as int))
                && p.1 <= s@.len(),
            None => spec_parse_members(s@, start as int) is None,
        },
{
    let mut acc: Vec<(Vec<u8>, JsonVal)> = Vec::new();
    let mut i = start;
    proof {
        assert(pairs_view(acc@) =~= Seq::<(Seq<u8>, SpecJsonVal)>::empty());
        match spec_parse_members(s@, start as int) {
            Some((rest, j)) => {
                assert(pairs_view(acc@) + rest =~= rest);
            },
            None => {},
        }
    }
    loop
        invariant
            i <= s@.len(),
            spec_parse_members(s@, start as int) == (match spec_parse_members(s@, i as int) {
                Some((rest, j)) => Some((pairs_view(acc@) + rest, j)),
                None => None,
            }),
        decreases s@.len() - i,
    {
        let k = skip_ws(s, i);
        if k >= s.len() || s[k] != 0x22 {
            return None;
        }
        let (key, j1) = match parse_string_body(s, k + 1) {
            Some(p) => p,
            None => {
                return None;
            },
        };
        let j2 = skip_ws(s, j1);
        if j2 >= s.len() || s[j2] != 0x3A {
            return None;
        }
        let j3 = skip_ws(s, j2 + 1);
        let (val, j4) = match parse_value(s, j3) {
            Some(p) => p,
            None => {
                return None;
            },
        };
        let j5 = skip_ws(s, j4);
        let ghost kv = (key@, val@);
        let ghost acc0 = acc@;
        acc.push((key, val));
        proof {
            assert(pairs_view(acc@) =~= pairs_view(acc0) + seq![kv]);
        }
        if j5 < s.len() && s[j5] == 0x2C {
            proof {
                match spec_parse_members(s@, j5 as int + 1) {
                    Some((rest, j6)) => {
                        assert((pairs_view(acc0) + seq![kv]) + rest =~= pairs_view(acc0) + (
                        seq![kv] + rest));
                    },
                    None => {},
                }
            }
            i = j5 + 1;
        } else {
            return Some((acc, j5));
        }
    }
}

/// Parse a whole input as one flat object: optional whitespace, `{`,
/// members or nothing, `}`, optional whitespace, end of input.
pub open spec fn spec_parse_object(s: Seq<u8>) -> Option<Seq<(Seq<u8>, SpecJsonVal)>> {
    let i = spec_skip_ws(s, 0);
    if i < s.len() && s[i] == 0x7B {
        let j = spec_skip_ws(s, i + 1);
        if j < s.len() && s[j] == 0x7D {
            if spec_skip_ws(s, j + 1) == s.len() {
                Some(Seq::empty())
            } else {
                None
            }
        } else {
            match spec_parse_members(s, i + 1) {
                Some((pairs, k)) => {
                    let m = spec_skip_ws(s, k);
                    if m < s.len() && s[m] == 0x7D && spec_skip_ws(s, m + 1) == s.len() {
                        Some(pairs)
                    } else {
                        None
                    }
                },
                None => None,
            }
        }
    } else {
        None
    }
}

/// Parse a whole input as one flat object.
pub fn parse_object(s: &[u8]) -> (r: Option<Vec<(Vec<u8>, JsonVal)>>)
    ensures
        match r {
            Some(pairs) => spec_parse_object(s@) == Some(pairs_view(pairs@)),
            None => spec_parse_object(s@) is None,
        },
{
    let i = skip_ws(s, 0);
    if i >= s.len() || s[i] != 0x7B {
        return None;
    }
    let j = skip_ws(s, i + 1);
    if j < s.len() && s[j] == 0x7D {
        if skip_ws(s, j + 1) == s.len() {
            proof {
                assert(pairs_view(Seq::<(Vec<u8>, JsonVal)>::empty()) =~= Seq::<
                    (Seq<u8>, SpecJsonVal),
                >::empty());
            }
            Some(Vec::new())
        } else {
            None
        }
    } else {
        match parse_members(s, i + 1) {
            Some((pairs, k)) => {
                let m = skip_ws(s, k);
                if m < s.len() && s[m] == 0x7D {
                    if skip_ws(s, m + 1) == s.len() {
                        Some(pairs)
                    } else {
                        None
                    }
                } else {
                    None
                }
            },
            None => None,
        }
    }
}

/// The value of the first member with the given key, or `None` where no
/// member has it.
pub open spec fn spec_lookup(pairs: Seq<(Seq<u8>, SpecJsonVal)>, key: Seq<u8>) -> Option<
    SpecJsonVal,
>
    decreases pairs.len(),
{
    if pairs.len() == 0 {
        None
    } else if pairs[0].0 == key {
        Some(pairs[0].1)
    } else {
        spec_lookup(pairs.skip(1), key)
    }
}

/// Find the first member with the given key; its index, or `None`.
pub fn lookup(pairs: &Vec<(Vec<u8>, JsonVal)>, key: &[u8]) -> (r: Option<usize>)
    ensures
        match r {
            Some(idx) => idx < pairs@.len() && pairs@[idx as int].0@ == key@ && spec_lookup(
                pairs_view(pairs@),
                key@,
            ) == Some(pairs@[idx as int].1@),
            None => spec_lookup(pairs_view(pairs@), key@) is None,
        },
{
    let ghost pv = pairs_view(pairs@);
    let mut i: usize = 0;
    proof {
        assert(pv.skip(0) =~= pv);
    }
    while i < pairs.len()
        invariant
            i <= pairs@.len(),
            pv == pairs_view(pairs@),
            pv.len() == pairs@.len(),
            spec_lookup(pv, key@) == spec_lookup(pv.skip(i as int), key@),
            forall|j: int| 0 <= j < i ==> pv[j].0 != key@,
        decreases pairs@.len() - i,
    {
        if crate::encode::bytes_equal(pairs[i].0.as_slice(), key) {
            proof {
                assert(pv.skip(i as int)[0] == pv[i as int]);
            }
            return Some(i);
        }
        proof {
            assert(pv.skip(i as int)[0] == pv[i as int]);
            assert(pv.skip(i as int).skip(1) =~= pv.skip(i as int + 1));
        }
        i = i + 1;
    }
    proof {
        assert(pv.skip(i as int) =~= Seq::<(Seq<u8>, SpecJsonVal)>::empty());
    }
    None
}

} // verus!
