//! A JSON value as the decoders read it, with exact decimal numbers.
use vstd::prelude::*;

verus! {

/// `10` raised to `n`.
pub open spec fn pow10(n: nat) -> nat
    decreases n,
{
    if n == 0 {
        1
    } else {
        10 * pow10((n - 1) as nat)
    }
}

pub proof fn lemma_pow10_monotonic(a: nat, b: nat)
    requires
        a <= b,
    ensures
        pow10(a) <= pow10(b),
        pow10(a) >= 1,
    decreases b,
{
    if b > 0 {
        lemma_pow10_monotonic(if a < b { a } else { (b - 1) as nat }, (b - 1) as nat);
    }
}

/// An exact decimal number: `digits / 10^scale`, negated when `negative` holds.
///
/// The representation is kept as written: `10` and `10.0` are different
/// values of this type even though they denote the same number.
#[derive(Clone, Copy, Debug, PartialEq, Eq, Structural)]
pub struct Decimal {
    pub negative: bool,
    pub digits: u64,
    pub scale: u32,
}

impl Decimal {
    /// The number is zero or more.
    pub open spec fn spec_non_negative(self) -> bool {
        !self.negative || self.digits == 0
    }

    /// The number lies in `[0.1, 2.0]`.
    pub open spec fn spec_in_print_scale_range(self) -> bool {
        &&& !self.negative
        &&& 10 * self.digits >= pow10(self.scale as nat)
        &&& self.digits <= 2 * pow10(self.scale as nat)
    }

    /// The whole number `n`.
    pub fn from_int(n: u64) -> (r: Decimal)
        ensures
            r == (Decimal { negative: false, digits: n, scale: 0 }),
    {
        Decimal { negative: false, digits: n, scale: 0 }
    }

    /// `digits / 10^scale`.
    pub fn new(digits: u64, scale: u32) -> (r: Decimal)
        ensures
            r == (Decimal { negative: false, digits, scale }),
    {
        Decimal { negative: false, digits, scale }
    }

    pub fn is_non_negative(&self) -> (r: bool)
        ensures
            r == self.spec_non_negative(),
    {
        !self.negative || self.digits == 0
    }

    pub fn is_in_print_scale_range(&self) -> (r: bool)
        ensures
            r == self.spec_in_print_scale_range(),
    {
        if self.negative {
            return false;
        }
        let target: u128 = self.digits as u128 * 10;
        let mut p: u128 = 1;
        let mut i: u32 = 0;
        while i < self.scale
            invariant
                i <= self.scale,
                p == pow10(i as nat),
                p <= 10 * target + 1,
                target == self.digits as u128 * 10,
            decreases self.scale - i,
        {
            if p > target {
                proof {
                    lemma_pow10_monotonic(i as nat, self.scale as nat);
                }
                return false;
            }
            p = p * 10;
            i = i + 1;
        }
        p <= target && (self.digits as u128) <= 2 * p
    }
}

/// A JSON value.
#[derive(Debug)]
pub enum JsonValue {
    Null,
    Bool(bool),
    Number(Decimal),
    Text(String),
    Array(Vec<JsonValue>),
    Object(Vec<(String, JsonValue)>),
}

/// The value under `key` in an object's members: the first member with that key.
pub open spec fn member(fields: Seq<(String, JsonValue)>, key: Seq<char>) -> Option<JsonValue>
    decreases fields.len(),
{
    if fields.len() == 0 {
        None
    } else if fields[0].0@ == key {
        Some(fields[0].1)
    } else {
        member(fields.drop_first(), key)
    }
}

proof fn lemma_member_skip(fields: Seq<(String, JsonValue)>, key: Seq<char>, i: int)
    requires
        0 <= i < fields.len(),
        fields[i].0@ != key,
    ensures
        member(fields.subrange(i, fields.len() as int), key) == member(
            fields.subrange(i + 1, fields.len() as int),
            key,
        ),
{
    assert(fields.subrange(i, fields.len() as int).drop_first() =~= fields.subrange(
        i + 1,
        fields.len() as int,
    ));
}

/// The key is exactly the given name.
pub fn key_is(key: &String, name: &str) -> (r: bool)
    ensures
        r == (key@ == name@),
{
    let n = String::from_str(name);
    *key == n
}

/// Looks up `key` among an object's members.
pub fn get_member<'a>(fields: &'a Vec<(String, JsonValue)>, key: &str) -> (r: Option<&'a JsonValue>)
    ensures
        match r {
            Some(v) => member(fields@, key@) == Some(*v),
            None => member(fields@, key@) is None,
        },
{
    let mut i: usize = 0;
    proof {
        assert(fields@.subrange(0, fields@.len() as int) =~= fields@);
    }
    while i < fields.len()
        invariant
            i <= fields.len(),
            member(fields@, key@) == member(fields@.subrange(i as int, fields@.len() as int), key@),
        decreases fields.len() - i,
    {
        if key_is(&fields[i].0, key) {
            return Some(&fields[i].1);
        }
        proof {
            lemma_member_skip(fields@, key@, i as int);
        }
        i = i + 1;
    }
    None
}

} // verus!

verus! {

/// The member under `key` is the one at index `k` when no earlier member has that key.
pub proof fn lemma_member_at(fields: Seq<(String, JsonValue)>, key: Seq<char>, k: int)
    requires
        0 <= k < fields.len(),
        fields[k].0@ == key,
        forall|i: int| 0 <= i < k ==> #[trigger] fields[i].0@ != key,
    ensures
        member(fields, key) == Some(fields[k].1),
    decreases k,
{
    if k > 0 {
        let rest = fields.drop_first();
        assert forall|i: int| 0 <= i < k - 1 implies #[trigger] rest[i].0@ != key by {
            assert(rest[i] == fields[i + 1]);
        }
        lemma_member_at(rest, key, k - 1);
    }
}

} // verus!

verus! {

/// The value behind an optional reference.
pub open spec fn opt_value(m: Option<&JsonValue>) -> Option<JsonValue> {
    match m {
        Some(j) => Some(*j),
        None => None,
    }
}

} // verus!

verus! {

/// A member that is found has an index holding its key.
pub proof fn lemma_member_index(fields: Seq<(String, JsonValue)>, key: Seq<char>) -> (i: int)
    requires
        member(fields, key) is Some,
    ensures
        0 <= i < fields.len(),
        fields[i].0@ == key,
    decreases fields.len(),
{
    if fields[0].0@ == key {
        0
    } else {
        let j = lemma_member_index(fields.drop_first(), key);
        j + 1
    }
}

/// In a one-member object, the member's own key finds it and every other key finds nothing.
pub proof fn lemma_single_member(fields: Seq<(String, JsonValue)>, other: Seq<char>)
    requires
        fields.len() == 1,
        fields[0].0@ != other,
    ensures
        member(fields, fields[0].0@) == Some(fields[0].1),
        member(fields, other) is None,
{
    assert(fields.drop_first().len() == 0);
    assert(member(fields.drop_first(), other) is None);
}

} // verus!

verus! {

/// The character of a decimal digit.
pub open spec fn digit_char(d: nat) -> char {
    if d == 0 { '0' } else if d == 1 { '1' } else if d == 2 { '2' } else if d == 3 { '3' }
    else if d == 4 { '4' } else if d == 5 { '5' } else if d == 6 { '6' } else if d == 7 { '7' }
    else if d == 8 { '8' } else { '9' }
}

/// The decimal digits of `n`, least significant first, zero-padded to at least `w` of them.
pub open spec fn low_digits(n: nat, w: nat) -> Seq<nat>
    decreases n + w,
{
    if n == 0 && w == 0 {
        Seq::empty()
    } else {
        seq![n % 10] + low_digits(n / 10, if w > 0 { (w - 1) as nat } else { 0 })
    }
}

/// Digits, least significant first, written most significant first.
pub open spec fn digits_text(ds: Seq<nat>) -> Seq<char> {
    Seq::new(ds.len(), |i: int| digit_char(ds[ds.len() - 1 - i]))
}

/// A decimal in ordinary notation: a `-` when negative, then the digits of
/// `digits` with a point `scale` places from the right, padded with zeros so
/// that at least one digit stands before the point (`21.59`, `0.05`, `-1`).
pub open spec fn decimal_text(d: Decimal) -> Seq<char> {
    let t = digits_text(low_digits(d.digits as nat, d.scale as nat + 1));
    let k = t.len() - d.scale;
    (if d.negative { "-"@ } else { Seq::empty() }) + if d.scale == 0 {
        t
    } else {
        t.subrange(0, k) + "."@ + t.subrange(k, t.len() as int)
    }
}

proof fn lemma_low_digits_len(n: nat, w: nat)
    ensures
        low_digits(n, w).len() >= w,
    decreases n + w,
{
    if !(n == 0 && w == 0) {
        lemma_low_digits_len(n / 10, if w > 0 { (w - 1) as nat } else { 0 });
    }
}

fn digit_text(d: u8) -> (r: &'static str)
    requires
        d < 10,
    ensures
        r@ == seq![digit_char(d as nat)],
{
    proof {
        reveal_strlit("0");
        reveal_strlit("1");
        reveal_strlit("2");
        reveal_strlit("3");
        reveal_strlit("4");
        reveal_strlit("5");
        reveal_strlit("6");
        reveal_strlit("7");
        reveal_strlit("8");
        reveal_strlit("9");
    }
    match d {
        0 => "0",
        1 => "1",
        2 => "2",
        3 => "3",
        4 => "4",
        5 => "5",
        6 => "6",
        7 => "7",
        8 => "8",
        _ => "9",
    }
}

impl Decimal {
    /// The number in ordinary decimal notation, for messages.
    pub fn to_text(&self) -> (r: String)
        ensures
            r@ == decimal_text(*self),
    {
        let w0: u64 = self.scale as u64 + 1;
        // Digits from the least significant.
        let mut rev: Vec<u8> = Vec::new();
        let mut n: u64 = self.digits;
        let mut w: u64 = w0;
        while n > 0 || w > 0
            invariant
                w0 == self.scale as u64 + 1,
                forall|i: int| 0 <= i < rev@.len() ==> #[trigger] rev@[i] < 10,
                low_digits(self.digits as nat, w0 as nat) == rev@.map_values(|x: u8| x as nat)
                    + low_digits(n as nat, w as nat),
            decreases n + w,
        {
            let ghost before = rev@.map_values(|x: u8| x as nat);
            let ghost w1: nat = if w > 0 { (w - 1) as nat } else { 0 };
            assert(low_digits(n as nat, w as nat) == seq![(n % 10) as nat] + low_digits(
                (n / 10) as nat,
                w1,
            ));
            rev.push((n % 10) as u8);
            n = n / 10;
            if w > 0 {
                w = w - 1;
            }
            assert(rev@.map_values(|x: u8| x as nat) =~= before + seq![(rev@.last()) as nat]);
            assert(before + (seq![(rev@.last()) as nat] + low_digits(n as nat, w as nat)) =~= (before
                + seq![(rev@.last()) as nat]) + low_digits(n as nat, w as nat));
        }
        let ghost ds = rev@.map_values(|x: u8| x as nat);
        assert(low_digits(n as nat, w as nat) =~= Seq::<nat>::empty());
        assert(ds =~= low_digits(self.digits as nat, w0 as nat));
        proof {
            lemma_low_digits_len(self.digits as nat, w0 as nat);
        }
        let len = rev.len();
        let mut t = String::new();
        let mut k: usize = 0;
        while k < len
            invariant
                len == rev@.len(),
                k <= len,
                ds == rev@.map_values(|x: u8| x as nat),
                forall|i: int| 0 <= i < rev@.len() ==> #[trigger] rev@[i] < 10,
                t@ == Seq::new(k as nat, |i: int| digit_char(ds[len - 1 - i])),
            decreases len - k,
        {
            t.append(digit_text(rev[len - 1 - k]));
            k = k + 1;
            assert(t@ =~= Seq::new(k as nat, |i: int| digit_char(ds[len - 1 - i])));
        }
        assert(t@ =~= digits_text(ds));
        let mut r = if self.negative {
            String::from_str("-")
        } else {
            String::new()
        };
        if self.scale == 0 {
            r.append(t.as_str());
        } else {
            let cut: usize = len - self.scale as usize;
            r.append(t.as_str().substring_char(0, cut));
            r.append(".");
            r.append(t.as_str().substring_char(cut, len));
        }
        assert(r@ =~= decimal_text(*self));
        r
    }
}

} // verus!
