//! Typed resource identifiers rendered as `"<tag>-<uuid>"`.
//!
//! Every record key in the system is a 128-bit value paired with a resource
//! tag.  The textual form is the tag's short name, a hyphen, and the
//! canonical hyphenated hexadecimal rendering of the value.  Parsing
//! validates the tag against the kind the caller expects and fails on a
//! mismatch, so an identifier of one resource kind is never accepted where
//! another kind is required.

use vstd::prelude::*;

verus! {

/// The resource kinds that identifiers distinguish.
#[derive(Clone, Copy, Debug, PartialEq, Eq, Hash, Structural)]
pub enum ResourceTag {
    Org,
    OrgUser,
    User,
    Note,
    Contact,
    Link,
    Email,
    Phone,
    Task,
    Deal,
}

/// The short name that the textual form of an identifier begins with.
pub open spec fn tag_text(t: ResourceTag) -> Seq<char> {
    match t {
        ResourceTag::Org => "org"@,
        ResourceTag::OrgUser => "orguser"@,
        ResourceTag::User => "user"@,
        ResourceTag::Note => "note"@,
        ResourceTag::Contact => "contact"@,
        ResourceTag::Link => "link"@,
        ResourceTag::Email => "email"@,
        ResourceTag::Phone => "phone"@,
        ResourceTag::Task => "task"@,
        ResourceTag::Deal => "deal"@,
    }
}

/// The short name of a tag, as a string slice.
pub fn tag_str(t: ResourceTag) -> (r: &'static str)
    ensures
        r@ == tag_text(t),
{
    match t {
        ResourceTag::Org => "org",
        ResourceTag::OrgUser => "orguser",
        ResourceTag::User => "user",
        ResourceTag::Note => "note",
        ResourceTag::Contact => "contact",
        ResourceTag::Link => "link",
        ResourceTag::Email => "email",
        ResourceTag::Phone => "phone",
        ResourceTag::Task => "task",
        ResourceTag::Deal => "deal",
    }
}

/// The lowercase hexadecimal digit for a value below sixteen.
pub open spec fn hex_char_of(d: int) -> char {
    if d == 0 { '0' } else if d == 1 { '1' } else if d == 2 { '2' }
    else if d == 3 { '3' } else if d == 4 { '4' } else if d == 5 { '5' }
    else if d == 6 { '6' } else if d == 7 { '7' } else if d == 8 { '8' }
    else if d == 9 { '9' } else if d == 10 { 'a' } else if d == 11 { 'b' }
    else if d == 12 { 'c' } else if d == 13 { 'd' } else if d == 14 { 'e' }
    else { 'f' }
}

/// The value of a hexadecimal digit, upper or lower case; -1 for any
/// other character.
pub open spec fn hex_digit_value(c: char) -> int {
    if c == '0' { 0 } else if c == '1' { 1 } else if c == '2' { 2 }
    else if c == '3' { 3 } else if c == '4' { 4 } else if c == '5' { 5 }
    else if c == '6' { 6 } else if c == '7' { 7 } else if c == '8' { 8 }
    else if c == '9' { 9 }
    else if c == 'a' || c == 'A' { 10 }
    else if c == 'b' || c == 'B' { 11 }
    else if c == 'c' || c == 'C' { 12 }
    else if c == 'd' || c == 'D' { 13 }
    else if c == 'e' || c == 'E' { 14 }
    else if c == 'f' || c == 'F' { 15 }
    else { -1 }
}

pub open spec fn is_hex_char(c: char) -> bool {
    hex_digit_value(c) >= 0
}

/// Sixteen to the power `n`.
pub open spec fn pow16(n: nat) -> int
    decreases n,
{
    if n == 0 {
        1
    } else {
        16 * pow16((n - 1) as nat)
    }
}

/// The `n`-digit lowercase hexadecimal rendering of `v`, most significant
/// digit first, with leading zeros.
pub open spec fn hex_seq(v: int, n: nat) -> Seq<char>
    decreases n,
{
    if n == 0 {
        Seq::empty()
    } else {
        hex_seq(v / 16, (n - 1) as nat).push(hex_char_of(v % 16))
    }
}

/// The value of a sequence of hexadecimal digits, most significant first.
pub open spec fn hex_val(s: Seq<char>) -> int
    decreases s.len(),
{
    if s.len() == 0 {
        0
    } else {
        hex_val(s.drop_last()) * 16 + hex_digit_value(s.last())
    }
}

/// The digit index that position `p` of a uuid text holds, skipping the
/// four hyphens.
pub open spec fn uuid_hex_index(p: int) -> int {
    if p < 8 { p } else if p < 13 { p - 1 } else if p < 18 { p - 2 }
    else if p < 23 { p - 3 } else { p - 4 }
}

/// The text position of digit `k` of a uuid text, skipping the four
/// hyphens.
pub open spec fn uuid_digit_pos(k: int) -> int {
    if k < 8 { k } else if k < 12 { k + 1 } else if k < 16 { k + 2 }
    else if k < 20 { k + 3 } else { k + 4 }
}

pub open spec fn is_uuid_hyphen_pos(p: int) -> bool {
    p == 8 || p == 13 || p == 18 || p == 23
}

/// The canonical hyphenated rendering of a 128-bit value: 32 lowercase
/// hexadecimal digits with hyphens after the 8th, 12th, 16th and 20th.
pub open spec fn uuid_text(v: u128) -> Seq<char> {
    Seq::new(36, |p: int|
        if is_uuid_hyphen_pos(p) {
            '-'
        } else {
            hex_seq(v as int, 32)[uuid_hex_index(p)]
        })
}

/// Whether `s` is a hyphenated uuid text, upper or lower case.
pub open spec fn is_uuid_text(s: Seq<char>) -> bool {
    &&& s.len() == 36
    &&& forall|p: int| 0 <= p < 36 && is_uuid_hyphen_pos(p) ==> #[trigger] s[p] == '-'
    &&& forall|p: int| 0 <= p < 36 && !is_uuid_hyphen_pos(p) ==> is_hex_char(#[trigger] s[p])
}

/// The 32 hexadecimal digits of a uuid text, hyphens removed.
pub open spec fn uuid_digits(s: Seq<char>) -> Seq<char> {
    Seq::new(32, |k: int| s[uuid_digit_pos(k)])
}

/// The value that a uuid text denotes.
pub open spec fn uuid_val(s: Seq<char>) -> int {
    hex_val(uuid_digits(s))
}

/// The full textual form of an identifier.
pub open spec fn id_text(t: ResourceTag, v: u128) -> Seq<char> {
    tag_text(t) + seq!['-'] + uuid_text(v)
}

/// Whether `s` is the textual form of the identifier with tag `t` and raw
/// value `v`, accepting either case in the hexadecimal digits.
pub open spec fn is_id_text(t: ResourceTag, s: Seq<char>, v: u128) -> bool {
    let tl = tag_text(t).len() as int;
    &&& s.len() == tl + 37
    &&& s.subrange(0, tl) == tag_text(t)
    &&& s[tl] == '-'
    &&& is_uuid_text(s.subrange(tl + 1, s.len() as int))
    &&& uuid_val(s.subrange(tl + 1, s.len() as int)) == v
}

/// Whether the part of `s` before its first hyphen differs from the short
/// name of `t`.
pub open spec fn tag_mismatch_text(t: ResourceTag, s: Seq<char>) -> bool {
    exists|i: int|
        0 <= i < s.len() && #[trigger] s[i] == '-'
        && (forall|j: int| 0 <= j < i ==> s[j] != '-')
        && s.subrange(0, i) != tag_text(t)
}

/// Why a textual identifier was rejected.
#[derive(Clone, Copy, Debug, PartialEq, Eq, Structural)]
pub enum IdParseError {
    /// The text is not `"<tag>-<uuid>"` in shape.
    Malformed,
    /// The text carries the tag of a different resource kind.
    WrongTag,
}

/// A typed identifier: a resource tag and a 128-bit value.
///
/// Equality is structural; two identifiers of the same kind are equal
/// exactly when their raw values are equal.
#[derive(Clone, Copy, Debug, PartialEq, Eq, Hash, Structural)]
pub struct PrefixedUuid {
    pub prefix: ResourceTag,
    pub raw: u128,
}

/// Relies on uuid::Uuid::new_v4, taken as its 128-bit value: a fresh
/// random identifier.  Nothing is promised of the value.
#[verifier::external_body]
pub(crate) fn fresh_raw_id() -> u128 {
    uuid::Uuid::new_v4().as_u128()
}

/// Relies on String::push: appends one character.
#[verifier::external_body]
pub(crate) fn push_char(s: &mut String, c: char)
    ensures
        final(s)@ == old(s)@.push(c),
{
    s.push(c);
}

/// The lowercase hexadecimal digit for a value below sixteen.
fn hex_char(d: u8) -> (c: char)
    requires
        d < 16,
    ensures
        c == hex_char_of(d as int),
{
    match d {
        0 => '0', 1 => '1', 2 => '2', 3 => '3',
        4 => '4', 5 => '5', 6 => '6', 7 => '7',
        8 => '8', 9 => '9', 10 => 'a', 11 => 'b',
        12 => 'c', 13 => 'd', 14 => 'e', _ => 'f',
    }
}

/// The value of a hexadecimal digit character, upper or lower case.
fn hex_value(c: char) -> (r: Option<u8>)
    ensures
        match r {
            Some(d) => d < 16 && hex_digit_value(c) == d as int,
            None => hex_digit_value(c) == -1,
        },
{
    match c {
        '0' => Some(0), '1' => Some(1), '2' => Some(2), '3' => Some(3),
        '4' => Some(4), '5' => Some(5), '6' => Some(6), '7' => Some(7),
        '8' => Some(8), '9' => Some(9),
        'a' | 'A' => Some(10), 'b' | 'B' => Some(11), 'c' | 'C' => Some(12),
        'd' | 'D' => Some(13), 'e' | 'E' => Some(14), 'f' | 'F' => Some(15),
        _ => None,
    }
}

/// The `n` low hexadecimal digits of `v`, most significant first.
fn hex_digits(v: u128, n: u8) -> (s: Vec<char>)
    requires
        n <= 32,
    ensures
        s@ == hex_seq(v as int, n as nat),
        s@.len() == n,
    decreases n,
{
    if n == 0 {
        Vec::new()
    } else {
        let mut s = hex_digits(v / 16, n - 1);
        s.push(hex_char((v % 16) as u8));
        s
    }
}

/// Tag short names are short, non-empty, and contain no hyphen.
pub proof fn lemma_tag_text_shape(t: ResourceTag)
    ensures
        1 <= tag_text(t).len() <= 7,
        forall|j: int| 0 <= j < tag_text(t).len() ==> tag_text(t)[j] != '-',
{
    reveal_strlit("org");
    reveal_strlit("orguser");
    reveal_strlit("user");
    reveal_strlit("note");
    reveal_strlit("contact");
    reveal_strlit("link");
    reveal_strlit("email");
    reveal_strlit("phone");
    reveal_strlit("task");
    reveal_strlit("deal");
    match t {
        ResourceTag::Org => { assert(tag_text(t) =~= seq!['o', 'r', 'g']); }
        ResourceTag::OrgUser => {
            assert(tag_text(t) =~= seq!['o', 'r', 'g', 'u', 's', 'e', 'r']);
        }
        ResourceTag::User => { assert(tag_text(t) =~= seq!['u', 's', 'e', 'r']); }
        ResourceTag::Note => { assert(tag_text(t) =~= seq!['n', 'o', 't', 'e']); }
        ResourceTag::Contact => {
            assert(tag_text(t) =~= seq!['c', 'o', 'n', 't', 'a', 'c', 't']);
        }
        ResourceTag::Link => { assert(tag_text(t) =~= seq!['l', 'i', 'n', 'k']); }
        ResourceTag::Email => { assert(tag_text(t) =~= seq!['e', 'm', 'a', 'i', 'l']); }
        ResourceTag::Phone => { assert(tag_text(t) =~= seq!['p', 'h', 'o', 'n', 'e']); }
        ResourceTag::Task => { assert(tag_text(t) =~= seq!['t', 'a', 's', 'k']); }
        ResourceTag::Deal => { assert(tag_text(t) =~= seq!['d', 'e', 'a', 'l']); }
    }
}

/// Distinct tags have distinct short names.
pub proof fn lemma_tag_text_injective(a: ResourceTag, b: ResourceTag)
    requires
        a != b,
    ensures
        tag_text(a) != tag_text(b),
{
    reveal_strlit("org");
    reveal_strlit("orguser");
    reveal_strlit("user");
    reveal_strlit("note");
    reveal_strlit("contact");
    reveal_strlit("link");
    reveal_strlit("email");
    reveal_strlit("phone");
    reveal_strlit("task");
    reveal_strlit("deal");
    if tag_text(a) == tag_text(b) {
        assert(tag_text(a).len() == tag_text(b).len());
        assert(tag_text(a)[0] == tag_text(b)[0]);
        assert(tag_text(a)[1] == tag_text(b)[1]);
        assert(tag_text(a)[2] == tag_text(b)[2]);
        assert(false);
    }
}

/// The index of the first hyphen in `s`, if any.
fn find_first_hyphen(s: &str, n: usize) -> (r: Option<usize>)
    requires
        n == s@.len(),
    ensures
        match r {
            Some(i) => i < n && s@[i as int] == '-'
                && forall|j: int| 0 <= j < i ==> s@[j] != '-',
            None => forall|j: int| 0 <= j < n ==> s@[j] != '-',
        },
{
    let mut i: usize = 0;
    while i < n
        invariant
            0 <= i <= n,
            n == s@.len(),
            forall|j: int| 0 <= j < i ==> s@[j] != '-',
        decreases n - i,
    {
        if s.get_char(i) == '-' {
            return Some(i);
        }
        i = i + 1;
    }
    None
}

/// Whether the first `tn` characters of `s` spell `t`.
fn prefix_eq(s: &str, t: &str, tn: usize) -> (r: bool)
    requires
        tn == t@.len(),
        tn <= s@.len(),
    ensures
        r <==> s@.subrange(0, tn as int) == t@,
{
    let mut j: usize = 0;
    while j < tn
        invariant
            0 <= j <= tn,
            tn == t@.len(),
            tn <= s@.len(),
            forall|k: int| 0 <= k < j ==> s@[k] == t@[k],
        decreases tn - j,
    {
        if s.get_char(j) != t.get_char(j) {
            assert(s@.subrange(0, tn as int)[j as int] != t@[j as int]);
            return false;
        }
        j = j + 1;
    }
    assert(s@.subrange(0, tn as int) =~= t@);
    true
}

/// Thirty-two hexadecimal digits denote exactly the 128-bit values.
proof fn lemma_pow16_32()
    ensures
        pow16(32) == 0x100000000000000000000000000000000,
{
    assert(pow16(0) == 0x1);
    assert(pow16(1) == 0x10);
    assert(pow16(2) == 0x100);
    assert(pow16(3) == 0x1000);
    assert(pow16(4) == 0x10000);
    assert(pow16(5) == 0x100000);
    assert(pow16(6) == 0x1000000);
    assert(pow16(7) == 0x10000000);
    assert(pow16(8) == 0x100000000);
    assert(pow16(9) == 0x1000000000);
    assert(pow16(10) == 0x10000000000);
    assert(pow16(11) == 0x100000000000);
    assert(pow16(12) == 0x1000000000000);
    assert(pow16(13) == 0x10000000000000);
    assert(pow16(14) == 0x100000000000000);
    assert(pow16(15) == 0x1000000000000000);
    assert(pow16(16) == 0x10000000000000000);
    assert(pow16(17) == 0x100000000000000000);
    assert(pow16(18) == 0x1000000000000000000);
    assert(pow16(19) == 0x10000000000000000000);
    assert(pow16(20) == 0x100000000000000000000);
    assert(pow16(21) == 0x1000000000000000000000);
    assert(pow16(22) == 0x10000000000000000000000);
    assert(pow16(23) == 0x100000000000000000000000);
    assert(pow16(24) == 0x1000000000000000000000000);
    assert(pow16(25) == 0x10000000000000000000000000);
    assert(pow16(26) == 0x100000000000000000000000000);
    assert(pow16(27) == 0x1000000000000000000000000000);
    assert(pow16(28) == 0x10000000000000000000000000000);
    assert(pow16(29) == 0x100000000000000000000000000000);
    assert(pow16(30) == 0x1000000000000000000000000000000);
    assert(pow16(31) == 0x10000000000000000000000000000000);
    assert(pow16(32) == 0x100000000000000000000000000000000);
}

/// `pow16` does not decrease.
proof fn lemma_pow16_le(m: nat, n: nat)
    requires
        m <= n,
    ensures
        pow16(m) <= pow16(n),
        pow16(m) >= 1,
    decreases n,
{
    if n > 0 {
        if m == n {
            lemma_pow16_le((n - 1) as nat, (n - 1) as nat);
        } else {
            lemma_pow16_le(m, (n - 1) as nat);
        }
    }
}

/// Reads the 36 characters of `s` starting at `off` as a hyphenated uuid
/// text, in either case.
fn parse_uuid_at(s: &str, off: usize, n: usize) -> (r: Option<u128>)
    requires
        n == s@.len(),
        off <= n,
    ensures
        match r {
            Some(v) => is_uuid_text(s@.subrange(off as int, n as int))
                && uuid_val(s@.subrange(off as int, n as int)) == v,
            None => !is_uuid_text(s@.subrange(off as int, n as int)),
        },
{
    let ghost u = s@.subrange(off as int, n as int);
    if n - off != 36 {
        return None;
    }
    let mut v: u128 = 0;
    let mut cnt: usize = 0;
    let mut p: usize = 0;
    while p < 36
        invariant
            0 <= p <= 36,
            n == s@.len(),
            off + 36 == n,
            u == s@.subrange(off as int, n as int),
            u.len() == 36,
            cnt == if p <= 8 { p as int } else if p <= 13 { p - 1 }
                else if p <= 18 { p - 2 } else if p <= 23 { p - 3 } else { p - 4 },
            forall|q: int| 0 <= q < p && is_uuid_hyphen_pos(q) ==> #[trigger] u[q] == '-',
            forall|q: int| 0 <= q < p && !is_uuid_hyphen_pos(q) ==> is_hex_char(#[trigger] u[q]),
            v as int == hex_val(uuid_digits(u).take(cnt as int)),
            (v as int) < pow16(cnt as nat),
        decreases 36 - p,
    {
        let c = s.get_char(off + p);
        assert(c == u[p as int]);
        if p == 8 || p == 13 || p == 18 || p == 23 {
            if c != '-' {
                return None;
            }
        } else {
            match hex_value(c) {
                None => {
                    return None;
                }
                Some(d) => {
                    proof {
                        lemma_pow16_le(cnt as nat, 31);
                        lemma_pow16_32();
                        assert(pow16((cnt + 1) as nat) == 16 * pow16(cnt as nat));
                        assert(16 * pow16(cnt as nat) <= 16 * pow16(31)) by {
                            lemma_pow16_le(cnt as nat, 31);
                        };
                        assert(16 * pow16(31) == pow16(32));
                    }
                    let new_v: u128 = v * 16 + (d as u128);
                    proof {
                        let digits = uuid_digits(u);
                        assert(uuid_digit_pos(cnt as int) == p as int);
                        assert(digits[cnt as int] == u[p as int]);
                        assert(digits.take(cnt + 1).drop_last() =~= digits.take(cnt as int));
                        assert(digits.take(cnt + 1).last() == u[p as int]);
                        assert(hex_val(digits.take(cnt + 1)) == hex_val(digits.take(cnt as int)) * 16
                            + hex_digit_value(u[p as int]));
                        assert(new_v as int == hex_val(digits.take(cnt + 1)));
                    }
                    v = new_v;
                    cnt = cnt + 1;
                }
            }
        }
        p = p + 1;
    }
    proof {
        assert(uuid_digits(u).take(32) =~= uuid_digits(u));
        assert(is_uuid_text(u));
    }
    Some(v)
}

/// Reading back the digits that `hex_seq` wrote yields the value written.
proof fn lemma_hex_val_of_hex_seq(v: int, n: nat)
    requires
        0 <= v < pow16(n),
    ensures
        hex_val(hex_seq(v, n)) == v,
    decreases n,
{
    if n > 0 {
        let q = v / 16;
        let r = v % 16;
        vstd::arithmetic::div_mod::lemma_fundamental_div_mod(v, 16);
        vstd::arithmetic::div_mod::lemma_mod_division_less_than_divisor(v, 16);
        assert(q < pow16((n - 1) as nat));
        lemma_hex_val_of_hex_seq(q, (n - 1) as nat);
        let s = hex_seq(v, n);
        assert(s == hex_seq(q, (n - 1) as nat).push(hex_char_of(r)));
        assert(s.drop_last() =~= hex_seq(q, (n - 1) as nat));
        assert(s.last() == hex_char_of(r));
        assert(hex_digit_value(hex_char_of(r)) == r);
    }
}

/// Every character that `hex_seq` writes is a hexadecimal digit.
proof fn lemma_hex_seq_chars(v: int, n: nat)
    requires
        0 <= v,
    ensures
        hex_seq(v, n).len() == n,
        forall|k: int| 0 <= k < n ==> is_hex_char(#[trigger] hex_seq(v, n)[k]),
    decreases n,
{
    if n > 0 {
        vstd::arithmetic::div_mod::lemma_mod_division_less_than_divisor(v, 16);
        assert(v / 16 >= 0) by {
            vstd::arithmetic::div_mod::lemma_fundamental_div_mod(v, 16);
        };
        lemma_hex_seq_chars(v / 16, (n - 1) as nat);
        let s = hex_seq(v, n);
        assert forall|k: int| 0 <= k < n implies is_hex_char(#[trigger] s[k]) by {
            if k < n - 1 {
                assert(s[k] == hex_seq(v / 16, (n - 1) as nat)[k]);
            } else {
                assert(s[k] == hex_char_of(v % 16));
            }
        }
    }
}

/// The canonical rendering of a 128-bit value is a well-formed uuid text
/// and denotes the value itself.
pub proof fn lemma_uuid_text_round_trip(v: u128)
    ensures
        is_uuid_text(uuid_text(v)),
        uuid_val(uuid_text(v)) == v,
{
    let s = uuid_text(v);
    lemma_hex_seq_chars(v as int, 32);
    assert(is_uuid_text(s));
    assert(uuid_digits(s) =~= hex_seq(v as int, 32));
    lemma_pow16_32();
    lemma_hex_val_of_hex_seq(v as int, 32);
}

/// Round trip: the textual form of an identifier parses back to exactly
/// the identifier it was written from, for every tag and every 128-bit
/// value.  Together with the contract of `parse`, this guarantees
/// `PrefixedUuid::parse(t, id.format())` returns `Ok(id)` whenever
/// `id.prefix == t`.
pub proof fn lemma_id_text_round_trip(t: ResourceTag, v: u128)
    ensures
        is_id_text(t, id_text(t, v), v),
{
    let s = id_text(t, v);
    let tl = tag_text(t).len() as int;
    lemma_tag_text_shape(t);
    assert(s.len() == tl + 37);
    assert(s.subrange(0, tl) =~= tag_text(t));
    assert(s[tl] == '-');
    assert(s.subrange(tl + 1, s.len() as int) =~= uuid_text(v));
    lemma_uuid_text_round_trip(v);
}

/// Tag confusion is rejected: the textual form of an identifier of one
/// kind, read as another kind, is a tag mismatch.  Together with the
/// contract of `parse`, this guarantees `PrefixedUuid::parse(t, other.format())`
/// returns `Err(IdParseError::WrongTag)` whenever `other.prefix != t`.
pub proof fn lemma_id_text_wrong_tag(expected: ResourceTag, other: ResourceTag, v: u128)
    requires
        expected != other,
    ensures
        tag_mismatch_text(expected, id_text(other, v)),
{
    let s = id_text(other, v);
    let tl = tag_text(other).len() as int;
    lemma_tag_text_shape(other);
    lemma_tag_text_injective(expected, other);
    assert(s[tl] == '-');
    assert forall|j: int| 0 <= j < tl implies s[j] != '-' by {
        assert(s[j] == tag_text(other)[j]);
    }
    assert(s.subrange(0, tl) =~= tag_text(other));
    assert(s.subrange(0, tl) != tag_text(expected));
}

/// The canonical lowercase hyphenated rendering of a 128-bit value.
pub fn format_uuid(v: u128) -> (r: String)
    ensures
        r@ == uuid_text(v),
{
    let mut out = String::new();
    let digits = hex_digits(v, 32);
    let mut p: usize = 0;
    while p < 36
        invariant
            0 <= p <= 36,
            digits@ == hex_seq(v as int, 32),
            digits@.len() == 32,
            out@ == uuid_text(v).take(p as int),
        decreases 36 - p,
    {
        if p == 8 || p == 13 || p == 18 || p == 23 {
            push_char(&mut out, '-');
        } else {
            let k: usize = if p < 8 { p } else if p < 13 { p - 1 }
                else if p < 18 { p - 2 } else if p < 23 { p - 3 } else { p - 4 };
            assert(k as int == uuid_hex_index(p as int));
            push_char(&mut out, digits[k]);
        }
        assert(uuid_text(v).take(p + 1) == uuid_text(v).take(p as int).push(
            uuid_text(v)[p as int]));
        p = p + 1;
    }
    proof {
        assert(uuid_text(v).take(36) == uuid_text(v));
    }
    out
}

impl PrefixedUuid {
    /// Reads `"<tag>-<uuid>"` back into an identifier of the expected
    /// kind.  The text must begin with the expected tag's short name: a
    /// well-formed identifier of a different kind is rejected with
    /// `WrongTag`, never silently accepted.
    pub fn parse(expected: ResourceTag, s: &str) -> (r: Result<PrefixedUuid, IdParseError>)
        ensures
            forall|v: u128| is_id_text(expected, s@, v)
                ==> r == Ok::<PrefixedUuid, IdParseError>(PrefixedUuid { prefix: expected, raw: v }),
            (r matches Ok(id) ==> id.prefix == expected && is_id_text(expected, s@, id.raw)),
            (r == Err::<PrefixedUuid, IdParseError>(IdParseError::WrongTag)
                <==> tag_mismatch_text(expected, s@)),
    {
        proof {
            lemma_tag_text_shape(expected);
        }
        let ghost tl = tag_text(expected).len() as int;
        let n = s.unicode_len();
        let hy = find_first_hyphen(s, n);
        match hy {
            None => {
                proof {
                    assert forall|v: u128| !is_id_text(expected, s@, v) by {
                        if is_id_text(expected, s@, v) {
                            assert(s@[tl] == '-');
                        }
                    }
                }
                Err(IdParseError::Malformed)
            }
            Some(i) => {
                let t_str = tag_str(expected);
                let tn = t_str.unicode_len();
                let tag_ok = if i == tn {
                    prefix_eq(s, t_str, tn)
                } else {
                    false
                };
                if !tag_ok {
                    proof {
                        assert(s@.subrange(0, i as int) != tag_text(expected)) by {
                            if i != tn {
                                assert(s@.subrange(0, i as int).len() == i);
                            }
                        };
                        assert(tag_mismatch_text(expected, s@));
                        assert forall|v: u128| !is_id_text(expected, s@, v) by {
                            if is_id_text(expected, s@, v) {
                                assert(s@[tl] == '-');
                                assert forall|j: int| 0 <= j < tl implies s@[j] != '-' by {
                                    assert(s@.subrange(0, tl)[j] == s@[j]);
                                    assert(s@.subrange(0, tl)[j] == tag_text(expected)[j]);
                                }
                                assert(i as int == tl);
                                assert(s@.subrange(0, i as int) == tag_text(expected));
                            }
                        }
                    }
                    return Err(IdParseError::WrongTag);
                }
                proof {
                    assert(i as int == tl);
                    assert(s@.subrange(0, tl) == tag_text(expected));
                    assert(!tag_mismatch_text(expected, s@)) by {
                        if tag_mismatch_text(expected, s@) {
                            let i2 = choose|i2: int|
                                0 <= i2 < s@.len() && #[trigger] s@[i2] == '-'
                                && (forall|j: int| 0 <= j < i2 ==> s@[j] != '-')
                                && s@.subrange(0, i2) != tag_text(expected);
                            assert(s@[i as int] == '-');
                            assert(i2 == i as int);
                        }
                    };
                }
                match parse_uuid_at(s, i + 1, n) {
                    Some(v) => {
                        proof {
                            assert(s@.len() == tl + 37);
                            assert(is_id_text(expected, s@, v));
                            assert forall|v2: u128| is_id_text(expected, s@, v2) implies v2 == v by {
                                assert(uuid_val(s@.subrange(tl + 1, s@.len() as int)) == v2);
                            }
                        }
                        Ok(PrefixedUuid { prefix: expected, raw: v })
                    }
                    None => {
                        proof {
                            assert forall|v: u128| !is_id_text(expected, s@, v) by {
                                if is_id_text(expected, s@, v) {
                                    assert(is_uuid_text(s@.subrange(tl + 1, s@.len() as int)));
                                }
                            }
                        }
                        Err(IdParseError::Malformed)
                    }
                }
            }
        }
    }

    /// Renders the identifier as `"<tag>-<uuid>"`, the uuid part in
    /// canonical lowercase hyphenated form.
    pub fn format(&self) -> (r: String)
        ensures
            r@ == id_text(self.prefix, self.raw),
    {
        let mut out = String::from_str(tag_str(self.prefix));
        push_char(&mut out, '-');
        let uuid_part = format_uuid(self.raw);
        out.append(uuid_part.as_str());
        proof {
            assert(out@ == id_text(self.prefix, self.raw));
        }
        out
    }

    /// Pairs the given tag with a fresh random 128-bit value.
    pub fn create(prefix: ResourceTag) -> (r: PrefixedUuid)
        ensures
            r.prefix == prefix,
    {
        PrefixedUuid { prefix, raw: fresh_raw_id() }
    }
}

} // verus!
