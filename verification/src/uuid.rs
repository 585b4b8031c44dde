//! Strongly-typed UUID wrappers for resources.
//!
//! A UUID is modelled as its 128 bits, split into the high and low 64-bit
//! halves of the big-endian byte order.  Parsing of the hyphenated,
//! simple, braced and URN text forms and formatting of the canonical
//! hyphenated form are verified against character-level specifications;
//! only the generation of a fresh random value is delegated to an outside
//! crate.

use vstd::prelude::*;

use crate::error::Error;
use crate::error::Result;
use crate::text::lower_chars;

verus! {

/// Powers of sixteen.
pub open spec fn pow16(k: nat) -> nat
    decreases k,
{
    if k == 0 {
        1
    } else {
        16 * pow16((k - 1) as nat)
    }
}

proof fn lemma_pow16_mono(k1: nat, k2: nat)
    requires
        k1 <= k2,
    ensures
        pow16(k1) <= pow16(k2),
    decreases k2,
{
    if k2 > 0 && k1 < k2 {
        lemma_pow16_mono(k1, (k2 - 1) as nat);
        assert(pow16(k2) == 16 * pow16((k2 - 1) as nat));
    }
}

/// Hexadecimal digit `i` (most significant first, `0 <= i < 16`) of a
/// 64-bit value.
pub open spec fn nib64(v: u64, i: int) -> u8 {
    (((v as nat) / pow16((15 - i) as nat)) % 16) as u8
}

/// The lower-case hexadecimal character for a digit value below 16.
pub open spec fn hex_char(d: u8) -> char {
    if d < 10 {
        ((48 + d) as u8) as char
    } else {
        ((87 + d) as u8) as char
    }
}

/// The 16 hexadecimal characters of a 64-bit value, most significant first.
pub open spec fn hex16(v: u64) -> Seq<char> {
    Seq::new(16, |i: int| hex_char(nib64(v, i)))
}

/// The canonical hyphenated lower-case text of a UUID given as its two
/// 64-bit halves: `8-4-4-4-12` hexadecimal digits.
pub open spec fn uuid_chars(hi: u64, lo: u64) -> Seq<char> {
    hex16(hi).take(8) + seq!['-'] + hex16(hi).subrange(8, 12) + seq!['-'] + hex16(hi).subrange(
        12,
        16,
    ) + seq!['-'] + hex16(lo).take(4) + seq!['-'] + hex16(lo).skip(4)
}

/// The numeric value of a hexadecimal character, if it is one.
pub open spec fn hex_val(c: char) -> Option<u8> {
    let u = c as u32;
    if 48 <= u <= 57 {
        Some((u - 48) as u8)
    } else if 97 <= u <= 102 {
        Some((u - 87) as u8)
    } else if 65 <= u <= 70 {
        Some((u - 55) as u8)
    } else {
        None
    }
}

/// In the 36-character hyphenated form, the separator positions.
pub open spec fn is_sep_pos(len: int, i: int) -> bool {
    len == 36 && (i == 8 || i == 13 || i == 18 || i == 23)
}

/// The characters at digit (non-separator) positions among the first `i`.
pub open spec fn digit_chars(s: Seq<char>, i: int) -> Seq<char>
    decreases i,
{
    if i <= 0 {
        Seq::empty()
    } else if is_sep_pos(s.len() as int, i - 1) {
        digit_chars(s, i - 1)
    } else {
        digit_chars(s, i - 1).push(s[i - 1])
    }
}

/// Whether every character of the sequence is a hexadecimal digit.
pub open spec fn all_hex(s: Seq<char>) -> bool {
    forall|i: int| 0 <= i < s.len() ==> hex_val(s[i]) is Some
}

/// A well-formed UUID string: either the 36-character hyphenated form with
/// separators at positions 8, 13, 18 and 23, or the 32-character simple
/// form; all remaining characters hexadecimal digits (either case).
pub open spec fn uuid_wf(s: Seq<char>) -> bool {
    &&& (s.len() == 36 || s.len() == 32)
    &&& (forall|i: int| 0 <= i < s.len() && is_sep_pos(s.len() as int, i) ==> s[i] == '-')
    &&& all_hex(digit_chars(s, s.len() as int))
}

/// The numeric value of a sequence of hexadecimal digit values, most
/// significant first.  Digit values are taken modulo 16.
pub open spec fn val_of(ds: Seq<u8>) -> nat
    decreases ds.len(),
{
    if ds.len() == 0 {
        0
    } else {
        val_of(ds.drop_last()) * 16 + (ds.last() % 16) as nat
    }
}

/// The digit values of a sequence of hexadecimal characters.
pub open spec fn hex_digit_seq(s: Seq<char>) -> Seq<u8> {
    Seq::new(s.len(), |i: int| hex_val(s[i]).unwrap_or(0))
}

/// The UUID denoted by a bare well-formed UUID string, `None` otherwise.
pub open spec fn parse_uuid_plain(s: Seq<char>) -> Option<Uuid> {
    if uuid_wf(s) {
        let ds = hex_digit_seq(digit_chars(s, s.len() as int));
        Some(Uuid { hi: val_of(ds.take(16)) as u64, lo: val_of(ds.skip(16)) as u64 })
    } else {
        None
    }
}

/// The URN prefix `urn:uuid:`, as characters.
pub open spec fn urn_prefix() -> Seq<char> {
    seq!['u', 'r', 'n', ':', 'u', 'u', 'i', 'd', ':']
}

/// The UUID denoted by a UUID string in any of its accepted forms:
/// the braced form (`{…}` around the hyphenated digits), the URN form
/// (an `urn:uuid:` prefix in any ASCII case before the hyphenated
/// digits), or the bare hyphenated/simple form.  `None` otherwise.
pub open spec fn parse_uuid_spec(s: Seq<char>) -> Option<Uuid> {
    if s.len() == 38 && s[0] == '{' && s[37] == '}' {
        parse_uuid_plain(s.subrange(1, 37))
    } else if s.len() == 45 && lower_chars(s.take(9)) == urn_prefix() {
        parse_uuid_plain(s.skip(9))
    } else {
        parse_uuid_plain(s)
    }
}

/// A 128-bit universally unique identifier, as the high and low halves of
/// its big-endian byte order.
#[derive(Debug, Clone, Copy, PartialEq, Eq, Hash, Structural)]
pub struct Uuid {
    /// The 64 most significant bits.
    pub hi: u64,
    /// The 64 least significant bits.
    pub lo: u64,
}

/// The UUID version number: the high nibble of byte 6.
pub open spec fn uuid_version(u: Uuid) -> nat {
    ((u.hi as nat) / 4096) % 16
}

impl Uuid {
    /// The UUID whose bits are all zero.
    pub fn nil() -> (r: Self)
        ensures
            r.hi == 0 && r.lo == 0,
    {
        Uuid { hi: 0, lo: 0 }
    }

    /// Generate a fresh random (version 4) UUID.
    pub fn new_v4() -> (r: Self)
        ensures
            uuid_version(r) == 4,
    {
        let (hi, lo) = random_v4_bits();
        Uuid { hi, lo }
    }

    /// The version number encoded in this UUID (4 for random UUIDs).
    pub fn get_version_num(&self) -> (r: usize)
        ensures
            r == uuid_version(*self),
    {
        ((self.hi / 4096) % 16) as usize
    }

    /// The canonical hyphenated lower-case text of this UUID.
    pub fn to_uuid_string(&self) -> (r: String)
        ensures
            r@ == uuid_chars(self.hi, self.lo),
    {
        let mut out = String::new();
        push_hex_range(&mut out, self.hi, 0, 8);
        out.push('-');
        push_hex_range(&mut out, self.hi, 8, 12);
        out.push('-');
        push_hex_range(&mut out, self.hi, 12, 16);
        out.push('-');
        push_hex_range(&mut out, self.lo, 0, 4);
        out.push('-');
        push_hex_range(&mut out, self.lo, 4, 16);
        proof {
            assert(hex16(self.lo).subrange(4, 16) =~= hex16(self.lo).skip(4));
            assert(out@ =~= uuid_chars(self.hi, self.lo));
        }
        out
    }

    /// Parse a UUID from any of its accepted text forms: hyphenated,
    /// simple, braced, or URN.
    pub fn parse(s: &str) -> (r: Option<Uuid>)
        ensures
            r == parse_uuid_spec(s@),
    {
        let n = s.unicode_len();
        if n == 38 {
            if s.get_char(0) == '{' && s.get_char(37) == '}' {
                let inner = s.substring_char(1, 37);
                return Self::parse_plain(inner);
            }
            return Self::parse_plain(s);
        }
        if n == 45 {
            let prefix = s.substring_char(0, 9);
            proof {
                reveal_strlit("urn:uuid:");
                assert("urn:uuid:"@ =~= urn_prefix());
                assert(lower_chars("urn:uuid:"@) =~= urn_prefix());
            }
            if crate::text::eq_ignore_ascii_case(prefix, "urn:uuid:") {
                let rest = s.substring_char(9, 45);
                proof {
                    assert(rest@ =~= s@.skip(9));
                }
                return Self::parse_plain(rest);
            }
            return Self::parse_plain(s);
        }
        Self::parse_plain(s)
    }

    /// Parse a UUID from its bare hyphenated or simple text form.
    fn parse_plain(s: &str) -> (r: Option<Uuid>)
        ensures
            r == parse_uuid_plain(s@),
    {
        let n = s.unicode_len();
        if n != 36 && n != 32 {
            return None;
        }
        let mut digits: Vec<u8> = Vec::new();
        let mut i: usize = 0;
        while i < n
            invariant
                n == s@.len(),
                n == 36 || n == 32,
                i <= n,
                forall|j: int| 0 <= j < i && is_sep_pos(n as int, j) ==> s@[j] == '-',
                all_hex(digit_chars(s@, i as int)),
                digits@ =~= hex_digit_seq(digit_chars(s@, i as int)),
            decreases n - i,
        {
            let c = s.get_char(i);
            if n == 36 && (i == 8 || i == 13 || i == 18 || i == 23) {
                if c != '-' {
                    proof {
                        assert(is_sep_pos(s@.len() as int, i as int) && s@[i as int] != '-');
                        assert(!uuid_wf(s@));
                    }
                    return None;
                }
            } else {
                match hex_val_exec(c) {
                    None => {
                        proof {
                            lemma_digit_pos_in(s@, i as int, s@.len() as int);
                            assert(!all_hex(digit_chars(s@, s@.len() as int)));
                            assert(!uuid_wf(s@));
                        }
                        return None;
                    },
                    Some(d) => {
                        digits.push(d);
                        proof {
                            assert(digit_chars(s@, i + 1) =~= digit_chars(s@, i as int).push(
                                s@[i as int],
                            ));
                            assert(digits@ =~= hex_digit_seq(digit_chars(s@, i + 1)));
                        }
                    },
                }
            }
            i = i + 1;
        }
        proof {
            lemma_digit_chars_len(s@, n as int);
            if n == 36 {
                lemma_sep_count_36(36);
            } else {
                lemma_sep_count_other(n as int, n as int);
            }
            assert(digits@.len() == 32);
            assert(uuid_wf(s@));
        }
        let hi = fold_digits(&digits, 0, 16);
        let lo = fold_digits(&digits, 16, 32);
        proof {
            let ds = hex_digit_seq(digit_chars(s@, s@.len() as int));
            assert(digits@.subrange(0, 16) =~= ds.take(16));
            assert(digits@.subrange(16, 32) =~= ds.skip(16));
        }
        Some(Uuid { hi, lo })
    }
}

/// The count of separator positions below `i` for a string of length `len`.
spec fn sep_count(len: int, i: int) -> int
    decreases i,
{
    if i <= 0 {
        0
    } else if is_sep_pos(len, i - 1) {
        sep_count(len, i - 1) + 1
    } else {
        sep_count(len, i - 1)
    }
}

proof fn lemma_digit_chars_len(s: Seq<char>, i: int)
    requires
        0 <= i <= s.len(),
    ensures
        digit_chars(s, i).len() == i - sep_count(s.len() as int, i),
    decreases i,
{
    if i > 0 {
        lemma_digit_chars_len(s, i - 1);
    }
}

proof fn lemma_sep_count_36(i: int)
    requires
        0 <= i <= 36,
    ensures
        sep_count(36, i) == if i <= 8 {
            0int
        } else if i <= 13 {
            1int
        } else if i <= 18 {
            2int
        } else if i <= 23 {
            3int
        } else {
            4int
        },
    decreases i,
{
    if i > 0 {
        lemma_sep_count_36(i - 1);
    }
}

proof fn lemma_sep_count_other(len: int, i: int)
    requires
        len != 36,
        0 <= i,
    ensures
        sep_count(len, i) == 0,
    decreases i,
{
    if i > 0 {
        lemma_sep_count_other(len, i - 1);
    }
}

proof fn lemma_digit_pos_in(s: Seq<char>, i: int, j: int)
    requires
        0 <= i < j <= s.len(),
        !is_sep_pos(s.len() as int, i),
    ensures
        exists|k: int|
            0 <= k < digit_chars(s, j).len() && #[trigger] digit_chars(s, j)[k] == s[i],
    decreases j,
{
    if j == i + 1 {
        let k = digit_chars(s, i).len() as int;
        assert(digit_chars(s, j)[k] == s[i]);
    } else {
        lemma_digit_pos_in(s, i, j - 1);
        let k = choose|k: int|
            0 <= k < digit_chars(s, j - 1).len() && #[trigger] digit_chars(s, j - 1)[k] == s[i];
        assert(digit_chars(s, j)[k] == s[i]);
    }
}

/// The numeric value of a hexadecimal character, if it is one.
fn hex_val_exec(c: char) -> (r: Option<u8>)
    ensures
        r == hex_val(c),
{
    let u = c as u32;
    if 48 <= u && u <= 57 {
        Some((u - 48) as u8)
    } else if 97 <= u && u <= 102 {
        Some((u - 87) as u8)
    } else if 65 <= u && u <= 70 {
        Some((u - 55) as u8)
    } else {
        None
    }
}

/// `16^k` for `k <= 15`.
fn pow16_exec(k: usize) -> (r: u64)
    requires
        k <= 15,
    ensures
        r as nat == pow16(k as nat),
        r >= 1,
{
    let mut r: u64 = 1;
    let mut j: usize = 0;
    while j < k
        invariant
            j <= k <= 15,
            r as nat == pow16(j as nat),
        decreases k - j,
    {
        proof {
            lemma_pow16_mono(j as nat, 14);
            reveal_with_fuel(pow16, 16);
            assert(pow16(14) < 0x1000000000000000);
        }
        r = r * 16;
        j = j + 1;
    }
    proof {
        lemma_pow16_mono(0, k as nat);
    }
    r
}

/// Append hexadecimal digits `from..to` of `v` (most significant first).
fn push_hex_range(out: &mut String, v: u64, from: usize, to: usize)
    requires
        from <= to <= 16,
    ensures
        final(out)@ == old(out)@ + hex16(v).subrange(from as int, to as int),
{
    let mut i = from;
    proof {
        assert(old(out)@ + hex16(v).subrange(from as int, from as int) =~= old(out)@);
    }
    while i < to
        invariant
            from <= i <= to <= 16,
            out@ == old(out)@ + hex16(v).subrange(from as int, i as int),
        decreases to - i,
    {
        let p = pow16_exec(15 - i);
        let d = ((v / p) % 16) as u8;
        let c = if d < 10 {
            (48 + d) as char
        } else {
            (87 + d) as char
        };
        proof {
            assert(c == hex_char(nib64(v, i as int)));
        }
        out.push(c);
        proof {
            assert(hex16(v).subrange(from as int, i + 1) =~= hex16(v).subrange(
                from as int,
                i as int,
            ).push(hex16(v)[i as int]));
            assert(out@ =~= old(out)@ + hex16(v).subrange(from as int, i + 1));
        }
        i = i + 1;
    }
}

/// The value of digit positions `from..to` (most significant first).
fn fold_digits(digits: &Vec<u8>, from: usize, to: usize) -> (r: u64)
    requires
        from <= to <= digits@.len(),
        to - from <= 16,
    ensures
        r as nat == val_of(digits@.subrange(from as int, to as int)),
{
    let mut r: u64 = 0;
    let mut i = from;
    proof {
        assert(digits@.subrange(from as int, from as int) =~= Seq::<u8>::empty());
    }
    while i < to
        invariant
            from <= i <= to <= digits@.len(),
            to - from <= 16,
            r as nat == val_of(digits@.subrange(from as int, i as int)),
            (r as nat) < pow16((i - from) as nat),
        decreases to - i,
    {
        let d = digits[i];
        proof {
            lemma_pow16_mono((i - from) as nat, 15);
            reveal_with_fuel(pow16, 17);
            assert(pow16(15) == 0x1000000000000000);
            assert(r as nat * 16 + 15 < 0x10000000000000000) by (nonlinear_arith)
                requires
                    (r as nat) < 0x1000000000000000,
            ;
            assert(digits@.subrange(from as int, i + 1).drop_last() =~= digits@.subrange(
                from as int,
                i as int,
            ));
            assert(digits@.subrange(from as int, i + 1).last() == digits@[i as int]);
        }
        r = r * 16 + (d % 16) as u64;
        proof {
            assert((r as nat) < pow16((i + 1 - from) as nat)) by (nonlinear_arith)
                requires
                    pow16((i + 1 - from) as nat) == 16 * pow16((i - from) as nat),
                    (r as nat) < val_of(digits@.subrange(from as int, i as int)) * 16 + 16,
                    val_of(digits@.subrange(from as int, i as int)) < pow16((i - from) as nat),
            ;
        }
        i = i + 1;
    }
    r
}

/// Relies on `uuid::Uuid::new_v4`: a freshly generated random UUID carrying
/// version number 4 (high nibble of byte 6) and the standard variant (top
/// two bits of byte 8 are `10`), returned as the high and low halves of its
/// big-endian 128-bit value.
#[verifier::external_body]
fn random_v4_bits() -> (r: (u64, u64))
    ensures
        ((r.0 as nat) / 4096) % 16 == 4,
        ((r.1 as nat) / 0x4000000000000000) % 4 == 2,
{
    let value = uuid::Uuid::new_v4().as_u128();
    (((value >> 64) as u64), (value as u64))
}

/// Validates a UUID string, returning its value.  Fails with
/// [`Error::InvalidUuid`] holding the offending input when the string is not
/// a well-formed UUID.
pub fn validate_uuid(s: &str) -> (r: Result<Uuid>)
    ensures
        match parse_uuid_spec(s@) {
            Some(u) => r == Ok::<Uuid, Error>(u),
            None => r matches Err(e) && e matches Error::InvalidUuid(m) && m@ == s@,
        },
{
    match Uuid::parse(s) {
        Some(u) => Ok(u),
        None => Err(Error::InvalidUuid(s.to_owned())),
    }
}


/// Virtual machine identifier.
#[derive(Debug, Clone, Copy, PartialEq, Eq, Hash, Structural)]
pub struct VmUuid(pub Uuid);

impl VmUuid {
    /// Creates a new wrapper from a [`Uuid`].
    pub fn new(uuid: Uuid) -> (r: Self)
        ensures
            r.0 == uuid,
    {
        Self(uuid)
    }

    /// Creates a new random (version 4) identifier.
    pub fn new_v4() -> (r: Self)
        ensures
            uuid_version(r.0) == 4,
    {
        Self(Uuid::new_v4())
    }

    /// Returns the inner [`Uuid`].
    pub fn as_uuid(&self) -> (r: &Uuid)
        ensures
            *r == self.0,
    {
        &self.0
    }

    /// Converts to the inner [`Uuid`].
    pub fn into_uuid(self) -> (r: Uuid)
        ensures
            r == self.0,
    {
        self.0
    }

    /// Parses an identifier from a string, failing with
    /// [`Error::InvalidUuid`] holding the input on malformed input.
    pub fn parse_str(input: &str) -> (r: Result<Self>)
        ensures
            match parse_uuid_spec(input@) {
                Some(u) => r == Ok::<VmUuid, Error>(VmUuid(u)),
                None => r matches Err(e) && e matches Error::InvalidUuid(m) && m@ == input@,
            },
    {
        match validate_uuid(input) {
            Ok(u) => Ok(Self(u)),
            Err(e) => Err(e),
        }
    }

    /// The canonical hyphenated text of this identifier.
    pub fn to_uuid_string(&self) -> (r: String)
        ensures
            r@ == uuid_chars(self.0.hi, self.0.lo),
    {
        self.0.to_uuid_string()
    }
}

impl From<Uuid> for VmUuid {
    fn from(uuid: Uuid) -> Self {
        Self(uuid)
    }
}

impl vstd::std_specs::convert::FromSpecImpl<Uuid> for VmUuid {
    open spec fn obeys_from_spec() -> bool {
        true
    }

    open spec fn from_spec(t: Uuid) -> Self {
        VmUuid(t)
    }
}

impl From<VmUuid> for Uuid {
    fn from(wrapper: VmUuid) -> Self {
        wrapper.0
    }
}

impl vstd::std_specs::convert::FromSpecImpl<VmUuid> for Uuid {
    open spec fn obeys_from_spec() -> bool {
        true
    }

    open spec fn from_spec(t: VmUuid) -> Self {
        t.0
    }
}

impl core::str::FromStr for VmUuid {
    type Err = Error;

    fn from_str(s: &str) -> Result<Self> {
        Self::parse_str(s)
    }
}

/// Server/compute node identifier.
#[derive(Debug, Clone, Copy, PartialEq, Eq, Hash, Structural)]
pub struct ServerUuid(pub Uuid);

impl ServerUuid {
    /// Creates a new wrapper from a [`Uuid`].
    pub fn new(uuid: Uuid) -> (r: Self)
        ensures
            r.0 == uuid,
    {
        Self(uuid)
    }

    /// Creates a new random (version 4) identifier.
    pub fn new_v4() -> (r: Self)
        ensures
            uuid_version(r.0) == 4,
    {
        Self(Uuid::new_v4())
    }

    /// Returns the inner [`Uuid`].
    pub fn as_uuid(&self) -> (r: &Uuid)
        ensures
            *r == self.0,
    {
        &self.0
    }

    /// Converts to the inner [`Uuid`].
    pub fn into_uuid(self) -> (r: Uuid)
        ensures
            r == self.0,
    {
        self.0
    }

    /// Parses an identifier from a string, failing with
    /// [`Error::InvalidUuid`] holding the input on malformed input.
    pub fn parse_str(input: &str) -> (r: Result<Self>)
        ensures
            match parse_uuid_spec(input@) {
                Some(u) => r == Ok::<ServerUuid, Error>(ServerUuid(u)),
                None => r matches Err(e) && e matches Error::InvalidUuid(m) && m@ == input@,
            },
    {
        match validate_uuid(input) {
            Ok(u) => Ok(Self(u)),
            Err(e) => Err(e),
        }
    }

    /// The canonical hyphenated text of this identifier.
    pub fn to_uuid_string(&self) -> (r: String)
        ensures
            r@ == uuid_chars(self.0.hi, self.0.lo),
    {
        self.0.to_uuid_string()
    }
}

impl From<Uuid> for ServerUuid {
    fn from(uuid: Uuid) -> Self {
        Self(uuid)
    }
}

impl vstd::std_specs::convert::FromSpecImpl<Uuid> for ServerUuid {
    open spec fn obeys_from_spec() -> bool {
        true
    }

    open spec fn from_spec(t: Uuid) -> Self {
        ServerUuid(t)
    }
}

impl From<ServerUuid> for Uuid {
    fn from(wrapper: ServerUuid) -> Self {
        wrapper.0
    }
}

impl vstd::std_specs::convert::FromSpecImpl<ServerUuid> for Uuid {
    open spec fn obeys_from_spec() -> bool {
        true
    }

    open spec fn from_spec(t: ServerUuid) -> Self {
        t.0
    }
}

impl core::str::FromStr for ServerUuid {
    type Err = Error;

    fn from_str(s: &str) -> Result<Self> {
        Self::parse_str(s)
    }
}

/// Network identifier.
#[derive(Debug, Clone, Copy, PartialEq, Eq, Hash, Structural)]
pub struct NetworkUuid(pub Uuid);

impl NetworkUuid {
    /// Creates a new wrapper from a [`Uuid`].
    pub fn new(uuid: Uuid) -> (r: Self)
        ensures
            r.0 == uuid,
    {
        Self(uuid)
    }

    /// Creates a new random (version 4) identifier.
    pub fn new_v4() -> (r: Self)
        ensures
            uuid_version(r.0) == 4,
    {
        Self(Uuid::new_v4())
    }

    /// Returns the inner [`Uuid`].
    pub fn as_uuid(&self) -> (r: &Uuid)
        ensures
            *r == self.0,
    {
        &self.0
    }

    /// Converts to the inner [`Uuid`].
    pub fn into_uuid(self) -> (r: Uuid)
        ensures
            r == self.0,
    {
        self.0
    }

    /// Parses an identifier from a string, failing with
    /// [`Error::InvalidUuid`] holding the input on malformed input.
    pub fn parse_str(input: &str) -> (r: Result<Self>)
        ensures
            match parse_uuid_spec(input@) {
                Some(u) => r == Ok::<NetworkUuid, Error>(NetworkUuid(u)),
                None => r matches Err(e) && e matches Error::InvalidUuid(m) && m@ == input@,
            },
    {
        match validate_uuid(input) {
            Ok(u) => Ok(Self(u)),
            Err(e) => Err(e),
        }
    }

    /// The canonical hyphenated text of this identifier.
    pub fn to_uuid_string(&self) -> (r: String)
        ensures
            r@ == uuid_chars(self.0.hi, self.0.lo),
    {
        self.0.to_uuid_string()
    }
}

impl From<Uuid> for NetworkUuid {
    fn from(uuid: Uuid) -> Self {
        Self(uuid)
    }
}

impl vstd::std_specs::convert::FromSpecImpl<Uuid> for NetworkUuid {
    open spec fn obeys_from_spec() -> bool {
        true
    }

    open spec fn from_spec(t: Uuid) -> Self {
        NetworkUuid(t)
    }
}

impl From<NetworkUuid> for Uuid {
    fn from(wrapper: NetworkUuid) -> Self {
        wrapper.0
    }
}

impl vstd::std_specs::convert::FromSpecImpl<NetworkUuid> for Uuid {
    open spec fn obeys_from_spec() -> bool {
        true
    }

    open spec fn from_spec(t: NetworkUuid) -> Self {
        t.0
    }
}

impl core::str::FromStr for NetworkUuid {
    type Err = Error;

    fn from_str(s: &str) -> Result<Self> {
        Self::parse_str(s)
    }
}

/// Image identifier.
#[derive(Debug, Clone, Copy, PartialEq, Eq, Hash, Structural)]
pub struct ImageUuid(pub Uuid);

impl ImageUuid {
    /// Creates a new wrapper from a [`Uuid`].
    pub fn new(uuid: Uuid) -> (r: Self)
        ensures
            r.0 == uuid,
    {
        Self(uuid)
    }

    /// Creates a new random (version 4) identifier.
    pub fn new_v4() -> (r: Self)
        ensures
            uuid_version(r.0) == 4,
    {
        Self(Uuid::new_v4())
    }

    /// Returns the inner [`Uuid`].
    pub fn as_uuid(&self) -> (r: &Uuid)
        ensures
            *r == self.0,
    {
        &self.0
    }

    /// Converts to the inner [`Uuid`].
    pub fn into_uuid(self) -> (r: Uuid)
        ensures
            r == self.0,
    {
        self.0
    }

    /// Parses an identifier from a string, failing with
    /// [`Error::InvalidUuid`] holding the input on malformed input.
    pub fn parse_str(input: &str) -> (r: Result<Self>)
        ensures
            match parse_uuid_spec(input@) {
                Some(u) => r == Ok::<ImageUuid, Error>(ImageUuid(u)),
                None => r matches Err(e) && e matches Error::InvalidUuid(m) && m@ == input@,
            },
    {
        match validate_uuid(input) {
            Ok(u) => Ok(Self(u)),
            Err(e) => Err(e),
        }
    }

    /// The canonical hyphenated text of this identifier.
    pub fn to_uuid_string(&self) -> (r: String)
        ensures
            r@ == uuid_chars(self.0.hi, self.0.lo),
    {
        self.0.to_uuid_string()
    }
}

impl From<Uuid> for ImageUuid {
    fn from(uuid: Uuid) -> Self {
        Self(uuid)
    }
}

impl vstd::std_specs::convert::FromSpecImpl<Uuid> for ImageUuid {
    open spec fn obeys_from_spec() -> bool {
        true
    }

    open spec fn from_spec(t: Uuid) -> Self {
        ImageUuid(t)
    }
}

impl From<ImageUuid> for Uuid {
    fn from(wrapper: ImageUuid) -> Self {
        wrapper.0
    }
}

impl vstd::std_specs::convert::FromSpecImpl<ImageUuid> for Uuid {
    open spec fn obeys_from_spec() -> bool {
        true
    }

    open spec fn from_spec(t: ImageUuid) -> Self {
        t.0
    }
}

impl core::str::FromStr for ImageUuid {
    type Err = Error;

    fn from_str(s: &str) -> Result<Self> {
        Self::parse_str(s)
    }
}

/// Package identifier.
#[derive(Debug, Clone, Copy, PartialEq, Eq, Hash, Structural)]
pub struct PackageUuid(pub Uuid);

impl PackageUuid {
    /// Creates a new wrapper from a [`Uuid`].
    pub fn new(uuid: Uuid) -> (r: Self)
        ensures
            r.0 == uuid,
    {
        Self(uuid)
    }

    /// Creates a new random (version 4) identifier.
    pub fn new_v4() -> (r: Self)
        ensures
            uuid_version(r.0) == 4,
    {
        Self(Uuid::new_v4())
    }

    /// Returns the inner [`Uuid`].
    pub fn as_uuid(&self) -> (r: &Uuid)
        ensures
            *r == self.0,
    {
        &self.0
    }

    /// Converts to the inner [`Uuid`].
    pub fn into_uuid(self) -> (r: Uuid)
        ensures
            r == self.0,
    {
        self.0
    }

    /// Parses an identifier from a string, failing with
    /// [`Error::InvalidUuid`] holding the input on malformed input.
    pub fn parse_str(input: &str) -> (r: Result<Self>)
        ensures
            match parse_uuid_spec(input@) {
                Some(u) => r == Ok::<PackageUuid, Error>(PackageUuid(u)),
                None => r matches Err(e) && e matches Error::InvalidUuid(m) && m@ == input@,
            },
    {
        match validate_uuid(input) {
            Ok(u) => Ok(Self(u)),
            Err(e) => Err(e),
        }
    }

    /// The canonical hyphenated text of this identifier.
    pub fn to_uuid_string(&self) -> (r: String)
        ensures
            r@ == uuid_chars(self.0.hi, self.0.lo),
    {
        self.0.to_uuid_string()
    }
}

impl From<Uuid> for PackageUuid {
    fn from(uuid: Uuid) -> Self {
        Self(uuid)
    }
}

impl vstd::std_specs::convert::FromSpecImpl<Uuid> for PackageUuid {
    open spec fn obeys_from_spec() -> bool {
        true
    }

    open spec fn from_spec(t: Uuid) -> Self {
        PackageUuid(t)
    }
}

impl From<PackageUuid> for Uuid {
    fn from(wrapper: PackageUuid) -> Self {
        wrapper.0
    }
}

impl vstd::std_specs::convert::FromSpecImpl<PackageUuid> for Uuid {
    open spec fn obeys_from_spec() -> bool {
        true
    }

    open spec fn from_spec(t: PackageUuid) -> Self {
        t.0
    }
}

impl core::str::FromStr for PackageUuid {
    type Err = Error;

    fn from_str(s: &str) -> Result<Self> {
        Self::parse_str(s)
    }
}

/// Owner/user identifier.
#[derive(Debug, Clone, Copy, PartialEq, Eq, Hash, Structural)]
pub struct OwnerUuid(pub Uuid);

impl OwnerUuid {
    /// Creates a new wrapper from a [`Uuid`].
    pub fn new(uuid: Uuid) -> (r: Self)
        ensures
            r.0 == uuid,
    {
        Self(uuid)
    }

    /// Creates a new random (version 4) identifier.
    pub fn new_v4() -> (r: Self)
        ensures
            uuid_version(r.0) == 4,
    {
        Self(Uuid::new_v4())
    }

    /// Returns the inner [`Uuid`].
    pub fn as_uuid(&self) -> (r: &Uuid)
        ensures
            *r == self.0,
    {
        &self.0
    }

    /// Converts to the inner [`Uuid`].
    pub fn into_uuid(self) -> (r: Uuid)
        ensures
            r == self.0,
    {
        self.0
    }

    /// Parses an identifier from a string, failing with
    /// [`Error::InvalidUuid`] holding the input on malformed input.
    pub fn parse_str(input: &str) -> (r: Result<Self>)
        ensures
            match parse_uuid_spec(input@) {
                Some(u) => r == Ok::<OwnerUuid, Error>(OwnerUuid(u)),
                None => r matches Err(e) && e matches Error::InvalidUuid(m) && m@ == input@,
            },
    {
        match validate_uuid(input) {
            Ok(u) => Ok(Self(u)),
            Err(e) => Err(e),
        }
    }

    /// The canonical hyphenated text of this identifier.
    pub fn to_uuid_string(&self) -> (r: String)
        ensures
            r@ == uuid_chars(self.0.hi, self.0.lo),
    {
        self.0.to_uuid_string()
    }
}

impl From<Uuid> for OwnerUuid {
    fn from(uuid: Uuid) -> Self {
        Self(uuid)
    }
}

impl vstd::std_specs::convert::FromSpecImpl<Uuid> for OwnerUuid {
    open spec fn obeys_from_spec() -> bool {
        true
    }

    open spec fn from_spec(t: Uuid) -> Self {
        OwnerUuid(t)
    }
}

impl From<OwnerUuid> for Uuid {
    fn from(wrapper: OwnerUuid) -> Self {
        wrapper.0
    }
}

impl vstd::std_specs::convert::FromSpecImpl<OwnerUuid> for Uuid {
    open spec fn obeys_from_spec() -> bool {
        true
    }

    open spec fn from_spec(t: OwnerUuid) -> Self {
        t.0
    }
}

impl core::str::FromStr for OwnerUuid {
    type Err = Error;

    fn from_str(s: &str) -> Result<Self> {
        Self::parse_str(s)
    }
}

/// Application identifier (directory service).
#[derive(Debug, Clone, Copy, PartialEq, Eq, Hash, Structural)]
pub struct AppUuid(pub Uuid);

impl AppUuid {
    /// Creates a new wrapper from a [`Uuid`].
    pub fn new(uuid: Uuid) -> (r: Self)
        ensures
            r.0 == uuid,
    {
        Self(uuid)
    }

    /// Creates a new random (version 4) identifier.
    pub fn new_v4() -> (r: Self)
        ensures
            uuid_version(r.0) == 4,
    {
        Self(Uuid::new_v4())
    }

    /// Returns the inner [`Uuid`].
    pub fn as_uuid(&self) -> (r: &Uuid)
        ensures
            *r == self.0,
    {
        &self.0
    }

    /// Converts to the inner [`Uuid`].
    pub fn into_uuid(self) -> (r: Uuid)
        ensures
            r == self.0,
    {
        self.0
    }

    /// Parses an identifier from a string, failing with
    /// [`Error::InvalidUuid`] holding the input on malformed input.
    pub fn parse_str(input: &str) -> (r: Result<Self>)
        ensures
            match parse_uuid_spec(input@) {
                Some(u) => r == Ok::<AppUuid, Error>(AppUuid(u)),
                None => r matches Err(e) && e matches Error::InvalidUuid(m) && m@ == input@,
            },
    {
        match validate_uuid(input) {
            Ok(u) => Ok(Self(u)),
            Err(e) => Err(e),
        }
    }

    /// The canonical hyphenated text of this identifier.
    pub fn to_uuid_string(&self) -> (r: String)
        ensures
            r@ == uuid_chars(self.0.hi, self.0.lo),
    {
        self.0.to_uuid_string()
    }
}

impl From<Uuid> for AppUuid {
    fn from(uuid: Uuid) -> Self {
        Self(uuid)
    }
}

impl vstd::std_specs::convert::FromSpecImpl<Uuid> for AppUuid {
    open spec fn obeys_from_spec() -> bool {
        true
    }

    open spec fn from_spec(t: Uuid) -> Self {
        AppUuid(t)
    }
}

impl From<AppUuid> for Uuid {
    fn from(wrapper: AppUuid) -> Self {
        wrapper.0
    }
}

impl vstd::std_specs::convert::FromSpecImpl<AppUuid> for Uuid {
    open spec fn obeys_from_spec() -> bool {
        true
    }

    open spec fn from_spec(t: AppUuid) -> Self {
        t.0
    }
}

impl core::str::FromStr for AppUuid {
    type Err = Error;

    fn from_str(s: &str) -> Result<Self> {
        Self::parse_str(s)
    }
}

/// Instance identifier (directory service).
#[derive(Debug, Clone, Copy, PartialEq, Eq, Hash, Structural)]
pub struct InstanceUuid(pub Uuid);

impl InstanceUuid {
    /// Creates a new wrapper from a [`Uuid`].
    pub fn new(uuid: Uuid) -> (r: Self)
        ensures
            r.0 == uuid,
    {
        Self(uuid)
    }

    /// Creates a new random (version 4) identifier.
    pub fn new_v4() -> (r: Self)
        ensures
            uuid_version(r.0) == 4,
    {
        Self(Uuid::new_v4())
    }

    /// Returns the inner [`Uuid`].
    pub fn as_uuid(&self) -> (r: &Uuid)
        ensures
            *r == self.0,
    {
        &self.0
    }

    /// Converts to the inner [`Uuid`].
    pub fn into_uuid(self) -> (r: Uuid)
        ensures
            r == self.0,
    {
        self.0
    }

    /// Parses an identifier from a string, failing with
    /// [`Error::InvalidUuid`] holding the input on malformed input.
    pub fn parse_str(input: &str) -> (r: Result<Self>)
        ensures
            match parse_uuid_spec(input@) {
                Some(u) => r == Ok::<InstanceUuid, Error>(InstanceUuid(u)),
                None => r matches Err(e) && e matches Error::InvalidUuid(m) && m@ == input@,
            },
    {
        match validate_uuid(input) {
            Ok(u) => Ok(Self(u)),
            Err(e) => Err(e),
        }
    }

    /// The canonical hyphenated text of this identifier.
    pub fn to_uuid_string(&self) -> (r: String)
        ensures
            r@ == uuid_chars(self.0.hi, self.0.lo),
    {
        self.0.to_uuid_string()
    }
}

impl From<Uuid> for InstanceUuid {
    fn from(uuid: Uuid) -> Self {
        Self(uuid)
    }
}

impl vstd::std_specs::convert::FromSpecImpl<Uuid> for InstanceUuid {
    open spec fn obeys_from_spec() -> bool {
        true
    }

    open spec fn from_spec(t: Uuid) -> Self {
        InstanceUuid(t)
    }
}

impl From<InstanceUuid> for Uuid {
    fn from(wrapper: InstanceUuid) -> Self {
        wrapper.0
    }
}

impl vstd::std_specs::convert::FromSpecImpl<InstanceUuid> for Uuid {
    open spec fn obeys_from_spec() -> bool {
        true
    }

    open spec fn from_spec(t: InstanceUuid) -> Self {
        t.0
    }
}

impl core::str::FromStr for InstanceUuid {
    type Err = Error;

    fn from_str(s: &str) -> Result<Self> {
        Self::parse_str(s)
    }
}

/// Service identifier (directory service).
#[derive(Debug, Clone, Copy, PartialEq, Eq, Hash, Structural)]
pub struct ServiceUuid(pub Uuid);

impl ServiceUuid {
    /// Creates a new wrapper from a [`Uuid`].
    pub fn new(uuid: Uuid) -> (r: Self)
        ensures
            r.0 == uuid,
    {
        Self(uuid)
    }

    /// Creates a new random (version 4) identifier.
    pub fn new_v4() -> (r: Self)
        ensures
            uuid_version(r.0) == 4,
    {
        Self(Uuid::new_v4())
    }

    /// Returns the inner [`Uuid`].
    pub fn as_uuid(&self) -> (r: &Uuid)
        ensures
            *r == self.0,
    {
        &self.0
    }

    /// Converts to the inner [`Uuid`].
    pub fn into_uuid(self) -> (r: Uuid)
        ensures
            r == self.0,
    {
        self.0
    }

    /// Parses an identifier from a string, failing with
    /// [`Error::InvalidUuid`] holding the input on malformed input.
    pub fn parse_str(input: &str) -> (r: Result<Self>)
        ensures
            match parse_uuid_spec(input@) {
                Some(u) => r == Ok::<ServiceUuid, Error>(ServiceUuid(u)),
                None => r matches Err(e) && e matches Error::InvalidUuid(m) && m@ == input@,
            },
    {
        match validate_uuid(input) {
            Ok(u) => Ok(Self(u)),
            Err(e) => Err(e),
        }
    }

    /// The canonical hyphenated text of this identifier.
    pub fn to_uuid_string(&self) -> (r: String)
        ensures
            r@ == uuid_chars(self.0.hi, self.0.lo),
    {
        self.0.to_uuid_string()
    }
}

impl From<Uuid> for ServiceUuid {
    fn from(uuid: Uuid) -> Self {
        Self(uuid)
    }
}

impl vstd::std_specs::convert::FromSpecImpl<Uuid> for ServiceUuid {
    open spec fn obeys_from_spec() -> bool {
        true
    }

    open spec fn from_spec(t: Uuid) -> Self {
        ServiceUuid(t)
    }
}

impl From<ServiceUuid> for Uuid {
    fn from(wrapper: ServiceUuid) -> Self {
        wrapper.0
    }
}

impl vstd::std_specs::convert::FromSpecImpl<ServiceUuid> for Uuid {
    open spec fn obeys_from_spec() -> bool {
        true
    }

    open spec fn from_spec(t: ServiceUuid) -> Self {
        t.0
    }
}

impl core::str::FromStr for ServiceUuid {
    type Err = Error;

    fn from_str(s: &str) -> Result<Self> {
        Self::parse_str(s)
    }
}

/// Job identifier.
#[derive(Debug, Clone, Copy, PartialEq, Eq, Hash, Structural)]
pub struct JobUuid(pub Uuid);

impl JobUuid {
    /// Creates a new wrapper from a [`Uuid`].
    pub fn new(uuid: Uuid) -> (r: Self)
        ensures
            r.0 == uuid,
    {
        Self(uuid)
    }

    /// Creates a new random (version 4) identifier.
    pub fn new_v4() -> (r: Self)
        ensures
            uuid_version(r.0) == 4,
    {
        Self(Uuid::new_v4())
    }

    /// Returns the inner [`Uuid`].
    pub fn as_uuid(&self) -> (r: &Uuid)
        ensures
            *r == self.0,
    {
        &self.0
    }

    /// Converts to the inner [`Uuid`].
    pub fn into_uuid(self) -> (r: Uuid)
        ensures
            r == self.0,
    {
        self.0
    }

    /// Parses an identifier from a string, failing with
    /// [`Error::InvalidUuid`] holding the input on malformed input.
    pub fn parse_str(input: &str) -> (r: Result<Self>)
        ensures
            match parse_uuid_spec(input@) {
                Some(u) => r == Ok::<JobUuid, Error>(JobUuid(u)),
                None => r matches Err(e) && e matches Error::InvalidUuid(m) && m@ == input@,
            },
    {
        match validate_uuid(input) {
            Ok(u) => Ok(Self(u)),
            Err(e) => Err(e),
        }
    }

    /// The canonical hyphenated text of this identifier.
    pub fn to_uuid_string(&self) -> (r: String)
        ensures
            r@ == uuid_chars(self.0.hi, self.0.lo),
    {
        self.0.to_uuid_string()
    }
}

impl From<Uuid> for JobUuid {
    fn from(uuid: Uuid) -> Self {
        Self(uuid)
    }
}

impl vstd::std_specs::convert::FromSpecImpl<Uuid> for JobUuid {
    open spec fn obeys_from_spec() -> bool {
        true
    }

    open spec fn from_spec(t: Uuid) -> Self {
        JobUuid(t)
    }
}

impl From<JobUuid> for Uuid {
    fn from(wrapper: JobUuid) -> Self {
        wrapper.0
    }
}

impl vstd::std_specs::convert::FromSpecImpl<JobUuid> for Uuid {
    open spec fn obeys_from_spec() -> bool {
        true
    }

    open spec fn from_spec(t: JobUuid) -> Self {
        t.0
    }
}

impl core::str::FromStr for JobUuid {
    type Err = Error;

    fn from_str(s: &str) -> Result<Self> {
        Self::parse_str(s)
    }
}

/// Firewall rule identifier.
#[derive(Debug, Clone, Copy, PartialEq, Eq, Hash, Structural)]
pub struct FirewallRuleUuid(pub Uuid);

impl FirewallRuleUuid {
    /// Creates a new wrapper from a [`Uuid`].
    pub fn new(uuid: Uuid) -> (r: Self)
        ensures
            r.0 == uuid,
    {
        Self(uuid)
    }

    /// Creates a new random (version 4) identifier.
    pub fn new_v4() -> (r: Self)
        ensures
            uuid_version(r.0) == 4,
    {
        Self(Uuid::new_v4())
    }

    /// Returns the inner [`Uuid`].
    pub fn as_uuid(&self) -> (r: &Uuid)
        ensures
            *r == self.0,
    {
        &self.0
    }

    /// Converts to the inner [`Uuid`].
    pub fn into_uuid(self) -> (r: Uuid)
        ensures
            r == self.0,
    {
        self.0
    }

    /// Parses an identifier from a string, failing with
    /// [`Error::InvalidUuid`] holding the input on malformed input.
    pub fn parse_str(input: &str) -> (r: Result<Self>)
        ensures
            match parse_uuid_spec(input@) {
                Some(u) => r == Ok::<FirewallRuleUuid, Error>(FirewallRuleUuid(u)),
                None => r matches Err(e) && e matches Error::InvalidUuid(m) && m@ == input@,
            },
    {
        match validate_uuid(input) {
            Ok(u) => Ok(Self(u)),
            Err(e) => Err(e),
        }
    }

    /// The canonical hyphenated text of this identifier.
    pub fn to_uuid_string(&self) -> (r: String)
        ensures
            r@ == uuid_chars(self.0.hi, self.0.lo),
    {
        self.0.to_uuid_string()
    }
}

impl From<Uuid> for FirewallRuleUuid {
    fn from(uuid: Uuid) -> Self {
        Self(uuid)
    }
}

impl vstd::std_specs::convert::FromSpecImpl<Uuid> for FirewallRuleUuid {
    open spec fn obeys_from_spec() -> bool {
        true
    }

    open spec fn from_spec(t: Uuid) -> Self {
        FirewallRuleUuid(t)
    }
}

impl From<FirewallRuleUuid> for Uuid {
    fn from(wrapper: FirewallRuleUuid) -> Self {
        wrapper.0
    }
}

impl vstd::std_specs::convert::FromSpecImpl<FirewallRuleUuid> for Uuid {
    open spec fn obeys_from_spec() -> bool {
        true
    }

    open spec fn from_spec(t: FirewallRuleUuid) -> Self {
        t.0
    }
}

impl core::str::FromStr for FirewallRuleUuid {
    type Err = Error;

    fn from_str(s: &str) -> Result<Self> {
        Self::parse_str(s)
    }
}

} // verus!
