//! Wallet and token-contract addresses: a 20-byte value, parsed from the
//! usual textual form (optional surrounding whitespace, optional `0x`
//! prefix, then exactly 40 hexadecimal digits) and printed back as
//! `0x`-prefixed lowercase hex.

use vstd::prelude::*;

verus! {

/// A 20-byte account or contract address.
pub struct Address {
    pub bytes: Vec<u8>,
}

impl Address {
    /// An address is exactly 20 bytes.
    pub open spec fn wf(&self) -> bool {
        self.bytes@.len() == 20
    }
}

/// The whitespace characters stripped from either end of user input.
pub open spec fn is_space(c: char) -> bool {
    c == ' ' || c == '\t' || c == '\n' || c == '\r'
}

/// Hexadecimal digits, either case.
pub open spec fn is_hex_digit(c: char) -> bool {
    ('0' <= c && c <= '9') || ('a' <= c && c <= 'f') || ('A' <= c && c <= 'F')
}

/// The numeric value of a hexadecimal digit.
pub open spec fn hex_val(c: char) -> u8
    recommends
        is_hex_digit(c),
{
    if '0' <= c && c <= '9' {
        ((c as u32) - 48) as u8
    } else if 'a' <= c && c <= 'f' {
        ((c as u32) - 87) as u8
    } else {
        ((c as u32) - 55) as u8
    }
}

/// The input with its leading whitespace removed.
pub open spec fn trim_front(s: Seq<char>) -> Seq<char>
    decreases s.len(),
{
    if s.len() > 0 && is_space(s[0]) {
        trim_front(s.drop_first())
    } else {
        s
    }
}

/// The input with its trailing whitespace removed.
pub open spec fn trim_back(s: Seq<char>) -> Seq<char>
    decreases s.len(),
{
    if s.len() > 0 && is_space(s[s.len() - 1]) {
        trim_back(s.drop_last())
    } else {
        s
    }
}

/// The input with whitespace removed from both ends.
pub open spec fn trimmed(s: Seq<char>) -> Seq<char> {
    trim_back(trim_front(s))
}

/// The trimmed input with an optional `0x` prefix removed: the span that
/// must consist of exactly 40 hexadecimal digits.
pub open spec fn strip_0x(h: Seq<char>) -> Seq<char> {
    if h.len() >= 2 && h[0] == '0' && h[1] == 'x' {
        h.subrange(2, h.len() as int)
    } else {
        h
    }
}

/// The hex span of an input: trimmed, `0x` stripped.
pub open spec fn addr_text(s: Seq<char>) -> Seq<char> {
    strip_0x(trimmed(s))
}

/// A span of exactly 40 hexadecimal digits.
pub open spec fn valid_hex40(h: Seq<char>) -> bool {
    h.len() == 40 && (forall|i: int| 0 <= i < 40 ==> is_hex_digit(#[trigger] h[i]))
}

/// Whether an input text denotes an address.
pub open spec fn is_valid_address_text(s: Seq<char>) -> bool {
    valid_hex40(addr_text(s))
}

/// The byte encoded by a pair of hexadecimal digits, high digit first.
pub open spec fn byte_of_hex_pair(h: char, l: char) -> u8
    recommends
        is_hex_digit(h),
        is_hex_digit(l),
{
    (hex_val(h) * 16 + hex_val(l)) as u8
}

/// The bytes encoded by a span of hexadecimal digits.
pub open spec fn addr_bytes_of(h: Seq<char>) -> Seq<u8> {
    Seq::new(h.len() / 2, |i: int| byte_of_hex_pair(h[2 * i], h[2 * i + 1]))
}

proof fn lemma_trim_front_at(s: Seq<char>, k: int)
    requires
        0 <= k <= s.len(),
        forall|j: int| 0 <= j < k ==> is_space(#[trigger] s[j]),
        k == s.len() || !is_space(s[k]),
    ensures
        trim_front(s) =~= s.subrange(k, s.len() as int),
    decreases k,
{
    if k == 0 {
        assert(s.subrange(0, s.len() as int) =~= s);
    } else {
        assert(is_space(s[0]));
        assert(trim_front(s) == trim_front(s.drop_first()));
        let t = s.drop_first();
        assert(forall|j: int| 0 <= j < k - 1 ==> is_space(#[trigger] t[j]));
        lemma_trim_front_at(t, k - 1);
        assert(t.subrange(k - 1, t.len() as int) =~= s.subrange(k, s.len() as int));
    }
}

proof fn lemma_trim_back_at(s: Seq<char>, k: int)
    requires
        0 <= k <= s.len(),
        forall|j: int| k <= j < s.len() ==> is_space(#[trigger] s[j]),
        k == 0 || !is_space(s[k - 1]),
    ensures
        trim_back(s) =~= s.subrange(0, k),
    decreases s.len() - k,
{
    if k == s.len() {
        if s.len() > 0 && is_space(s[s.len() - 1]) {
            assert(!is_space(s[k - 1]));
            assert(false);
        }
        assert(s.subrange(0, k) =~= s);
    } else {
        assert(is_space(s[s.len() - 1]));
        assert(trim_back(s) == trim_back(s.drop_last()));
        let t = s.drop_last();
        assert(forall|j: int| k <= j < t.len() ==> is_space(#[trigger] t[j]));
        lemma_trim_back_at(t, k);
        assert(t.subrange(0, k) =~= s.subrange(0, k));
    }
}

/// Whether `c` is one of the whitespace characters stripped from input.
fn is_space_exec(c: char) -> (r: bool)
    ensures
        r == is_space(c),
{
    c == ' ' || c == '\t' || c == '\n' || c == '\r'
}

/// Whether `c` is a hexadecimal digit of either case.
fn is_hex_digit_exec(c: char) -> (r: bool)
    ensures
        r == is_hex_digit(c),
{
    ('0' <= c && c <= '9') || ('a' <= c && c <= 'f') || ('A' <= c && c <= 'F')
}

/// The numeric value of a hexadecimal digit.
fn hex_val_exec(c: char) -> (v: u8)
    requires
        is_hex_digit(c),
    ensures
        v == hex_val(c),
        v < 16,
{
    if '0' <= c && c <= '9' {
        ((c as u32) - 48) as u8
    } else if 'a' <= c && c <= 'f' {
        ((c as u32) - 87) as u8
    } else {
        ((c as u32) - 55) as u8
    }
}

/// Parses an address from user input: whitespace is ignored at either
/// end, a `0x` prefix is optional, and exactly 40 hexadecimal digits must
/// remain. Returns `None` on any other input.
pub fn parse_address(s: &str) -> (r: Option<Address>)
    ensures
        r is Some <==> is_valid_address_text(s@),
        r is Some ==> r->0.wf() && r->0.bytes@ == addr_bytes_of(addr_text(s@)),
{
    let n = s.unicode_len();
    let mut start: usize = 0;
    while start < n && is_space_exec(s.get_char(start))
        invariant
            0 <= start <= n,
            n == s@.len(),
            forall|j: int| 0 <= j < start ==> is_space(#[trigger] s@[j]),
        decreases n - start,
    {
        start = start + 1;
    }
    let mut end: usize = n;
    while end > start && is_space_exec(s.get_char(end - 1))
        invariant
            start <= end <= n,
            n == s@.len(),
            forall|j: int| end <= j < n ==> is_space(#[trigger] s@[j]),
        decreases end,
    {
        end = end - 1;
    }
    proof {
        lemma_trim_front_at(s@, start as int);
        let t = s@.subrange(start as int, n as int);
        lemma_trim_back_at(t, end - start);
        assert(t.subrange(0, end - start) =~= s@.subrange(start as int, end as int));
        assert(trimmed(s@) =~= s@.subrange(start as int, end as int));
    }
    let hstart: usize = if end - start >= 2 && s.get_char(start) == '0' && s.get_char(start + 1)
        == 'x' {
        start + 2
    } else {
        start
    };
    proof {
        assert(addr_text(s@) =~= s@.subrange(hstart as int, end as int));
    }
    if end - hstart != 40 {
        return None;
    }
    let mut bytes: Vec<u8> = Vec::new();
    let mut i: usize = 0;
    while i < 20
        invariant
            0 <= i <= 20,
            n == s@.len(),
            hstart + 40 == end <= n,
            addr_text(s@) =~= s@.subrange(hstart as int, end as int),
            bytes@.len() == i,
            forall|j: int| 0 <= j < 2 * i ==> is_hex_digit(#[trigger] addr_text(s@)[j]),
            forall|j: int|
                0 <= j < i ==> #[trigger] bytes@[j] == byte_of_hex_pair(
                    addr_text(s@)[2 * j],
                    addr_text(s@)[2 * j + 1],
                ),
        decreases 20 - i,
    {
        let hi = s.get_char(hstart + 2 * i);
        let lo = s.get_char(hstart + 2 * i + 1);
        if !is_hex_digit_exec(hi) || !is_hex_digit_exec(lo) {
            proof {
                if is_valid_address_text(s@) {
                    assert(is_hex_digit(addr_text(s@)[2 * i as int]));
                    assert(is_hex_digit(addr_text(s@)[2 * i as int + 1]));
                }
            }
            return None;
        }
        let b = hex_val_exec(hi) * 16 + hex_val_exec(lo);
        bytes.push(b);
        i = i + 1;
    }
    proof {
        assert(valid_hex40(addr_text(s@)));
        assert(bytes@ =~= addr_bytes_of(addr_text(s@)));
    }
    Some(Address { bytes })
}

/// One lowercase hexadecimal digit character.
pub open spec fn hex_char_lower(n: u8) -> char
    recommends
        n < 16,
{
    if n == 0 {
        '0'
    } else if n == 1 {
        '1'
    } else if n == 2 {
        '2'
    } else if n == 3 {
        '3'
    } else if n == 4 {
        '4'
    } else if n == 5 {
        '5'
    } else if n == 6 {
        '6'
    } else if n == 7 {
        '7'
    } else if n == 8 {
        '8'
    } else if n == 9 {
        '9'
    } else if n == 10 {
        'a'
    } else if n == 11 {
        'b'
    } else if n == 12 {
        'c'
    } else if n == 13 {
        'd'
    } else if n == 14 {
        'e'
    } else {
        'f'
    }
}

/// The lowercase hexadecimal spelling of a byte sequence, two digits per
/// byte, high digit first.
pub open spec fn hex_seq(bytes: Seq<u8>) -> Seq<char> {
    Seq::new(
        bytes.len() * 2,
        |i: int|
            if i % 2 == 0 {
                hex_char_lower((bytes[i / 2] / 16) as u8)
            } else {
                hex_char_lower((bytes[i / 2] % 16) as u8)
            },
    )
}

/// One lowercase hexadecimal digit character.
fn hex_char_lower_exec(n: u8) -> (c: char)
    requires
        n < 16,
    ensures
        c == hex_char_lower(n),
{
    if n == 0 {
        '0'
    } else if n == 1 {
        '1'
    } else if n == 2 {
        '2'
    } else if n == 3 {
        '3'
    } else if n == 4 {
        '4'
    } else if n == 5 {
        '5'
    } else if n == 6 {
        '6'
    } else if n == 7 {
        '7'
    } else if n == 8 {
        '8'
    } else if n == 9 {
        '9'
    } else if n == 10 {
        'a'
    } else if n == 11 {
        'b'
    } else if n == 12 {
        'c'
    } else if n == 13 {
        'd'
    } else if n == 14 {
        'e'
    } else {
        'f'
    }
}

impl Address {
    /// A copy of this address.
    pub fn duplicate(&self) -> (r: Address)
        ensures
            r.bytes@ == self.bytes@,
    {
        let mut bytes: Vec<u8> = Vec::new();
        let mut i: usize = 0;
        while i < self.bytes.len()
            invariant
                0 <= i <= self.bytes@.len(),
                bytes@ =~= self.bytes@.take(i as int),
            decreases self.bytes@.len() - i,
        {
            bytes.push(self.bytes[i]);
            i = i + 1;
        }
        proof {
            assert(self.bytes@.take(self.bytes@.len() as int) =~= self.bytes@);
        }
        Address { bytes }
    }

    /// The `0x`-prefixed lowercase hexadecimal spelling of this address.
    pub fn hex_string(&self) -> (r: String)
        requires
            self.wf(),
        ensures
            r@ == "0x"@ + hex_seq(self.bytes@),
    {
        let mut out: String = "0x".to_owned();
        let mut i: usize = 0;
        while i < self.bytes.len()
            invariant
                0 <= i <= self.bytes@.len(),
                out@ =~= "0x"@ + hex_seq(self.bytes@.take(i as int)),
            decreases self.bytes@.len() - i,
        {
            let b = self.bytes[i];
            let hi = hex_char_lower_exec(b / 16);
            let lo = hex_char_lower_exec(b % 16);
            out.push(hi);
            out.push(lo);
            i = i + 1;
            proof {
                assert(hex_seq(self.bytes@.take(i as int)) =~= hex_seq(
                    self.bytes@.take(i as int - 1),
                ).push(hi).push(lo));
            }
        }
        proof {
            assert(self.bytes@.take(self.bytes@.len() as int) =~= self.bytes@);
        }
        out
    }
}

} // verus!
