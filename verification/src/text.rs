//! Decimal and hexadecimal renderings of integers and bytes, as std's
//! formatting writes them, built up on `String`s.
use vstd::prelude::*;

verus! {

/// The decimal digit character for `d` (`d < 10`).
pub open spec fn digit_char(d: nat) -> char {
    (48 + d) as char
}

/// The lowercase hexadecimal digit character for `d` (`d < 16`).
pub open spec fn hex_char(d: nat) -> char {
    if d < 10 {
        (48 + d) as char
    } else {
        (87 + d) as char
    }
}

/// Decimal rendering of a natural number: no sign, no leading zeros
/// ("0" for zero).
pub open spec fn decimal(n: nat) -> Seq<char>
    decreases n,
{
    if n < 10 {
        seq![digit_char(n)]
    } else {
        decimal(n / 10).push(digit_char(n % 10))
    }
}

/// Decimal rendering of an integer, with a leading '-' when negative.
pub open spec fn signed_decimal(i: int) -> Seq<char> {
    if i < 0 {
        seq!['-'].add(decimal((-i) as nat))
    } else {
        decimal(i as nat)
    }
}

/// `count` copies of '0'.
pub open spec fn zeros(count: nat) -> Seq<char> {
    Seq::new(count, |i: int| '0')
}

/// Decimal rendering padded on the left with '0' to at least `width`
/// characters, as `{:0width$}` writes it.
pub open spec fn zero_padded(n: nat, width: nat) -> Seq<char> {
    let d = decimal(n);
    if d.len() < width {
        zeros((width - d.len()) as nat).add(d)
    } else {
        d
    }
}

/// Two lowercase hex digits per byte, high nibble first.
pub open spec fn hex_lower(bytes: Seq<u8>) -> Seq<char>
    decreases bytes.len(),
{
    if bytes.len() == 0 {
        Seq::empty()
    } else {
        hex_lower(bytes.drop_last()).push(hex_char((bytes.last() / 16) as nat)).push(
            hex_char((bytes.last() % 16) as nat),
        )
    }
}

/// Whether two strings are the same text.
pub fn str_eq(a: &str, b: &str) -> (res: bool)
    ensures
        res == (a@ == b@),
{
    let n = a.unicode_len();
    if n != b.unicode_len() {
        return false;
    }
    let mut i: usize = 0;
    while i < n
        invariant
            n == a@.len(),
            n == b@.len(),
            i <= n,
            forall|j: int| 0 <= j < i ==> a@[j] == b@[j],
        decreases n - i,
    {
        if a.get_char(i) != b.get_char(i) {
            return false;
        }
        i = i + 1;
    }
    assert(a@ =~= b@);
    true
}

/// `String::push`: appends one character to a string.
#[verifier::external_body]
pub(crate) fn push_char(s: &mut String, c: char)
    ensures
        final(s)@ == old(s)@.push(c),
{
    s.push(c);
}

fn digit(d: u64) -> (c: char)
    requires
        d < 10,
    ensures
        c == digit_char(d as nat),
{
    let b: u8 = 48u8 + (d as u8);
    b as char
}

fn hex_digit(d: u8) -> (c: char)
    requires
        d < 16,
    ensures
        c == hex_char(d as nat),
{
    if d < 10 {
        (48u8 + d) as char
    } else {
        (87u8 + d) as char
    }
}

/// Appends the decimal rendering of `n`.
pub fn push_decimal(s: &mut String, n: u64)
    ensures
        final(s)@ == old(s)@ + decimal(n as nat),
    decreases n,
{
    if n >= 10 {
        push_decimal(s, n / 10);
    }
    push_char(s, digit(n % 10));
    proof {
        if n >= 10 {
            assert(old(s)@ + decimal(n as nat) =~= (old(s)@ + decimal((n / 10) as nat)).push(
                digit_char((n % 10) as nat),
            ));
        } else {
            assert(old(s)@ + decimal(n as nat) =~= old(s)@.push(digit_char((n % 10) as nat)));
        }
    }
}

/// Appends the decimal rendering of a signed `n`.
pub fn push_signed_decimal(s: &mut String, n: i64)
    ensures
        final(s)@ == old(s)@ + signed_decimal(n as int),
{
    if n < 0 {
        push_char(s, '-');
        let m: u64 = if n == i64::MIN {
            9223372036854775808u64
        } else {
            (-n) as u64
        };
        push_decimal(s, m);
        proof {
            assert(old(s)@ + signed_decimal(n as int) =~= old(s)@.push('-') + decimal(m as nat));
        }
    } else {
        push_decimal(s, n as u64);
    }
}

/// Appends `n` in decimal, padded with '0' on the left to `width` characters.
pub fn push_zero_padded(s: &mut String, n: u64, width: u64)
    ensures
        final(s)@ == old(s)@ + zero_padded(n as nat, width as nat),
{
    let len = decimal_len(n);
    if len < width {
        let mut i: u64 = 0;
        while i < width - len
            invariant
                i <= width - len,
                len < width,
                s@ == old(s)@ + zeros(i as nat),
            decreases width - len - i,
        {
            push_char(s, '0');
            proof {
                assert(old(s)@ + zeros((i + 1) as nat) =~= (old(s)@ + zeros(i as nat)).push('0'));
            }
            i = i + 1;
        }
    }
    let ghost mid = s@;
    push_decimal(s, n);
    proof {
        if len < width {
            assert(s@ =~= old(s)@ + (zeros((width - len) as nat) + decimal(n as nat)));
        }
    }
}

/// The number of decimal digits of `n`.
pub fn decimal_len(n: u64) -> (len: u64)
    ensures
        len == decimal(n as nat).len(),
        1 <= len <= 20,
    decreases n,
{
    proof {
        lemma_decimal_len(n as nat);
    }
    if n < 10 {
        1
    } else {
        proof {
            lemma_decimal_len((n / 10) as nat);
        }
        1 + decimal_len(n / 10)
    }
}

/// Appends two lowercase hex digits for each byte.
pub fn push_hex_lower(s: &mut String, bytes: &[u8])
    ensures
        final(s)@ == old(s)@ + hex_lower(bytes@),
{
    let mut i: usize = 0;
    while i < bytes.len()
        invariant
            i <= bytes@.len(),
            s@ == old(s)@ + hex_lower(bytes@.subrange(0, i as int)),
        decreases bytes@.len() - i,
    {
        let b = bytes[i];
        push_char(s, hex_digit(b / 16));
        push_char(s, hex_digit(b % 16));
        proof {
            let pre = bytes@.subrange(0, i as int);
            let next = bytes@.subrange(0, i + 1);
            assert(next.drop_last() =~= pre);
            assert(next.last() == b);
        }
        i = i + 1;
    }
    proof {
        assert(bytes@.subrange(0, bytes@.len() as int) =~= bytes@);
    }
}

/// The number of digits grows with the number: one digit below ten, at
/// least two from ten on, at most twenty for a `u64`.
pub proof fn lemma_decimal_len(n: nat)
    ensures
        decimal(n).len() >= 1,
        n < 10 <==> decimal(n).len() == 1,
        n < 0x1_0000_0000_0000_0000 ==> decimal(n).len() <= 20,
        n >= 10 ==> decimal(n).len() == decimal(n / 10).len() + 1,
    decreases n,
{
    if n >= 10 {
        lemma_decimal_len(n / 10);
    }
    if n < 0x1_0000_0000_0000_0000 {
        assert(pow10(20) == 100_000_000_000_000_000_000) by {
            reveal_with_fuel(pow10, 21);
        }
        lemma_decimal_len_bound(n, 20);
    }
}

/// The power of ten `10^k`.
pub open spec fn pow10(k: nat) -> nat
    decreases k,
{
    if k == 0 {
        1
    } else {
        10 * pow10((k - 1) as nat)
    }
}

/// A number below `10^k` has at most `k` digits.
pub proof fn lemma_decimal_len_bound(n: nat, k: nat)
    requires
        k >= 1,
        n < pow10(k),
    ensures
        decimal(n).len() <= k,
    decreases k,
{
    if n >= 10 {
        assert(k >= 2) by {
            if k == 1 {
                assert(pow10(1) == 10 * pow10(0));
            }
        }
        assert(pow10(k) == 10 * pow10((k - 1) as nat));
        lemma_decimal_len_bound(n / 10, (k - 1) as nat);
    }
}

/// The rendering of a positive number never starts with '0'.
pub proof fn lemma_decimal_leading(n: nat)
    ensures
        n >= 1 ==> decimal(n)[0] != '0',
        forall|i: int| 0 <= i < decimal(n).len() ==> '0' <= #[trigger] decimal(n)[i] <= '9',
    decreases n,
{
    if n >= 10 {
        lemma_decimal_leading(n / 10);
        lemma_decimal_len(n / 10);
        let p = decimal(n / 10);
        assert forall|i: int| 0 <= i < decimal(n).len() implies '0' <= #[trigger] decimal(n)[i]
            <= '9' by {
            if i < p.len() {
                assert(decimal(n)[i] == p[i]);
            }
        }
        assert(decimal(n)[0] == p[0]);
    }
}

/// Different numbers have different decimal renderings.
pub proof fn lemma_decimal_injective(a: nat, b: nat)
    requires
        decimal(a) == decimal(b),
    ensures
        a == b,
    decreases a,
{
    lemma_decimal_len(a);
    lemma_decimal_len(b);
    let da = decimal(a);
    let db = decimal(b);
    if a < 10 {
        assert(b < 10);
        assert(da[0] == digit_char(a));
        assert(db[0] == digit_char(b));
    } else {
        assert(b >= 10);
        assert(da.last() == digit_char(a % 10));
        assert(db.last() == digit_char(b % 10));
        assert(da.drop_last() =~= decimal(a / 10));
        assert(db.drop_last() =~= decimal(b / 10));
        lemma_decimal_injective(a / 10, b / 10);
    }
}

/// Different numbers have different zero-padded renderings.
pub proof fn lemma_zero_padded_injective(a: nat, b: nat, width: nat)
    requires
        zero_padded(a, width) == zero_padded(b, width),
    ensures
        a == b,
{
    lemma_decimal_len(a);
    lemma_decimal_len(b);
    lemma_decimal_leading(a);
    lemma_decimal_leading(b);
    let da = decimal(a);
    let db = decimal(b);
    let pa = zero_padded(a, width);
    let pb = zero_padded(b, width);
    if da.len() == db.len() {
        if da.len() < width {
            assert(pa.subrange((width - da.len()) as int, pa.len() as int) =~= da);
            assert(pb.subrange((width - db.len()) as int, pb.len() as int) =~= db);
        }
        lemma_decimal_injective(a, b);
    } else if da.len() < db.len() {
        // the shorter one is padded: where the longer one starts, it holds '0'
        let k = pb.len() - db.len();
        assert(pa.len() == pb.len());
        assert(da.len() < width);
        if a >= 1 {
            assert(pa[pa.len() - da.len()] == da[0]);
        }
        assert(pa[k] == '0' || pa[k] == da[k - (pa.len() - da.len())]);
        assert(pb[k] == db[0]);
        if b == 0 {
            assert(db.len() == 1);
        }
        assert(b >= 1);
        if k < pa.len() - da.len() {
            assert(pa[k] == '0');
        } else {
            assert(k - (pa.len() - da.len()) < da.len());
            assert(pa[k] == '0');
        }
    } else {
        let k = pa.len() - da.len();
        assert(pa.len() == pb.len());
        assert(db.len() < width);
        assert(a >= 1);
        assert(pa[k] == da[0]);
        assert(pb[k] == '0');
    }
}

/// Two hex digits per byte.
pub proof fn lemma_hex_lower_len(bytes: Seq<u8>)
    ensures
        hex_lower(bytes).len() == 2 * bytes.len(),
    decreases bytes.len(),
{
    if bytes.len() > 0 {
        lemma_hex_lower_len(bytes.drop_last());
    }
}


proof fn lemma_hex_char_injective(a: nat, b: nat)
    requires
        a < 16,
        b < 16,
        hex_char(a) == hex_char(b),
    ensures
        a == b,
{
    let ca = hex_char(a) as int;
    let cb = hex_char(b) as int;
    assert(ca == if a < 10 { 48 + a } else { 87 + a });
    assert(cb == if b < 10 { 48 + b } else { 87 + b });
}

/// Different bytes have different hex texts.
pub proof fn lemma_hex_lower_injective(x: Seq<u8>, y: Seq<u8>)
    requires
        hex_lower(x) == hex_lower(y),
    ensures
        x == y,
    decreases x.len(),
{
    lemma_hex_lower_len(x);
    lemma_hex_lower_len(y);
    if x.len() > 0 {
        let hx = hex_lower(x);
        let hy = hex_lower(y);
        let n = hx.len() as int;
        assert(hx[n - 2] == hy[n - 2] && hx[n - 1] == hy[n - 1]);
        lemma_hex_char_injective((x.last() / 16) as nat, (y.last() / 16) as nat);
        lemma_hex_char_injective((x.last() % 16) as nat, (y.last() % 16) as nat);
        assert(x.last() == y.last());
        lemma_hex_lower_len(x.drop_last());
        assert(hex_lower(x.drop_last()) =~= hx.subrange(0, n - 2));
        assert(hex_lower(y.drop_last()) =~= hy.subrange(0, n - 2));
        lemma_hex_lower_injective(x.drop_last(), y.drop_last());
        assert(x =~= x.drop_last().push(x.last()));
        assert(y =~= y.drop_last().push(y.last()));
    } else {
        assert(x =~= y);
    }
}

} // verus!
