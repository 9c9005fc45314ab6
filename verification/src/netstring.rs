//! Netstring framing: a payload of bytes travels on the wire as
//! `<decimal length>:<payload>,`. Decoding classifies a buffer as complete,
//! incomplete (more bytes may arrive) or malformed, and is side-effect free,
//! so a caller may retry after appending more bytes.

use vstd::prelude::*;
use vstd::slice::slice_subrange;
use vstd::utf8::encode_utf8;

verus! {

/// Why a decode attempt produced no payload: the buffer is still too short,
/// or it can never become a well-formed netstring.
#[derive(Debug, PartialEq, Eq, Structural)]
pub enum NetstringError {
    Incomplete,
    Malformed,
}

impl NetstringError {
    /// Human-readable account of the error, in place of a `Display` impl.
    pub fn message(&self) -> (r: &'static str)
        ensures
            *self is Incomplete ==> r@ == "Incomplete netstring"@,
            *self is Malformed ==> r@ == "Malformed netstring"@,
    {
        match self {
            NetstringError::Incomplete => "Incomplete netstring",
            NetstringError::Malformed => "Malformed netstring",
        }
    }
}

pub open spec fn is_digit_byte(b: u8) -> bool {
    48 <= b && b <= 57
}

/// Length of the run of ASCII digits at the front of the buffer.
pub open spec fn digit_run(b: Seq<u8>) -> nat
    decreases b.len(),
{
    if b.len() == 0 || !is_digit_byte(b[0]) {
        0
    } else {
        1 + digit_run(b.drop_first())
    }
}

/// Value of a sequence of ASCII digits read as a decimal number.
pub open spec fn decimal_value(digits: Seq<u8>) -> nat
    decreases digits.len(),
{
    if digits.len() == 0 {
        0
    } else {
        (decimal_value(digits.drop_last()) * 10 + (digits.last() - 48)) as nat
    }
}

/// Declared payload length of the buffer's length prefix.
pub open spec fn ns_len(b: Seq<u8>) -> nat {
    decimal_value(b.take(digit_run(b) as int))
}

/// The buffer holds one whole netstring at its front.
pub open spec fn ns_complete(b: Seq<u8>) -> bool {
    let k = digit_run(b) as int;
    &&& 0 < k < b.len()
    &&& b[k] == 58
    &&& b.len() >= k + 1 + ns_len(b) + 1
    &&& b[k + 1 + ns_len(b)] == 44
}

/// The buffer can never grow into a netstring: a stray byte in the length
/// prefix, an empty digit run, or a wrong terminator after the payload.
pub open spec fn ns_malformed(b: Seq<u8>) -> bool {
    let k = digit_run(b) as int;
    if k == b.len() {
        false
    } else if b[k] != 58 {
        true
    } else if k == 0 {
        true
    } else {
        b.len() >= k + 1 + ns_len(b) + 1 && b[k + 1 + ns_len(b)] != 44
    }
}

/// More bytes are needed before the buffer can be classified.
pub open spec fn ns_incomplete(b: Seq<u8>) -> bool {
    !ns_complete(b) && !ns_malformed(b)
}

/// The payload of a complete netstring at the front of the buffer.
pub open spec fn ns_payload(b: Seq<u8>) -> Seq<u8> {
    let k = digit_run(b) as int;
    b.subrange(k + 1, k + 1 + ns_len(b))
}

/// The wire encoding of a payload.
pub open spec fn dec_digits(n: nat) -> Seq<u8>
    decreases n,
{
    if n < 10 {
        seq![(48 + n) as u8]
    } else {
        dec_digits(n / 10).push((48 + n % 10) as u8)
    }
}

pub open spec fn ns_encode(p: Seq<u8>) -> Seq<u8> {
    dec_digits(p.len()) + seq![58] + p + seq![44]
}

proof fn lemma_digit_run_is(b: Seq<u8>, k: int)
    requires
        0 <= k <= b.len(),
        forall|j: int| 0 <= j < k ==> is_digit_byte(b[j]),
        k < b.len() ==> !is_digit_byte(b[k]),
    ensures
        digit_run(b) == k,
    decreases k,
{
    if k == 0 {
    } else {
        assert(is_digit_byte(b[0]));
        lemma_digit_run_is(b.drop_first(), k - 1);
    }
}

/// Every byte of `dec_digits(n)` is an ASCII digit, and there is at least one.
proof fn lemma_dec_digits_are_digits(n: nat)
    ensures
        dec_digits(n).len() >= 1,
        forall|i: int| 0 <= i < dec_digits(n).len() ==> is_digit_byte(#[trigger] dec_digits(n)[i]),
    decreases n,
{
    if n >= 10 {
        lemma_dec_digits_are_digits(n / 10);
    }
}

/// Reading the decimal digits of `n` back gives `n`.
proof fn lemma_decimal_value_of_dec_digits(n: nat)
    ensures
        decimal_value(dec_digits(n)) == n,
    decreases n,
{
    if n < 10 {
        let d = dec_digits(n);
        assert(d.len() == 1);
        assert(d.last() == (48 + n) as u8);
        assert(d.drop_last() =~= Seq::<u8>::empty());
        assert(decimal_value(Seq::<u8>::empty()) == 0);
        assert(decimal_value(d) == (0 * 10 + ((48 + n) as u8 - 48)) as nat);
    } else {
        lemma_decimal_value_of_dec_digits(n / 10);
        let d = dec_digits(n);
        assert(d.last() == (48 + n % 10) as u8);
        assert(d.drop_last() =~= dec_digits(n / 10));
        assert(decimal_value(d) == ((n / 10) * 10 + ((48 + n % 10) as u8 - 48)) as nat);
        assert((n / 10) * 10 + n % 10 == n);
    }
}

/// Appending one more digit multiplies the value by ten and adds the digit.
proof fn lemma_decimal_value_step(b: Seq<u8>, i: int)
    requires
        0 <= i < b.len(),
        is_digit_byte(b[i]),
    ensures
        decimal_value(b.take(i + 1)) == decimal_value(b.take(i)) * 10 + (b[i] - 48),
{
    assert(b.take(i + 1).drop_last() =~= b.take(i));
    assert(b.take(i + 1).last() == b[i]);
    let v = decimal_value(b.take(i));
    assert(v * 10 >= 0) by (nonlinear_arith)
        requires v >= 0;
}

/// A longer run of digits never lowers the decimal value.
proof fn lemma_decimal_value_grows(b: Seq<u8>, i: int, m: nat)
    requires
        0 <= i < b.len(),
        is_digit_byte(b[i]),
        decimal_value(b.take(i)) > m,
    ensures
        decimal_value(b.take(i + 1)) > m,
{
    lemma_decimal_value_step(b, i);
    let v = decimal_value(b.take(i));
    assert(v * 10 >= v) by (nonlinear_arith)
        requires v >= 0;
}

/// Incremental netstring decode. Scans the decimal length prefix, then checks
/// that the declared payload and its `,` terminator have arrived.
///
/// The classification is exactly the one the spec functions give: `Ok` with
/// the payload when the buffer starts with a whole netstring, `Incomplete`
/// when more bytes may still complete it, `Malformed` when no extension of
/// the buffer can.
pub fn parse_netstring(buf: &[u8]) -> (r: Result<&[u8], NetstringError>)
    ensures
        match r {
            Ok(p) => ns_complete(buf@) && p@ == ns_payload(buf@),
            Err(NetstringError::Incomplete) => ns_incomplete(buf@),
            Err(NetstringError::Malformed) => ns_malformed(buf@),
        },
{
    let n = buf.len();
    let mut i: usize = 0;
    let mut length: usize = 0;
    // When the declared length no longer fits in usize the exact value stops
    // mattering: it certainly exceeds the buffer length.
    let mut overflow: bool = false;

    loop
        invariant
            0 <= i <= n,
            n == buf@.len(),
            forall|j: int| 0 <= j < i ==> is_digit_byte(buf@[j]),
            !overflow ==> length == decimal_value(buf@.take(i as int)),
            overflow ==> decimal_value(buf@.take(i as int)) > usize::MAX,
        decreases n - i,
    {
        if i == n {
            proof {
                lemma_digit_run_is(buf@, i as int);
            }
            return Err(NetstringError::Incomplete);
        }
        let c = buf[i];
        if c >= 48 && c <= 57 {
            let d = (c - 48) as usize;
            proof {
                lemma_decimal_value_step(buf@, i as int);
                if overflow {
                    lemma_decimal_value_grows(buf@, i as int, usize::MAX as nat);
                }
            }
            if !overflow {
                if length <= (usize::MAX - d) / 10 {
                    length = length * 10 + d;
                } else {
                    proof {
                        let m = usize::MAX as int;
                        let q = (m - d) / 10;
                        assert(m - d == 10 * q + (m - d) % 10);
                        assert(length * 10 >= (q + 1) * 10);
                        assert((q + 1) * 10 == 10 * q + 10);
                        assert(length * 10 + d > m);
                    }
                    overflow = true;
                }
            }
            i = i + 1;
        } else {
            // i is the length of the digit run, and buf[i] is not a digit.
            proof {
                lemma_digit_run_is(buf@, i as int);
            }

            if c != 58 {
                return Err(NetstringError::Malformed);
            }
            if i == 0 {
                return Err(NetstringError::Malformed);
            }

            if overflow {
                // Declared length exceeds usize::MAX, hence the buffer length.
                return Err(NetstringError::Incomplete);
            }

            // buf.len() must reach i + 1 + length + 1.
            if n - i - 1 <= length {
                return Err(NetstringError::Incomplete);
            }

            let term = i + 1 + length;
            if buf[term] != 44 {
                return Err(NetstringError::Malformed);
            }

            return Ok(slice_subrange(buf, i + 1, term));
        }
    }
}

/// Appends the decimal digits of `n`.
fn push_decimal(n: usize, out: &mut Vec<u8>)
    ensures
        final(out)@ == old(out)@ + dec_digits(n as nat),
    decreases n,
{
    if n < 10 {
        out.push(48 + (n as u8));
        assert(final(out)@ =~= old(out)@ + dec_digits(n as nat));
    } else {
        push_decimal(n / 10, out);
        out.push(48 + ((n % 10) as u8));
        assert(final(out)@ =~= old(out)@ + dec_digits(n as nat));
    }
}

/// Frames a byte payload as a netstring: always succeeds, and the output is
/// exactly `ns_encode` of the payload.
pub fn encode_netstring(payload: &[u8]) -> (r: Vec<u8>)
    ensures
        r@ == ns_encode(payload@),
{
    let mut out: Vec<u8> = Vec::new();
    push_decimal(payload.len(), &mut out);
    out.push(58);
    out.extend_from_slice(payload);
    out.push(44);
    proof {
        assert(out@ =~= ns_encode(payload@));
    }
    out
}

/// The capability of framing oneself as a netstring. The payload a value
/// frames is fixed by `netstring_payload`.
pub trait ToNetstring {
    spec fn netstring_payload(&self) -> Seq<u8>;

    fn to_netstring(&self) -> (r: Vec<u8>)
        ensures
            r@ == ns_encode(self.netstring_payload()),
    ;
}

/// A string frames its UTF-8 bytes; the length prefix counts bytes, not
/// characters.
impl ToNetstring for String {
    open spec fn netstring_payload(&self) -> Seq<u8> {
        encode_utf8(self@)
    }

    fn to_netstring(&self) -> (r: Vec<u8>) {
        encode_netstring(self.as_str().as_bytes())
    }
}

/// Round trip: decoding an encoded payload yields that payload, whole.
pub proof fn lemma_decode_encode(p: Seq<u8>)
    ensures
        ns_complete(ns_encode(p)),
        ns_payload(ns_encode(p)) == p,
{
    let d = dec_digits(p.len());
    let e = ns_encode(p);
    lemma_dec_digits_are_digits(p.len());
    assert(e.len() == d.len() + 1 + p.len() + 1);
    assert(forall|j: int| 0 <= j < d.len() ==> e[j] == d[j]);
    assert(e[d.len() as int] == 58);
    assert(!is_digit_byte(58));
    lemma_digit_run_is(e, d.len() as int);
    assert(e.take(d.len() as int) =~= d);
    lemma_decimal_value_of_dec_digits(p.len());
    assert(ns_len(e) == p.len());
    assert(e[d.len() + 1 + p.len() as int] == 44);
    assert(ns_payload(e) =~= p);
}

} // verus!
