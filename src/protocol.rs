//! The native stack's error convention: a call returns an integer, a reserved
//! value of which means failure; the reason is then fetched by a second call
//! into a fixed buffer, as a terminated byte string.
use vstd::prelude::*;
use vstd::slice::slice_subrange;
use vstd::slice::slice_to_vec;

verus! {

/// The return value by which a native call reports failure.
pub const SENTINEL: i32 = -1;

/// The size of the buffer that a failure's message is fetched into.
pub const ERRMSG_CAPACITY: usize = 256;

/// Why a native call failed, as far as the stack could tell.
#[derive(PartialEq, Eq, Debug)]
pub enum NativeError {
    /// The stack's own account of the failure.
    Failed(String),
    /// The call failed, and fetching its message failed too.
    Unexplained,
}

/// What the message buffer's bytes read as, decoded leniently.
pub uninterp spec fn lossy_text(b: Seq<u8>) -> Seq<char>;

/// Bytes below 128 as the characters they encode.
pub open spec fn ascii_text(b: Seq<u8>) -> Seq<char> {
    b.map_values(|c: u8| c as char)
}

pub open spec fn is_ascii_bytes(b: Seq<u8>) -> bool {
    forall|i: int| 0 <= i < b.len() ==> b[i] < 128
}

/// Relies on String::from_utf8_lossy: the text depends on the bytes alone;
/// each character comes from at least one byte, a replacement character
/// included; and bytes that are valid UTF-8 (ASCII among them) decode as they
/// stand.
#[verifier::external_body]
fn decode_lossy(b: &[u8]) -> (r: String)
    ensures
        r@ == lossy_text(b@),
        r@.len() <= b@.len(),
        is_ascii_bytes(b@) ==> r@ == ascii_text(b@),
{
    String::from_utf8_lossy(b).into_owned()
}

/// The bytes of a terminated string: all of them up to the first zero byte.
pub open spec fn terminated(b: Seq<u8>) -> Seq<u8>
    decreases b.len(),
{
    if b.len() == 0 {
        b
    } else if b[0] == 0 {
        Seq::empty()
    } else {
        seq![b[0]] + terminated(b.drop_first())
    }
}

/// The message that a fetched buffer holds.
pub open spec fn message_of(b: Seq<u8>) -> Seq<char> {
    lossy_text(terminated(b))
}

/// Whether `e` is what a failed call resolves to, given the status that the
/// message fetch returned and the buffer it filled: no message where the fetch
/// failed, else the buffer's terminated text.
pub open spec fn explains(e: NativeError, status: i32, b: Seq<u8>) -> bool {
    match e {
        NativeError::Unexplained => status != 0,
        NativeError::Failed(m) => status == 0 && m@ == message_of(b),
    }
}

proof fn lemma_terminated_at(b: Seq<u8>, n: int)
    requires
        0 <= n <= b.len(),
        forall|j: int| 0 <= j < n ==> b[j] != 0,
        n < b.len() ==> b[n] == 0,
    ensures
        terminated(b) == b.take(n),
    decreases n,
{
    if n == 0 {
        if b.len() > 0 {
            assert(b[0] == 0);
        }
        assert(b.take(0) =~= Seq::<u8>::empty());
        assert(b.len() == 0 ==> b =~= Seq::<u8>::empty());
    } else {
        let t = b.drop_first();
        assert forall|j: int| 0 <= j < n - 1 implies t[j] != 0 by {
            assert(t[j] == b[j + 1]);
        }
        if n - 1 < t.len() {
            assert(t[n - 1] == b[n]);
        }
        lemma_terminated_at(t, n - 1);
        assert(b.take(n) =~= seq![b[0]] + t.take(n - 1));
    }
}

/// Whether a native call's return value reports failure.
pub fn is_failure(code: i32) -> (r: bool)
    ensures
        r == (code == SENTINEL),
{
    code == SENTINEL
}

/// The bytes of a buffer before its first zero byte.
pub fn terminated_bytes(buffer: &[u8]) -> (r: Vec<u8>)
    ensures
        r@ == terminated(buffer@),
        r@.len() <= buffer@.len(),
{
    let mut i: usize = 0;
    while i < buffer.len() && buffer[i] != 0
        invariant
            0 <= i <= buffer@.len(),
            forall|j: int| 0 <= j < i ==> buffer@[j] != 0,
        decreases buffer@.len() - i,
    {
        i = i + 1;
    }
    proof {
        lemma_terminated_at(buffer@, i as int);
    }
    let r = slice_to_vec(slice_subrange(buffer, 0, i));
    assert(r@ =~= buffer@.take(i as int));
    r
}

/// The error that a failed call stands for, from the status that the message
/// fetch returned and the buffer it filled.
pub fn explain(status: i32, buffer: &[u8]) -> (r: NativeError)
    ensures
        explains(r, status, buffer@),
        r is Failed ==> r->Failed_0@.len() <= buffer@.len(),
        r is Failed && is_ascii_bytes(terminated(buffer@)) ==> r->Failed_0@ == ascii_text(
            terminated(buffer@),
        ),
{
    if status != 0 {
        NativeError::Unexplained
    } else {
        let text = terminated_bytes(buffer);
        let s = decode_lossy(text.as_slice());
        assert(text@ == terminated(buffer@));
        assert(s@ == message_of(buffer@));
        NativeError::Failed(s)
    }
}

/// What the native message fetch leaves in a buffer of `cap` bytes, for a
/// message `m`: as much of it as fits before a zero byte, the rest zero.
pub open spec fn errmsg_fill(m: Seq<u8>, cap: nat) -> Seq<u8> {
    let n = if m.len() < cap { m.len() } else { (cap - 1) as nat };
    m.take(n as int) + Seq::new((cap - n) as nat, |i: int| 0u8)
}

proof fn lemma_fill_terminated(m: Seq<u8>, cap: nat)
    requires
        cap > 0,
        forall|i: int| 0 <= i < m.len() ==> m[i] != 0,
    ensures
        terminated(errmsg_fill(m, cap)) == m.take(if m.len() < cap { m.len() as int } else { cap - 1 }),
{
    let n: int = if m.len() < cap { m.len() as int } else { cap - 1 };
    let b = errmsg_fill(m, cap);
    assert(b.len() == cap);
    assert forall|j: int| 0 <= j < n implies b[j] != 0 by {
        assert(b[j] == m[j]);
    }
    assert(b[n] == 0);
    lemma_terminated_at(b, n);
    assert(b.take(n) =~= m.take(n));
}

/// A message shorter than the buffer, with no zero byte in it, reads back
/// whole from the buffer that the native fetch fills.
pub proof fn lemma_message_round_trip(m: Seq<u8>)
    requires
        m.len() < ERRMSG_CAPACITY,
        forall|i: int| 0 <= i < m.len() ==> m[i] != 0,
    ensures
        terminated(errmsg_fill(m, ERRMSG_CAPACITY as nat)) == m,
{
    lemma_fill_terminated(m, ERRMSG_CAPACITY as nat);
    assert(m.take(m.len() as int) =~= m);
}

proof fn lemma_terminated_before_zero(a: Seq<u8>, z: Seq<u8>)
    requires
        z.len() > 0,
        z[0] == 0,
    ensures
        terminated(a + z) == terminated(a),
    decreases a.len(),
{
    if a.len() == 0 {
        assert(a + z =~= z);
    } else {
        assert((a + z).drop_first() =~= a.drop_first() + z);
        lemma_terminated_before_zero(a.drop_first(), z);
    }
}

/// A message that does not fit reads back as its first bytes, one fewer than
/// the buffer holds, up to a zero byte among them: the fetch never lets a
/// long message run past the buffer.
pub proof fn lemma_message_truncated(m: Seq<u8>)
    requires
        m.len() >= ERRMSG_CAPACITY,
    ensures
        terminated(errmsg_fill(m, ERRMSG_CAPACITY as nat)) == terminated(m.take(ERRMSG_CAPACITY - 1)),
        (forall|i: int| 0 <= i < ERRMSG_CAPACITY - 1 ==> m[i] != 0) ==> terminated(
            errmsg_fill(m, ERRMSG_CAPACITY as nat),
        ) == m.take(ERRMSG_CAPACITY - 1),
{
    let n: int = ERRMSG_CAPACITY - 1;
    let z = Seq::new((ERRMSG_CAPACITY - n) as nat, |i: int| 0u8);
    assert(errmsg_fill(m, ERRMSG_CAPACITY as nat) == m.take(n) + z);
    lemma_terminated_before_zero(m.take(n), z);
    if forall|i: int| 0 <= i < n ==> m[i] != 0 {
        let t = m.take(n);
        assert forall|j: int| 0 <= j < n implies t[j] != 0 by {
            assert(t[j] == m[j]);
        }
        lemma_terminated_at(t, n);
        assert(t.take(n) =~= t);
    }
}

} // verus!
