//! Account and contract identifiers: 160-bit values, written as 20 bytes in
//! big-endian order or as 40 hexadecimal digits.

use vstd::prelude::*;
use vstd::std_specs::convert::FromSpecImpl;

verus! {

/// The number that a run of bytes spells, most significant byte first.
pub open spec fn be_value(bytes: Seq<u8>) -> nat
    decreases bytes.len(),
{
    if bytes.len() == 0 {
        0
    } else {
        be_value(bytes.drop_last()) * 256 + (bytes.last() as nat)
    }
}

/// The `width` low bytes of a number, most significant byte first.
pub open spec fn be_bytes(value: nat, width: nat) -> Seq<u8>
    decreases width,
{
    if width == 0 {
        Seq::<u8>::empty()
    } else {
        be_bytes(value / 256, (width - 1) as nat).push((value % 256) as u8)
    }
}

/// How many numbers `width` bytes can spell: 256 to the power `width`.
pub open spec fn span(width: nat) -> nat
    decreases width,
{
    if width == 0 {
        1
    } else {
        256 * span((width - 1) as nat)
    }
}

/// A run of bytes spells a number below the span of its length.
pub proof fn lemma_be_value_bound(bytes: Seq<u8>)
    ensures
        be_value(bytes) < span(bytes.len()),
    decreases bytes.len(),
{
    if bytes.len() > 0 {
        lemma_be_value_bound(bytes.drop_last());
    }
}

/// Writing a number takes exactly the width asked for.
pub proof fn lemma_be_bytes_len(value: nat, width: nat)
    ensures
        be_bytes(value, width).len() == width,
    decreases width,
{
    if width > 0 {
        lemma_be_bytes_len(value / 256, (width - 1) as nat);
    }
}

/// Reading back what was written gives the number, if the width could hold it.
pub proof fn lemma_be_value_of_bytes(value: nat, width: nat)
    requires
        value < span(width),
    ensures
        be_value(be_bytes(value, width)) == value,
    decreases width,
{
    if width > 0 {
        let rest = be_bytes(value / 256, (width - 1) as nat);
        lemma_be_value_of_bytes(value / 256, (width - 1) as nat);
        assert(rest.push((value % 256) as u8).drop_last() =~= rest);
    }
}

/// Writing what was read gives the bytes back.
pub proof fn lemma_be_bytes_of_value(bytes: Seq<u8>)
    ensures
        be_bytes(be_value(bytes), bytes.len()) == bytes,
    decreases bytes.len(),
{
    if bytes.len() > 0 {
        lemma_be_bytes_of_value(bytes.drop_last());
        assert(bytes.drop_last().push(bytes.last()) =~= bytes);
    }
}

/// A 160-bit identifier of an account or a contract.
///
/// `hi` holds the first four bytes of the identifier and `lo` the remaining
/// sixteen, each as a big-endian number.
#[derive(Clone, Copy, Debug, PartialEq, Eq, Structural)]
pub struct Address {
    pub hi: u32,
    pub lo: u128,
}

impl View for Address {
    type V = Seq<u8>;

    /// The twenty bytes of the identifier.
    open spec fn view(&self) -> Seq<u8> {
        be_bytes(self.hi as nat, 4) + be_bytes(self.lo as nat, 16)
    }
}

impl Address {
    /// The identifier that twenty bytes spell.
    pub open spec fn of_bytes(bytes: Seq<u8>) -> Address {
        Address {
            hi: be_value(bytes.subrange(0, 4)) as u32,
            lo: be_value(bytes.subrange(4, 20)) as u128,
        }
    }

    /// The identifier of no account: twenty zero bytes.
    pub open spec fn spec_zero() -> Address {
        Address { hi: 0, lo: 0 }
    }

    /// The identifier of no account.
    #[verifier::when_used_as_spec(spec_zero)]
    pub fn zero() -> (r: Address)
        ensures
            r == Address::spec_zero(),
    {
        Address { hi: 0, lo: 0 }
    }

    /// Whether this is the identifier of no account.
    pub fn is_zero(&self) -> (r: bool)
        ensures
            r == (*self == Address::spec_zero()),
    {
        self.hi == 0 && self.lo == 0
    }

    /// Reads an identifier from its twenty bytes.
    pub fn from_slice(src: &[u8]) -> (r: Address)
        requires
            src@.len() == 20,
        ensures
            r == Address::of_bytes(src@),
            r@ == src@,
    {
        let hi = read_be(src, 0, 4);
        let lo = read_be(src, 4, 20);
        proof {
            reveal_with_fuel(span, 17);
            lemma_of_bytes_view(src@);
        }
        Address { hi: hi as u32, lo }
    }

    /// Reads an identifier from a slice of any length: `None` unless it holds
    /// exactly twenty bytes.
    pub fn try_from_slice(src: &[u8]) -> (r: Option<Address>)
        ensures
            r == (if src@.len() == 20 {
                Some(Address::of_bytes(src@))
            } else {
                None
            }),
    {
        if src.len() == 20 {
            Some(Address::from_slice(src))
        } else {
            None
        }
    }

    /// The twenty bytes of the identifier: reading them gives the identifier
    /// back.
    pub fn to_vec(&self) -> (r: Vec<u8>)
        ensures
            r@ == self@,
            r@.len() == 20,
            Address::of_bytes(r@) == *self,
    {
        let mut out: Vec<u8> = Vec::new();
        write_be(&mut out, self.hi as u128, 4);
        write_be(&mut out, self.lo, 16);
        proof {
            lemma_view_of_bytes(*self);
        }
        out
    }
}

impl From<[u8; 20]> for Address {
    /// The identifier that twenty bytes spell.
    fn from(bytes: [u8; 20]) -> (r: Address) {
        Address::from_slice(bytes.as_slice())
    }
}

impl FromSpecImpl<[u8; 20]> for Address {
    open spec fn obeys_from_spec() -> bool {
        true
    }

    open spec fn from_spec(bytes: [u8; 20]) -> Address {
        Address::of_bytes(bytes@)
    }
}

/// Reads the bytes of `src` from `from` up to `to` as one big-endian number.
fn read_be(src: &[u8], from: usize, to: usize) -> (r: u128)
    requires
        from <= to <= src@.len(),
        to - from <= 16,
    ensures
        r == be_value(src@.subrange(from as int, to as int)),
        r < span((to - from) as nat),
{
    let mut value: u128 = 0;
    let mut at: usize = from;
    while at < to
        invariant
            from <= at <= to <= src@.len(),
            to - from <= 16,
            value == be_value(src@.subrange(from as int, at as int)),
            value < span((at - from) as nat),
        decreases to - at,
    {
        proof {
            let next = src@.subrange(from as int, at as int + 1);
            assert(next.drop_last() =~= src@.subrange(from as int, at as int));
            assert(next.last() == src@[at as int]);
            lemma_span_grows((at - from) as nat, 15);
            reveal_with_fuel(span, 17);
        }
        value = value * 256 + src[at] as u128;
        at = at + 1;
    }
    value
}

/// Appends the `width` low bytes of `value` to `out`, most significant first.
fn write_be(out: &mut Vec<u8>, value: u128, width: usize)
    ensures
        final(out)@ == old(out)@ + be_bytes(value as nat, width as nat),
    decreases width,
{
    if width > 0 {
        write_be(out, value / 256, width - 1);
        out.push((value % 256) as u8);
        proof {
            let head = be_bytes((value / 256) as nat, (width - 1) as nat);
            assert((old(out)@ + head).push((value % 256) as u8) =~= old(out)@ + head.push(
                (value % 256) as u8,
            ));
        }
    } else {
        assert(old(out)@ + Seq::<u8>::empty() =~= old(out)@);
    }
}

/// A wider run of bytes can spell more numbers.
pub proof fn lemma_span_grows(narrow: nat, wide: nat)
    requires
        narrow <= wide,
    ensures
        span(narrow) <= span(wide),
        span(narrow) >= 1,
    decreases wide,
{
    if narrow < wide {
        lemma_span_grows(narrow, (wide - 1) as nat);
    } else if narrow > 0 {
        lemma_span_grows((narrow - 1) as nat, (narrow - 1) as nat);
    }
}

/// Twenty bytes are the view of the identifier that they spell.
pub proof fn lemma_of_bytes_view(bytes: Seq<u8>)
    requires
        bytes.len() == 20,
    ensures
        Address::of_bytes(bytes)@ == bytes,
{
    let head = bytes.subrange(0, 4);
    let tail = bytes.subrange(4, 20);
    lemma_be_value_bound(head);
    lemma_be_value_bound(tail);
    reveal_with_fuel(span, 17);
    lemma_be_bytes_of_value(head);
    lemma_be_bytes_of_value(tail);
    assert(head + tail =~= bytes);
}

/// An identifier is the one that its own twenty bytes spell: no two
/// identifiers share their bytes.
pub proof fn lemma_view_of_bytes(address: Address)
    ensures
        address@.len() == 20,
        Address::of_bytes(address@) == address,
{
    let head = be_bytes(address.hi as nat, 4);
    let tail = be_bytes(address.lo as nat, 16);
    lemma_be_bytes_len(address.hi as nat, 4);
    lemma_be_bytes_len(address.lo as nat, 16);
    reveal_with_fuel(span, 17);
    lemma_be_value_of_bytes(address.hi as nat, 4);
    lemma_be_value_of_bytes(address.lo as nat, 16);
    assert((head + tail).subrange(0, 4) =~= head);
    assert((head + tail).subrange(4, 20) =~= tail);
}

} // verus!
