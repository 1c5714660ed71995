//! Textual identities: a sensor's address as sixteen upper-case hex digits,
//! and the node's identity derived from its hardware address.
use vstd::prelude::*;
use vstd::string::StringExecFns;

verus! {

/// The upper-case hex digit for a nibble.
pub open spec fn hex_char(n: int) -> char {
    if 0 <= n < 10 {
        ((n + 48) as u8) as char
    } else {
        ((n + 55) as u8) as char
    }
}

/// The `k` lowest nibbles of `x`, most significant first.
pub open spec fn hex_digits(x: nat, k: nat) -> Seq<char>
    decreases k,
{
    if k == 0 {
        Seq::empty()
    } else {
        hex_digits(x / 16, (k - 1) as nat).push(hex_char((x % 16) as int))
    }
}

/// A device address as sixteen upper-case hex digits.
pub open spec fn address_label(addr: u64) -> Seq<char> {
    hex_digits(addr as nat, 16)
}

/// Two upper-case hex digits for each byte, in order.
pub open spec fn bytes_hex(b: Seq<u8>) -> Seq<char>
    decreases b.len(),
{
    if b.len() == 0 {
        Seq::empty()
    } else {
        bytes_hex(b.drop_last()) + hex_digits(b.last() as nat, 2)
    }
}

/// Prefix of the node identity.
pub open spec fn id_prefix() -> Seq<char> {
    "esp32temp-"@
}

/// The string of a single hex digit.
fn hex_str(n: u64) -> (r: &'static str)
    requires
        n < 16,
    ensures
        r@ == seq![hex_char(n as int)],
{
    proof {
        reveal_strlit("0");
        reveal_strlit("1");
        reveal_strlit("2");
        reveal_strlit("3");
        reveal_strlit("4");
        reveal_strlit("5");
        reveal_strlit("6");
        reveal_strlit("7");
        reveal_strlit("8");
        reveal_strlit("9");
        reveal_strlit("A");
        reveal_strlit("B");
        reveal_strlit("C");
        reveal_strlit("D");
        reveal_strlit("E");
        reveal_strlit("F");
    }
    match n {
        0 => "0",
        1 => "1",
        2 => "2",
        3 => "3",
        4 => "4",
        5 => "5",
        6 => "6",
        7 => "7",
        8 => "8",
        9 => "9",
        10 => "A",
        11 => "B",
        12 => "C",
        13 => "D",
        14 => "E",
        _ => "F",
    }
}

proof fn lemma_hex_digits_step(x: nat, k: nat)
    requires
        k > 0,
    ensures
        hex_digits(x, k) == hex_digits(x / 16, (k - 1) as nat).push(hex_char((x % 16) as int)),
{
}

/// Appends the `k` lowest nibbles of `x` in upper-case hex.
fn push_hex(s: &mut String, x: u64, k: u32)
    requires
        k <= 16,
    ensures
        final(s)@ == old(s)@ + hex_digits(x as nat, k as nat),
    decreases k,
{
    if k == 0 {
        assert(old(s)@ + hex_digits(x as nat, 0) =~= old(s)@);
        return;
    }
    push_hex(s, x / 16, k - 1);
    let d = hex_str(x % 16);
    s.append(d);
    proof {
        lemma_hex_digits_step(x as nat, k as nat);
        assert((x / 16) as nat == (x as nat) / 16);
        assert(final(s)@ =~= old(s)@ + hex_digits(x as nat, k as nat));
    }
}

/// A device address as sixteen upper-case hex digits, as the 1-wire bus
/// prints it.
pub fn device_label(addr: u64) -> (r: String)
    ensures
        r@ == address_label(addr),
{
    let mut s = String::new();
    push_hex(&mut s, addr, 16);
    assert(s@ =~= address_label(addr));
    s
}

/// The node's identity: `esp32temp-` and its hardware address in hex.
pub fn node_id(mac: &[u8; 6]) -> (r: String)
    ensures
        r@ == id_prefix() + bytes_hex(mac@),
{
    let mut s = String::from_str("esp32temp-");
    let mut i: usize = 0;
    while i < 6
        invariant
            i <= 6,
            s@ == id_prefix() + bytes_hex(mac@.subrange(0, i as int)),
        decreases 6 - i,
    {
        push_hex(&mut s, mac[i] as u64, 2);
        proof {
            let pre = mac@.subrange(0, i as int);
            let next = mac@.subrange(0, i + 1);
            assert(next.drop_last() =~= pre);
            assert(next.last() == mac@[i as int]);
            assert(s@ =~= id_prefix() + bytes_hex(next));
        }
        i += 1;
    }
    assert(mac@.subrange(0, 6) =~= mac@);
    s
}

} // verus!
