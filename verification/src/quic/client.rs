use vstd::prelude::*;
use vstd::string::*;

verus! {

/// The lower-case hexadecimal digit for `n`, which is below 16.
pub open spec fn hex_char(n: nat) -> char {
    if n < 10 {
        (48 + n) as char
    } else {
        (87 + n) as char
    }
}

/// Two lower-case hexadecimal digits for every byte, in order.
pub open spec fn spec_hex_dump(bytes: Seq<u8>) -> Seq<char>
    decreases bytes.len(),
{
    if bytes.len() == 0 {
        Seq::empty()
    } else {
        spec_hex_dump(bytes.drop_last()) + seq![
            hex_char((bytes.last() / 16) as nat),
            hex_char((bytes.last() % 16) as nat),
        ]
    }
}

fn hex_digit(n: u8) -> (s: &'static str)
    requires
        n < 16,
    ensures
        s@ == seq![hex_char(n as nat)],
{
    proof {
        reveal_strlit("0");
        reveal_strlit("1");
        reveal_strlit("2");
        reveal_strlit("3");
        reveal_strlit("4");
        reveal_strlit("5");
        reveal_strlit("6");
        reveal_strlit("7");
        reveal_strlit("8");
        reveal_strlit("9");
        reveal_strlit("a");
        reveal_strlit("b");
        reveal_strlit("c");
        reveal_strlit("d");
        reveal_strlit("e");
        reveal_strlit("f");
    }
    let s = if n == 0 {
        "0"
    } else if n == 1 {
        "1"
    } else if n == 2 {
        "2"
    } else if n == 3 {
        "3"
    } else if n == 4 {
        "4"
    } else if n == 5 {
        "5"
    } else if n == 6 {
        "6"
    } else if n == 7 {
        "7"
    } else if n == 8 {
        "8"
    } else if n == 9 {
        "9"
    } else if n == 10 {
        "a"
    } else if n == 11 {
        "b"
    } else if n == 12 {
        "c"
    } else if n == 13 {
        "d"
    } else if n == 14 {
        "e"
    } else {
        "f"
    };
    assert(s@ =~= seq![hex_char(n as nat)]);
    s
}

/// The bytes as lower-case hexadecimal, two digits a byte.
pub fn hex_dump(buf: &[u8]) -> (r: String)
    ensures
        r@ == spec_hex_dump(buf@),
{
    let mut r = String::new();
    let mut i: usize = 0;
    while i < buf.len()
        invariant
            i <= buf@.len(),
            r@ == spec_hex_dump(buf@.subrange(0, i as int)),
        decreases buf@.len() - i,
    {
        let b = buf[i];
        r.append(hex_digit(b / 16));
        r.append(hex_digit(b % 16));
        assert(buf@.subrange(0, i + 1).drop_last() =~= buf@.subrange(0, i as int));
        i = i + 1;
    }
    assert(buf@.subrange(0, buf@.len() as int) =~= buf@);
    r
}

/// The address a client binds its socket to: any address of the family of
/// the server's address.
pub fn bind_address_for(peer_is_ipv4: bool) -> (r: &'static str)
    ensures
        peer_is_ipv4 ==> r@ == "0.0.0.0:0"@,
        !peer_is_ipv4 ==> r@ == "[::]:0"@,
{
    if peer_is_ipv4 {
        "0.0.0.0:0"
    } else {
        "[::]:0"
    }
}

/// A hex dump has two digits for every byte, and every digit is one of
/// `0`-`9`, `a`-`f`.
pub proof fn lemma_hex_dump_shape(bytes: Seq<u8>)
    ensures
        spec_hex_dump(bytes).len() == 2 * bytes.len(),
        forall|i: int|
            0 <= i < spec_hex_dump(bytes).len() ==> {
                let c = #[trigger] spec_hex_dump(bytes)[i];
                ('0' <= c <= '9') || ('a' <= c <= 'f')
            },
    decreases bytes.len(),
{
    if bytes.len() > 0 {
        lemma_hex_dump_shape(bytes.drop_last());
        let prev = spec_hex_dump(bytes.drop_last());
        let tail = seq![
            hex_char((bytes.last() / 16) as nat),
            hex_char((bytes.last() % 16) as nat),
        ];
        assert forall|i: int| 0 <= i < (prev + tail).len() implies {
            let c = #[trigger] (prev + tail)[i];
            ('0' <= c <= '9') || ('a' <= c <= 'f')
        } by {
            if i >= prev.len() {
                assert((prev + tail)[i] == tail[i - prev.len()]);
            } else {
                assert((prev + tail)[i] == prev[i]);
            }
        }
    }
}

} // verus!
