use vstd::prelude::*;

verus! {

/// The ASCII code of the hexadecimal digit for a nibble, lower case.
pub open spec fn hex_digit(n: u8) -> u8
    recommends
        n < 16,
{
    if n < 10 {
        (0x30 + n) as u8
    } else {
        (0x57 + n) as u8
    }
}

/// How one byte of a UTF-8 string appears inside a JSON string literal:
/// quote and backslash get a backslash escape, the common control characters
/// their short escapes, the remaining control characters a hexadecimal
/// escape, and every other byte stands as it is.
pub open spec fn escape_byte(b: u8) -> Seq<u8> {
    if b == 0x22 {  // '"'
        seq![0x5cu8, 0x22u8]
    } else if b == 0x5c {  // '\'
        seq![0x5cu8, 0x5cu8]
    } else if b == 0x08 {
        seq![0x5cu8, 0x62u8]
    } else if b == 0x09 {
        seq![0x5cu8, 0x74u8]
    } else if b == 0x0a {
        seq![0x5cu8, 0x6eu8]
    } else if b == 0x0c {
        seq![0x5cu8, 0x66u8]
    } else if b == 0x0d {
        seq![0x5cu8, 0x72u8]
    } else if b < 0x20 {
        seq![0x5cu8, 0x75u8, 0x30u8, 0x30u8, hex_digit(b / 16), hex_digit(b % 16)]
    } else {
        seq![b]
    }
}

/// A whole byte string escaped for use inside a JSON string literal.
pub open spec fn escape_bytes(s: Seq<u8>) -> Seq<u8>
    decreases s.len(),
{
    if s.len() == 0 {
        Seq::empty()
    } else {
        escape_bytes(s.drop_last()) + escape_byte(s.last())
    }
}

/// An escaped byte string contains no raw control byte: every byte below
/// 0x20 is replaced by an escape sequence, so the rendered record stays a
/// single JSON line whatever the message holds.
pub proof fn lemma_escape_no_raw_controls(s: Seq<u8>)
    ensures
        forall|i: int| 0 <= i < escape_bytes(s).len() ==> #[trigger] escape_bytes(s)[i] >= 0x20,
    decreases s.len(),
{
    if s.len() > 0 {
        lemma_escape_no_raw_controls(s.drop_last());
        let tail = escape_byte(s.last());
        assert forall|j: int| 0 <= j < tail.len() implies tail[j] >= 0x20 by {
            assert(hex_digit(s.last() / 16) >= 0x30);
            assert(hex_digit(s.last() % 16) >= 0x30);
        };
        let prefix = escape_bytes(s.drop_last());
        assert forall|i: int| 0 <= i < escape_bytes(s).len() implies #[trigger] escape_bytes(
            s,
        )[i] >= 0x20 by {
            if i < prefix.len() {
                assert(escape_bytes(s)[i] == prefix[i]);
            } else {
                assert(escape_bytes(s)[i] == tail[i - prefix.len()]);
            }
        };
    }
}

/// Every quote byte in an escaped byte string stands immediately after a
/// backslash: a message cannot close the JSON string literal it is rendered
/// into.
pub proof fn lemma_escape_quotes_escaped(s: Seq<u8>)
    ensures
        forall|i: int|
            (0 <= i < escape_bytes(s).len() && #[trigger] escape_bytes(s)[i] == 0x22) ==> (i > 0
                && escape_bytes(s)[i - 1] == 0x5c),
    decreases s.len(),
{
    if s.len() > 0 {
        lemma_escape_quotes_escaped(s.drop_last());
        let prefix = escape_bytes(s.drop_last());
        let tail = escape_byte(s.last());
        assert(tail[0] != 0x22);
        assert forall|i: int|
            (0 <= i < escape_bytes(s).len() && #[trigger] escape_bytes(s)[i] == 0x22) implies (i
            > 0 && escape_bytes(s)[i - 1] == 0x5c) by {
            if i < prefix.len() {
                assert(escape_bytes(s)[i] == prefix[i]);
                assert(escape_bytes(s)[i - 1] == prefix[i - 1]);
            } else {
                assert(escape_bytes(s)[i] == tail[i - prefix.len()]);
                if i - prefix.len() >= 1 {
                    assert(escape_bytes(s)[i - 1] == tail[i - prefix.len() - 1]);
                }
            }
        };
    }
}

/// Appends the escaped form of `input` to `out`.
pub fn escape_into(input: &[u8], out: &mut Vec<u8>)
    ensures
        final(out)@ == old(out)@ + escape_bytes(input@),
{
    let ghost orig: Seq<u8> = out@;
    let mut i: usize = 0;
    while i < input.len()
        invariant
            i <= input.len(),
            out@ == orig + escape_bytes(input@.take(i as int)),
        decreases input.len() - i,
    {
        let b = input[i];
        if b == 0x22 || b == 0x5c {
            out.push(0x5c);
            out.push(b);
        } else if b == 0x08 {
            out.push(0x5c);
            out.push(0x62);
        } else if b == 0x09 {
            out.push(0x5c);
            out.push(0x74);
        } else if b == 0x0a {
            out.push(0x5c);
            out.push(0x6e);
        } else if b == 0x0c {
            out.push(0x5c);
            out.push(0x66);
        } else if b == 0x0d {
            out.push(0x5c);
            out.push(0x72);
        } else if b < 0x20 {
            out.push(0x5c);
            out.push(0x75);
            out.push(0x30);
            out.push(0x30);
            let hi = b / 16;
            let lo = b % 16;
            out.push(if hi < 10 { (0x30 + hi) as u8 } else { (0x57 + hi) as u8 });
            out.push(if lo < 10 { (0x30 + lo) as u8 } else { (0x57 + lo) as u8 });
        } else {
            out.push(b);
        }
        proof {
            assert(input@.take(i + 1).drop_last() =~= input@.take(i as int));
            assert(input@.take(i + 1).last() == input@[i as int]);
            assert(escape_bytes(input@.take(i + 1)) == escape_bytes(input@.take(i as int))
                + escape_byte(input@[i as int]));
            assert(out@ =~= orig + escape_bytes(input@.take(i + 1)));
        }
        i = i + 1;
    }
    proof {
        assert(input@.take(input@.len() as int) =~= input@);
    }
}

} // verus!
