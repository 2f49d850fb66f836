//! Verified construction of the kernel-command-line fragment that announces
//! the device's MMIO window and interrupt line to the guest, of the form
//! `virtio_mmio.device=<size><unit>@0x<hex-base>:<irq>[:<id>]`.

use vstd::prelude::*;

verus! {

/// Bytes per kibibyte.
pub const KB_MULT: u64 = 1024;

/// Bytes per mebibyte.
pub const MB_MULT: u64 = 1048576;

/// Bytes per gibibyte.
pub const GB_MULT: u64 = 1073741824;

/// The character standing for one digit value below sixteen.
pub open spec fn digit_char(d: nat) -> char {
    if d == 0 {
        '0'
    } else if d == 1 {
        '1'
    } else if d == 2 {
        '2'
    } else if d == 3 {
        '3'
    } else if d == 4 {
        '4'
    } else if d == 5 {
        '5'
    } else if d == 6 {
        '6'
    } else if d == 7 {
        '7'
    } else if d == 8 {
        '8'
    } else if d == 9 {
        '9'
    } else if d == 10 {
        'a'
    } else if d == 11 {
        'b'
    } else if d == 12 {
        'c'
    } else if d == 13 {
        'd'
    } else if d == 14 {
        'e'
    } else {
        'f'
    }
}

/// The decimal digit sequence of `n`, most significant digit first, with no
/// leading zeros (a lone `0` for zero itself).
pub open spec fn dec_seq(n: nat) -> Seq<char>
    decreases n,
{
    if n < 10 {
        seq![digit_char(n)]
    } else {
        dec_seq(n / 10).push(digit_char(n % 10))
    }
}

/// The lowercase hexadecimal digit sequence of `n`, most significant digit
/// first, with no leading zeros (a lone `0` for zero itself).
pub open spec fn hex_seq(n: nat) -> Seq<char>
    decreases n,
{
    if n < 16 {
        seq![digit_char(n)]
    } else {
        hex_seq(n / 16).push(digit_char(n % 16))
    }
}

/// The digit value a character stands for, sixteen for any non-digit.
pub open spec fn digit_val(c: char) -> nat {
    if c == '0' {
        0
    } else if c == '1' {
        1
    } else if c == '2' {
        2
    } else if c == '3' {
        3
    } else if c == '4' {
        4
    } else if c == '5' {
        5
    } else if c == '6' {
        6
    } else if c == '7' {
        7
    } else if c == '8' {
        8
    } else if c == '9' {
        9
    } else if c == 'a' {
        10
    } else if c == 'b' {
        11
    } else if c == 'c' {
        12
    } else if c == 'd' {
        13
    } else if c == 'e' {
        14
    } else if c == 'f' {
        15
    } else {
        16
    }
}

/// The number a sequence of decimal digit characters denotes.
pub open spec fn dec_val(s: Seq<char>) -> nat
    decreases s.len(),
{
    if s.len() == 0 {
        0
    } else {
        dec_val(s.drop_last()) * 10 + digit_val(s.last())
    }
}

/// The number a sequence of hexadecimal digit characters denotes.
pub open spec fn hex_val(s: Seq<char>) -> nat
    decreases s.len(),
{
    if s.len() == 0 {
        0
    } else {
        hex_val(s.drop_last()) * 16 + digit_val(s.last())
    }
}

/// A digit value below sixteen survives the round trip through its
/// character.
proof fn lemma_digit_roundtrip(d: nat)
    requires
        d < 16,
    ensures
        digit_val(digit_char(d)) == d,
{
}

/// The decimal spelling of `n` denotes `n` itself: formatting loses nothing.
pub proof fn lemma_dec_seq_denotes(n: nat)
    ensures
        dec_val(dec_seq(n)) == n,
    decreases n,
{
    if n < 10 {
        let s = seq![digit_char(n)];
        assert(s.drop_last() =~= Seq::<char>::empty());
        assert(s.last() == digit_char(n));
        assert(dec_val(Seq::<char>::empty()) == 0);
        lemma_digit_roundtrip(n);
    } else {
        lemma_dec_seq_denotes(n / 10);
        assert(dec_seq(n).drop_last() =~= dec_seq(n / 10));
        assert(dec_seq(n).last() == digit_char(n % 10));
        lemma_digit_roundtrip(n % 10);
        assert(dec_val(dec_seq(n)) == (n / 10) * 10 + n % 10);
        assert(n == (n / 10) * 10 + n % 10) by (nonlinear_arith);
    }
}

/// The hexadecimal spelling of `n` denotes `n` itself.
pub proof fn lemma_hex_seq_denotes(n: nat)
    ensures
        hex_val(hex_seq(n)) == n,
    decreases n,
{
    if n < 16 {
        let s = seq![digit_char(n)];
        assert(s.drop_last() =~= Seq::<char>::empty());
        assert(s.last() == digit_char(n));
        assert(hex_val(Seq::<char>::empty()) == 0);
        lemma_digit_roundtrip(n);
    } else {
        lemma_hex_seq_denotes(n / 16);
        assert(hex_seq(n).drop_last() =~= hex_seq(n / 16));
        assert(hex_seq(n).last() == digit_char(n % 16));
        lemma_digit_roundtrip(n % 16);
        assert(hex_val(hex_seq(n)) == (n / 16) * 16 + n % 16);
        assert(n == (n / 16) * 16 + n % 16) by (nonlinear_arith);
    }
}

/// The command-line spelling of a window size: the size scaled by the
/// largest of the G, M and K units that divides it evenly, or the raw byte
/// count when none does.
pub open spec fn size_repr(size: nat) -> Seq<char> {
    if size % (GB_MULT as nat) == 0 {
        dec_seq(size / (GB_MULT as nat)) + seq!['G']
    } else if size % (MB_MULT as nat) == 0 {
        dec_seq(size / (MB_MULT as nat)) + seq!['M']
    } else if size % (KB_MULT as nat) == 0 {
        dec_seq(size / (KB_MULT as nat)) + seq!['K']
    } else {
        dec_seq(size)
    }
}

/// The whole kernel-command-line fragment announcing a device window at
/// `base` of `size` bytes on interrupt line `irq`, with an optional device
/// id.
pub open spec fn fragment(base: nat, size: nat, irq: nat, id: Option<u32>) -> Seq<char> {
    "virtio_mmio.device="@ + size_repr(size) + "@0x"@ + hex_seq(base) + ":"@ + dec_seq(irq) + (
    match id {
        Some(i) => ":"@ + dec_seq(i as nat),
        None => Seq::<char>::empty(),
    })
}

/// The one-character string spelling one digit value below sixteen.
fn digit_str(d: u64) -> (r: &'static str)
    requires
        d < 16,
    ensures
        r@ == seq![digit_char(d as nat)],
{
    if d == 0 {
        proof {
            reveal_strlit("0");
            assert("0"@ =~= seq![digit_char(0)]);
        }
        "0"
    } else if d == 1 {
        proof {
            reveal_strlit("1");
            assert("1"@ =~= seq![digit_char(1)]);
        }
        "1"
    } else if d == 2 {
        proof {
            reveal_strlit("2");
            assert("2"@ =~= seq![digit_char(2)]);
        }
        "2"
    } else if d == 3 {
        proof {
            reveal_strlit("3");
            assert("3"@ =~= seq![digit_char(3)]);
        }
        "3"
    } else if d == 4 {
        proof {
            reveal_strlit("4");
            assert("4"@ =~= seq![digit_char(4)]);
        }
        "4"
    } else if d == 5 {
        proof {
            reveal_strlit("5");
            assert("5"@ =~= seq![digit_char(5)]);
        }
        "5"
    } else if d == 6 {
        proof {
            reveal_strlit("6");
            assert("6"@ =~= seq![digit_char(6)]);
        }
        "6"
    } else if d == 7 {
        proof {
            reveal_strlit("7");
            assert("7"@ =~= seq![digit_char(7)]);
        }
        "7"
    } else if d == 8 {
        proof {
            reveal_strlit("8");
            assert("8"@ =~= seq![digit_char(8)]);
        }
        "8"
    } else if d == 9 {
        proof {
            reveal_strlit("9");
            assert("9"@ =~= seq![digit_char(9)]);
        }
        "9"
    } else if d == 10 {
        proof {
            reveal_strlit("a");
            assert("a"@ =~= seq![digit_char(10)]);
        }
        "a"
    } else if d == 11 {
        proof {
            reveal_strlit("b");
            assert("b"@ =~= seq![digit_char(11)]);
        }
        "b"
    } else if d == 12 {
        proof {
            reveal_strlit("c");
            assert("c"@ =~= seq![digit_char(12)]);
        }
        "c"
    } else if d == 13 {
        proof {
            reveal_strlit("d");
            assert("d"@ =~= seq![digit_char(13)]);
        }
        "d"
    } else if d == 14 {
        proof {
            reveal_strlit("e");
            assert("e"@ =~= seq![digit_char(14)]);
        }
        "e"
    } else {
        proof {
            reveal_strlit("f");
            assert("f"@ =~= seq![digit_char(15)]);
        }
        "f"
    }
}

/// Appends the decimal digits of `n` to `s`.
fn push_dec(s: &mut String, n: u64)
    ensures
        final(s)@ == old(s)@ + dec_seq(n as nat),
    decreases n,
{
    let ghost prefix: Seq<char> = s@;
    if n >= 10 {
        push_dec(s, n / 10);
        proof {
            assert((n / 10) as nat == (n as nat) / 10);
        }
    }
    let d = digit_str(n % 10);
    s.append(d);
    proof {
        assert((n % 10) as nat == (n as nat) % 10);
        if n >= 10 {
            assert(dec_seq(n as nat) =~= dec_seq((n as nat) / 10) + seq![
                digit_char((n as nat) % 10),
            ]);
            assert(s@ =~= prefix + dec_seq(n as nat));
        } else {
            assert(dec_seq(n as nat) =~= seq![digit_char(n as nat)]);
            assert(s@ =~= prefix + dec_seq(n as nat));
        }
    }
}

/// Appends the lowercase hexadecimal digits of `n` to `s`.
fn push_hex(s: &mut String, n: u64)
    ensures
        final(s)@ == old(s)@ + hex_seq(n as nat),
    decreases n,
{
    let ghost prefix: Seq<char> = s@;
    if n >= 16 {
        push_hex(s, n / 16);
        proof {
            assert((n / 16) as nat == (n as nat) / 16);
        }
    }
    let d = digit_str(n % 16);
    s.append(d);
    proof {
        assert((n % 16) as nat == (n as nat) % 16);
        if n >= 16 {
            assert(hex_seq(n as nat) =~= hex_seq((n as nat) / 16) + seq![
                digit_char((n as nat) % 16),
            ]);
            assert(s@ =~= prefix + hex_seq(n as nat));
        } else {
            assert(hex_seq(n as nat) =~= seq![digit_char(n as nat)]);
            assert(s@ =~= prefix + hex_seq(n as nat));
        }
    }
}

/// Formats a window size with the largest unit among G, M and K that evenly
/// divides it, falling back to the raw byte count when none does.
pub fn guestusize_to_str(size: u64) -> (r: String)
    ensures
        r@ == size_repr(size as nat),
{
    let mut s = String::new();
    if size % GB_MULT == 0 {
        push_dec(&mut s, size / GB_MULT);
        s.append("G");
        proof {
            reveal_strlit("G");
            assert(s@ =~= size_repr(size as nat));
        }
    } else if size % MB_MULT == 0 {
        push_dec(&mut s, size / MB_MULT);
        s.append("M");
        proof {
            reveal_strlit("M");
            assert(s@ =~= size_repr(size as nat));
        }
    } else if size % KB_MULT == 0 {
        push_dec(&mut s, size / KB_MULT);
        s.append("K");
        proof {
            reveal_strlit("K");
            assert(s@ =~= size_repr(size as nat));
        }
    } else {
        push_dec(&mut s, size);
        proof {
            assert(s@ =~= size_repr(size as nat));
        }
    }
    s
}

/// Builds the kernel-command-line fragment
/// `virtio_mmio.device=<size><unit>@0x<hex-base>:<irq>[:<id>]` for the
/// device's MMIO window; `None` exactly when the window size is zero, which
/// no fragment may announce.
pub fn mmio_device_cmdline(base: u64, size: u64, irq: u32, id: Option<u32>) -> (r: Option<String>)
    ensures
        (r is Some) == (size > 0),
        r matches Some(f) ==> f@ == fragment(base as nat, size as nat, irq as nat, id),
{
    if size == 0 {
        return None;
    }
    let mut s = String::from_str("virtio_mmio.device=");
    let unit = guestusize_to_str(size);
    s.append(unit.as_str());
    s.append("@0x");
    push_hex(&mut s, base);
    s.append(":");
    push_dec(&mut s, irq as u64);
    match id {
        Some(i) => {
            s.append(":");
            push_dec(&mut s, i as u64);
        },
        None => {},
    }
    proof {
        assert(s@ =~= fragment(base as nat, size as nat, irq as nat, id));
    }
    Some(s)
}

} // verus!
