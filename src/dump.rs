use vstd::prelude::*;

verus! {

/// The lower-case hexadecimal digit for `n`, which is below 16.
pub open spec fn hex_digit(n: int) -> char {
    if n < 10 {
        (('0' as int) + n) as char
    } else {
        (('a' as int) + n - 10) as char
    }
}

/// `n` in lower-case hexadecimal, padded with zeros to at least `width`
/// digits; 0 with width 0 is the single digit `0`.
pub open spec fn hex_padded(n: nat, width: nat) -> Seq<char>
    decreases n, width,
{
    if n < 16 && width <= 1 {
        seq![hex_digit(n as int)]
    } else {
        hex_padded(n / 16, if width > 0 {
            (width - 1) as nat
        } else {
            0
        }) + seq![hex_digit((n % 16) as int)]
    }
}

/// What the dump shows for byte `b` at address `addr`: where `addr` starts a
/// row of 32, a new line and the address in at least four digits, then the
/// byte in two digits and a space.
pub open spec fn dump_entry(b: u8, addr: nat) -> Seq<char> {
    (if addr % 32 == 0 {
        seq!['\n'] + hex_padded(addr, 4) + seq![':', ' ']
    } else {
        Seq::empty()
    }) + hex_padded(b as nat, 2) + seq![' ']
}

/// The entries for `bytes`, the first of them at address `start`.
pub open spec fn dump_entries(bytes: Seq<u8>, start: nat) -> Seq<char>
    decreases bytes.len(),
{
    if bytes.len() == 0 {
        Seq::empty()
    } else {
        dump_entries(bytes.drop_last(), start) + dump_entry(
            bytes.last(),
            (start + bytes.len() - 1) as nat,
        )
    }
}

fn digit_str(n: u32) -> (r: &'static str)
    requires
        n < 16,
    ensures
        r@ == seq![hex_digit(n as int)],
{
    match n {
        0 => {
            proof {
                reveal_strlit("0");
            }
            "0"
        },
        1 => {
            proof {
                reveal_strlit("1");
            }
            "1"
        },
        2 => {
            proof {
                reveal_strlit("2");
            }
            "2"
        },
        3 => {
            proof {
                reveal_strlit("3");
            }
            "3"
        },
        4 => {
            proof {
                reveal_strlit("4");
            }
            "4"
        },
        5 => {
            proof {
                reveal_strlit("5");
            }
            "5"
        },
        6 => {
            proof {
                reveal_strlit("6");
            }
            "6"
        },
        7 => {
            proof {
                reveal_strlit("7");
            }
            "7"
        },
        8 => {
            proof {
                reveal_strlit("8");
            }
            "8"
        },
        9 => {
            proof {
                reveal_strlit("9");
            }
            "9"
        },
        10 => {
            proof {
                reveal_strlit("a");
            }
            "a"
        },
        11 => {
            proof {
                reveal_strlit("b");
            }
            "b"
        },
        12 => {
            proof {
                reveal_strlit("c");
            }
            "c"
        },
        13 => {
            proof {
                reveal_strlit("d");
            }
            "d"
        },
        14 => {
            proof {
                reveal_strlit("e");
            }
            "e"
        },
        _ => {
            proof {
                reveal_strlit("f");
            }
            "f"
        },
    }
}

/// Appends `n` in hexadecimal, padded to `width` digits.
fn push_hex(out: &mut String, n: u32, width: u32)
    ensures
        final(out)@ == old(out)@ + hex_padded(n as nat, width as nat),
    decreases n, width,
{
    if n < 16 && width <= 1 {
        out.append(digit_str(n));
    } else {
        let w: u32 = if width > 0 {
            width - 1
        } else {
            0
        };
        push_hex(out, n / 16, w);
        out.append(digit_str(n % 16));
        assert(final(out)@ =~= old(out)@ + hex_padded(n as nat, width as nat));
    }
}

/// Lays out `hex` as rows of 32 bytes in hexadecimal, each row led by the
/// address of its first byte, counting from `start`; ends with a new line.
pub fn hexdump(hex: &[u8], start: u32) -> (r: String)
    requires
        start + hex@.len() <= u32::MAX,
    ensures
        r@ == dump_entries(hex@, start as nat) + seq!['\n'],
{
    let mut addr: u32 = start;
    let mut dump = String::new();
    let n: usize = hex.len();
    let mut i: usize = 0;
    while i < n
        invariant
            n == hex@.len(),
            i <= n,
            start + n <= u32::MAX,
            addr == start + i,
            dump@ == dump_entries(hex@.subrange(0, i as int), start as nat),
        decreases n - i,
    {
        let ghost before = dump@;
        if addr % 32 == 0 {
            dump.append("\n");
            push_hex(&mut dump, addr, 4);
            dump.append(": ");
        }
        push_hex(&mut dump, hex[i] as u32, 2);
        dump.append(" ");
        proof {
            reveal_strlit("\n");
            reveal_strlit(": ");
            reveal_strlit(" ");
            let s = hex@.subrange(0, i + 1);
            assert(s.drop_last() =~= hex@.subrange(0, i as int));
            assert(dump@ =~= before + dump_entry(hex@[i as int], addr as nat));
        }
        addr = addr + 1;
        i = i + 1;
    }
    dump.append("\n");
    proof {
        reveal_strlit("\n");
        assert(hex@.subrange(0, n as int) =~= hex@);
    }
    dump
}

} // verus!
