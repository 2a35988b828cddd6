use vstd::prelude::*;
use vstd::string::StringExecFns;

verus! {

/// Offset basis of the 64-bit FNV-1a hash.
pub const FNV_OFFSET_BASIS: u64 = 0xcbf2_9ce4_8422_2325;

/// Prime of the 64-bit FNV-1a hash.
pub const FNV_PRIME: u64 = 0x0000_0100_0000_01b3;

/// 64-bit FNV-1a hash of a byte sequence.
pub open spec fn fnv1a_hash(bytes: Seq<u8>) -> u64
    decreases bytes.len(),
{
    if bytes.len() == 0 {
        FNV_OFFSET_BASIS
    } else {
        (fnv1a_hash(bytes.drop_last()) ^ (bytes.last() as u64)).wrapping_mul(FNV_PRIME)
    }
}

/// Lower-case hexadecimal digit for a value below 16.
pub open spec fn hex_digit(n: u64) -> char {
    if n == 0 {
        '0'
    } else if n == 1 {
        '1'
    } else if n == 2 {
        '2'
    } else if n == 3 {
        '3'
    } else if n == 4 {
        '4'
    } else if n == 5 {
        '5'
    } else if n == 6 {
        '6'
    } else if n == 7 {
        '7'
    } else if n == 8 {
        '8'
    } else if n == 9 {
        '9'
    } else if n == 10 {
        'a'
    } else if n == 11 {
        'b'
    } else if n == 12 {
        'c'
    } else if n == 13 {
        'd'
    } else if n == 14 {
        'e'
    } else {
        'f'
    }
}

/// The `i`-th hexadecimal digit (most significant first) of the hash of
/// `bytes`.
pub open spec fn spec_name_nibble(bytes: Seq<u8>, i: int) -> u64 {
    (fnv1a_hash(bytes) >> ((4 * (15 - i)) as u64)) & 0xf
}

/// Deterministic, content-derived name of an input: the 16 lower-case
/// hexadecimal digits of its 64-bit FNV-1a hash.
pub open spec fn spec_generate_name(bytes: Seq<u8>) -> Seq<char> {
    Seq::new(16, |i: int| hex_digit(spec_name_nibble(bytes, i)))
}

/// Append the hexadecimal digit for `nib` to `name`.
fn push_hex_digit(name: &mut String, nib: u64)
    requires
        nib < 16,
    ensures
        final(name)@ == old(name)@ + seq![hex_digit(nib)],
{
    proof {
        reveal_strlit("0");
        reveal_strlit("1");
        reveal_strlit("2");
        reveal_strlit("3");
        reveal_strlit("4");
        reveal_strlit("5");
        reveal_strlit("6");
        reveal_strlit("7");
        reveal_strlit("8");
        reveal_strlit("9");
        reveal_strlit("a");
        reveal_strlit("b");
        reveal_strlit("c");
        reveal_strlit("d");
        reveal_strlit("e");
        reveal_strlit("f");
    }
    if nib == 0 {
        name.append("0");
    } else if nib == 1 {
        name.append("1");
    } else if nib == 2 {
        name.append("2");
    } else if nib == 3 {
        name.append("3");
    } else if nib == 4 {
        name.append("4");
    } else if nib == 5 {
        name.append("5");
    } else if nib == 6 {
        name.append("6");
    } else if nib == 7 {
        name.append("7");
    } else if nib == 8 {
        name.append("8");
    } else if nib == 9 {
        name.append("9");
    } else if nib == 10 {
        name.append("a");
    } else if nib == 11 {
        name.append("b");
    } else if nib == 12 {
        name.append("c");
    } else if nib == 13 {
        name.append("d");
    } else if nib == 14 {
        name.append("e");
    } else {
        name.append("f");
    }
    assert(name@ =~= old(name)@ + seq![hex_digit(nib)]);
}

/// Generated artifact base name for an input with no prior filename:
/// the hexadecimal form of the input's content hash.
pub fn generate_name(input: &Vec<u8>) -> (r: String)
    ensures
        r@ == spec_generate_name(input@),
{
    let mut h: u64 = FNV_OFFSET_BASIS;
    let mut i: usize = 0;
    while i < input.len()
        invariant
            i <= input@.len(),
            h == fnv1a_hash(input@.take(i as int)),
        decreases input@.len() - i,
    {
        h = (h ^ (input[i] as u64)).wrapping_mul(FNV_PRIME);
        proof {
            assert(input@.take(i + 1).drop_last() =~= input@.take(i as int));
            assert(input@.take(i + 1).last() == input@[i as int]);
        }
        i = i + 1;
    }
    proof {
        assert(input@.take(input@.len() as int) =~= input@);
    }

    let mut name = String::new();
    let mut k: usize = 0;
    while k < 16
        invariant
            h == fnv1a_hash(input@),
            k <= 16,
            name@.len() == k,
            forall|j: int|
                0 <= j < k ==> name@[j] == hex_digit(spec_name_nibble(input@, j)),
        decreases 16 - k,
    {
        let shift: u64 = 60 - 4 * (k as u64);
        let nib: u64 = (h >> shift) & 0xf;
        proof {
            assert((h >> shift) & 0xf < 16) by (bit_vector);
            assert(shift == (4 * (15 - k as int)) as u64);
            assert(nib == spec_name_nibble(input@, k as int));
        }
        push_hex_digit(&mut name, nib);
        k = k + 1;
    }
    proof {
        assert(name@ =~= spec_generate_name(input@));
    }
    name
}

} // verus!
