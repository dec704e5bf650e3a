//! The one executable path that every build of a session writes and every run
//! starts: a file with a random hexadecimal name in the scratch directory.

use vstd::prelude::*;

verus! {

/// Relies on rand::random: it hands back some value of `T`; nothing is known of which.
pub assume_specification<T>[ rand::random::<T> ]() -> (r: T)
    where
        rand::distributions::Standard: rand::distributions::Distribution<T>,
;

/// The lower-case hexadecimal digit of `d` (below 16).
pub open spec fn hex_digit(d: nat) -> char {
    seq!['0', '1', '2', '3', '4', '5', '6', '7', '8', '9', 'a', 'b', 'c', 'd', 'e', 'f'][d as int]
}

/// `n` in lower-case hexadecimal, without leading zeros (`0` for zero).
pub open spec fn hex(n: nat) -> Seq<char>
    decreases n,
{
    if n < 16 {
        seq![hex_digit(n)]
    } else {
        hex(n / 16).push(hex_digit(n % 16))
    }
}

/// What the host's executable extension adds to a file name: nothing where it
/// is empty, else a dot and the extension.
pub open spec fn ext_suffix(ext: Seq<char>) -> Seq<char> {
    if ext.len() == 0 {
        seq![]
    } else {
        seq!['.'] + ext
    }
}

/// The scratch directory, relative to the working directory.
pub open spec fn scratch_dir_spec() -> Seq<char> {
    "./target/batch"@
}

/// The executable path named by `id`, with the extension `ext`.
pub open spec fn target_bin_path(id: nat, ext: Seq<char>) -> Seq<char> {
    scratch_dir_spec() + seq!['/'] + hex(id) + ext_suffix(ext)
}

fn hex_digit_string(d: u64) -> (r: String)
    requires
        d < 16,
    ensures
        r@ == seq![hex_digit(d as nat)],
{
    let digits = "0123456789abcdef";
    proof {
        reveal_strlit("0123456789abcdef");
    }
    let r = String::from_str(digits.substring_char(d as usize, d as usize + 1));
    assert(r@ =~= seq![hex_digit(d as nat)]);
    r
}

/// `n` in lower-case hexadecimal, as `format!("{:x}", n)` writes it.
pub fn hex_string(n: u64) -> (r: String)
    ensures
        r@ == hex(n as nat),
{
    let mut m = n;
    let mut acc = String::new();
    assert(hex(n as nat) =~= hex(m as nat) + acc@);
    while m >= 16
        invariant
            hex(n as nat) == hex(m as nat) + acc@,
        decreases m,
    {
        let d = hex_digit_string(m % 16);
        let ghost old_acc = acc@;
        acc = d.concat(acc.as_str());
        assert(hex(m as nat) == hex((m / 16) as nat).push(hex_digit((m % 16) as nat)));
        assert(hex(m as nat) + old_acc =~= hex((m / 16) as nat) + acc@);
        m = m / 16;
    }
    let d = hex_digit_string(m);
    assert(hex(m as nat) == seq![hex_digit(m as nat)]);
    d.concat(acc.as_str())
}

/// The scratch directory, which must exist before a build writes into it.
pub fn scratch_dir() -> (r: String)
    ensures
        r@ == scratch_dir_spec(),
{
    String::from_str("./target/batch")
}

/// The executable path named by `id` in the scratch directory, with the host's
/// executable extension `exe_ext` (empty where executables have none).
pub fn target_bin_for(id: u64, exe_ext: &str) -> (r: String)
    ensures
        r@ == target_bin_path(id as nat, exe_ext@),
{
    let mut r = scratch_dir();
    r.append("/");
    r.append(hex_string(id).as_str());
    if exe_ext.unicode_len() > 0 {
        r.append(".");
        r.append(exe_ext);
    }
    proof {
        reveal_strlit("/");
        reveal_strlit(".");
    }
    assert(r@ =~= target_bin_path(id as nat, exe_ext@));
    r
}

/// A fresh executable path in the scratch directory, named by a random 64-bit
/// identifier. A session allocates it once and keeps it.
pub fn allocate_scratch_path(exe_ext: &str) -> (r: String)
    ensures
        exists|id: u64| r@ == target_bin_path(id as nat, exe_ext@),
{
    let id: u64 = rand::random::<u64>();
    target_bin_for(id, exe_ext)
}

} // verus!
