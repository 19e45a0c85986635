//! Small text helpers: rendering an integer in decimal (for the port inside
//! a connection string) and decoding raw metadata bytes into table names.
use vstd::prelude::*;
use vstd::string::StringExecFns;
use vstd::utf8::{decode_utf8, valid_utf8};

verus! {

/// The character for one decimal digit.
pub open spec fn digit_char(d: nat) -> char {
    if d == 0 {
        '0'
    } else if d == 1 {
        '1'
    } else if d == 2 {
        '2'
    } else if d == 3 {
        '3'
    } else if d == 4 {
        '4'
    } else if d == 5 {
        '5'
    } else if d == 6 {
        '6'
    } else if d == 7 {
        '7'
    } else if d == 8 {
        '8'
    } else {
        '9'
    }
}

/// The decimal rendering of `n`, most significant digit first, no leading
/// zeros (a single `'0'` for zero itself).
pub open spec fn dec_str(n: nat) -> Seq<char>
    decreases n,
{
    if n < 10 {
        seq![digit_char(n)]
    } else {
        dec_str(n / 10).push(digit_char(n % 10))
    }
}

fn append_digit(s: &mut String, d: u16)
    requires
        d < 10,
    ensures
        final(s)@ == old(s)@.push(digit_char(d as nat)),
{
    proof {
        reveal_strlit("0");
        reveal_strlit("1");
        reveal_strlit("2");
        reveal_strlit("3");
        reveal_strlit("4");
        reveal_strlit("5");
        reveal_strlit("6");
        reveal_strlit("7");
        reveal_strlit("8");
        reveal_strlit("9");
    }
    match d {
        0 => s.append("0"),
        1 => s.append("1"),
        2 => s.append("2"),
        3 => s.append("3"),
        4 => s.append("4"),
        5 => s.append("5"),
        6 => s.append("6"),
        7 => s.append("7"),
        8 => s.append("8"),
        _ => s.append("9"),
    }
    proof {
        assert(s@ =~= old(s)@.push(digit_char(d as nat)));
    }
}

/// Appends the decimal rendering of `n` to `s`.
pub fn append_decimal(s: &mut String, n: u16)
    ensures
        final(s)@ == old(s)@ + dec_str(n as nat),
    decreases n,
{
    if n < 10 {
        append_digit(s, n);
        proof {
            assert(s@ =~= old(s)@ + dec_str(n as nat));
        }
    } else {
        append_decimal(s, n / 10);
        append_digit(s, n % 10);
        proof {
            assert(s@ =~= old(s)@ + dec_str(n as nat));
        }
    }
}

/// Relies on `String::from_utf8`: it returns `Ok` exactly when the bytes are
/// valid UTF-8, and then yields the string those bytes encode.
#[verifier::external_body]
pub fn string_from_utf8(bytes: &Vec<u8>) -> (r: Option<String>)
    ensures
        r is Some <==> valid_utf8(bytes@),
        r is Some ==> r->Some_0@ == decode_utf8(bytes@),
{
    match String::from_utf8(bytes.clone()) {
        Ok(s) => Some(s),
        Err(_) => None,
    }
}

/// Every raw name in the batch is valid UTF-8.
pub open spec fn all_utf8(raws: Seq<Vec<u8>>) -> bool {
    forall|i: int| 0 <= i < raws.len() ==> valid_utf8(#[trigger] raws[i]@)
}

/// The decoded form of each raw name in the batch.
pub open spec fn decoded_names(raws: Seq<Vec<u8>>) -> Seq<Seq<char>> {
    Seq::new(raws.len(), |i: int| decode_utf8(raws[i]@))
}

/// Decodes a batch of raw metadata byte strings into table names; `None`
/// when any of them is not valid UTF-8.
pub fn decode_table_names(raws: &Vec<Vec<u8>>) -> (r: Option<Vec<String>>)
    ensures
        r is Some <==> all_utf8(raws@),
        r is Some ==> {
            &&& r->Some_0@.len() == raws@.len()
            &&& forall|i: int|
                0 <= i < raws@.len() ==> (#[trigger] r->Some_0@[i])@ == decode_utf8(raws@[i]@)
        },
{
    let mut names: Vec<String> = Vec::new();
    let n = raws.len();
    let mut i: usize = 0;
    while i < n
        invariant
            i <= n,
            n == raws@.len(),
            names@.len() == i,
            forall|k: int| 0 <= k < i ==> valid_utf8(#[trigger] raws@[k]@),
            forall|k: int| 0 <= k < i ==> (#[trigger] names@[k])@ == decode_utf8(raws@[k]@),
        decreases n - i,
    {
        match string_from_utf8(&raws[i]) {
            Some(name) => names.push(name),
            None => {
                proof {
                    if all_utf8(raws@) {
                        assert(valid_utf8(raws@[i as int]@));
                    }
                }
                return None;
            },
        }
        i = i + 1;
    }
    Some(names)
}

} // verus!
