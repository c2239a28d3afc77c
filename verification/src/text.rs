//! Text building blocks shared by the operator messages: decimal rendering
//! and identifier comparisons over owned strings.

use vstd::prelude::*;

verus! {

/// The character of one decimal digit.
pub open spec fn digit_char(d: nat) -> char {
    if d == 0 {
        '0'
    } else if d == 1 {
        '1'
    } else if d == 2 {
        '2'
    } else if d == 3 {
        '3'
    } else if d == 4 {
        '4'
    } else if d == 5 {
        '5'
    } else if d == 6 {
        '6'
    } else if d == 7 {
        '7'
    } else if d == 8 {
        '8'
    } else {
        '9'
    }
}

/// Decimal digits of a natural number, most significant first, no padding.
pub open spec fn digits(n: nat) -> Seq<char>
    decreases n,
{
    if n < 10 {
        seq![digit_char(n)]
    } else {
        digits(n / 10) + seq![digit_char(n % 10)]
    }
}

/// Decimal rendering of an integer, with a leading '-' for negatives.
pub open spec fn decimal(n: int) -> Seq<char> {
    if n < 0 {
        seq!['-'] + digits((-n) as nat)
    } else {
        digits(n as nat)
    }
}

/// Decimal rendering padded with a leading zero to at least two digits.
pub open spec fn decimal2(n: nat) -> Seq<char> {
    if n < 10 {
        seq!['0'] + digits(n)
    } else {
        digits(n)
    }
}

/// The views of a sequence of owned strings.
pub open spec fn views(v: Seq<String>) -> Seq<Seq<char>> {
    v.map_values(|s: String| s@)
}

fn digit_text(d: u64) -> (r: &'static str)
    requires
        d < 10,
    ensures
        r@ == seq![digit_char(d as nat)],
{
    proof {
        reveal_strlit("0");
        reveal_strlit("1");
        reveal_strlit("2");
        reveal_strlit("3");
        reveal_strlit("4");
        reveal_strlit("5");
        reveal_strlit("6");
        reveal_strlit("7");
        reveal_strlit("8");
        reveal_strlit("9");
    }
    if d == 0 {
        "0"
    } else if d == 1 {
        "1"
    } else if d == 2 {
        "2"
    } else if d == 3 {
        "3"
    } else if d == 4 {
        "4"
    } else if d == 5 {
        "5"
    } else if d == 6 {
        "6"
    } else if d == 7 {
        "7"
    } else if d == 8 {
        "8"
    } else {
        "9"
    }
}

/// Whether a result is the error with the given message.
pub open spec fn err_msg(r: Result<String, String>, m: Seq<char>) -> bool {
    match r {
        Err(e) => e@ == m,
        Ok(_) => false,
    }
}

/// Whether a result is success with the given message.
pub open spec fn ok_msg(r: Result<String, String>, m: Seq<char>) -> bool {
    match r {
        Ok(s) => s@ == m,
        Err(_) => false,
    }
}

/// Appends the decimal digits of `n`.
pub fn push_digits(s: &mut String, n: u64)
    ensures
        final(s)@ == old(s)@ + digits(n as nat),
    decreases n,
{
    if n >= 10 {
        push_digits(s, n / 10);
    }
    let d = digit_text(n % 10);
    s.append(d);
    proof {
        if n >= 10 {
            assert(old(s)@ + digits(n as nat) =~= old(s)@ + digits((n / 10) as nat) + seq![
                digit_char((n % 10) as nat),
            ]);
        }
    }
}

/// Appends the decimal rendering of a signed integer.
pub fn push_int(s: &mut String, n: i64)
    ensures
        final(s)@ == old(s)@ + decimal(n as int),
{
    if n < 0 {
        proof {
            reveal_strlit("-");
        }
        s.append("-");
        let magnitude: u64 = if n == i64::MIN {
            9223372036854775808u64
        } else {
            (-n) as u64
        };
        push_digits(s, magnitude);
        proof {
            assert(old(s)@ + decimal(n as int) =~= old(s)@ + seq!['-'] + digits(
                magnitude as nat,
            ));
        }
    } else {
        push_digits(s, n as u64);
    }
}

/// Appends a number padded to at least two digits.
pub fn push_padded2(s: &mut String, n: u32)
    ensures
        final(s)@ == old(s)@ + decimal2(n as nat),
{
    if n < 10 {
        proof {
            reveal_strlit("0");
        }
        s.append("0");
        push_digits(s, n as u64);
        proof {
            assert(old(s)@ + decimal2(n as nat) =~= old(s)@ + seq!['0'] + digits(n as nat));
        }
    } else {
        push_digits(s, n as u64);
    }
}

/// Whether two borrowed strings hold the same text.
pub fn same_text(a: &str, b: &str) -> (r: bool)
    ensures
        r == (a@ == b@),
{
    let x = a.to_owned();
    let y = b.to_owned();
    x == y
}

/// Whether a list of identifiers holds the given one.
pub fn has_id(v: &Vec<String>, id: &str) -> (r: bool)
    ensures
        r == views(v@).contains(id@),
{
    let key = id.to_owned();
    let mut i: usize = 0;
    while i < v.len()
        invariant
            i <= v.len(),
            key@ == id@,
            forall|j: int| 0 <= j < i ==> v@[j]@ != id@,
        decreases v.len() - i,
    {
        if v[i] == key {
            proof {
                assert(views(v@)[i as int] == id@);
            }
            return true;
        }
        i = i + 1;
    }
    proof {
        if views(v@).contains(id@) {
            let k = choose|k: int| 0 <= k < views(v@).len() && views(v@)[k] == id@;
            assert(v@[k]@ == id@);
        }
    }
    false
}

/// Removes every occurrence of `id`, keeping the others in order.
pub fn remove_id(v: &mut Vec<String>, id: &str)
    ensures
        views(final(v)@) == views(old(v)@).filter(|s: Seq<char>| s != id@),
        final(v).len() <= old(v).len(),
{
    let key = id.to_owned();
    let mut out: Vec<String> = Vec::new();
    let mut i: usize = 0;
    while i < v.len()
        invariant
            i <= v.len(),
            v@ == old(v)@,
            key@ == id@,
            views(out@) == views(old(v)@).take(i as int).filter(|s: Seq<char>| s != id@),
            out.len() <= i,
        decreases v.len() - i,
    {
        let ghost before = out@;
        proof {
            reveal_with_fuel(Seq::<_>::filter, 1);
            assert(views(old(v)@).take(i + 1).drop_last() =~= views(old(v)@).take(i as int));
            assert(views(old(v)@).take(i + 1).last() == v@[i as int]@);
        }
        if v[i] != key {
            out.push(v[i].clone());
            proof {
                assert(views(out@) =~= views(before).push(v@[i as int]@));
            }
        }
        i = i + 1;
    }
    proof {
        assert(views(old(v)@).take(v.len() as int) =~= views(old(v)@));
    }
    *v = out;
}

/// Appends `id` unless it is already present.
pub fn insert_id(v: &mut Vec<String>, id: &str)
    ensures
        views(final(v)@) == if views(old(v)@).contains(id@) {
            views(old(v)@)
        } else {
            views(old(v)@).push(id@)
        },
{
    if !has_id(v, id) {
        v.push(id.to_owned());
        proof {
            assert(views(v@) =~= views(old(v)@).push(id@));
        }
    }
}

/// A copy of a list of owned strings.
pub fn copy_ids(v: &Vec<String>) -> (r: Vec<String>)
    ensures
        r@ == v@,
{
    let mut out: Vec<String> = Vec::new();
    let mut i: usize = 0;
    while i < v.len()
        invariant
            i <= v.len(),
            out@ == v@.take(i as int),
        decreases v.len() - i,
    {
        out.push(v[i].clone());
        proof {
            assert(out@ =~= v@.take(i + 1));
        }
        i = i + 1;
    }
    proof {
        assert(v@.take(v.len() as int) =~= v@);
    }
    out
}

/// Parts joined with a separator between neighbours.
pub open spec fn joined(parts: Seq<Seq<char>>, sep: Seq<char>) -> Seq<char>
    decreases parts.len(),
{
    if parts.len() == 0 {
        Seq::empty()
    } else if parts.len() == 1 {
        parts[0]
    } else {
        joined(parts.drop_last(), sep) + sep + parts.last()
    }
}

/// Joins owned strings with a separator.
pub fn join(parts: &Vec<String>, sep: &str) -> (r: String)
    ensures
        r@ == joined(views(parts@), sep@),
{
    let mut out = String::new();
    let mut i: usize = 0;
    while i < parts.len()
        invariant
            i <= parts.len(),
            out@ == joined(views(parts@.take(i as int)), sep@),
        decreases parts.len() - i,
    {
        proof {
            assert(views(parts@.take(i + 1)).drop_last() =~= views(parts@.take(i as int)));
            assert(views(parts@.take(i + 1)).last() == parts@[i as int]@);
        }
        if i > 0 {
            out.append(sep);
        }
        out.append(parts[i].as_str());
        proof {
            if i == 0 {
                assert(views(parts@.take(1)) =~= seq![parts@[0]@]);
                assert(out@ =~= joined(views(parts@.take(1)), sep@));
            }
        }
        i = i + 1;
    }
    proof {
        assert(parts@.take(parts.len() as int) =~= parts@);
    }
    out
}

} // verus!
