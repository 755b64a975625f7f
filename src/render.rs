use vstd::prelude::*;
use vstd::string::*;

verus! {

/// The text of one decimal digit.
pub open spec fn digit_text(d: nat) -> Seq<char> {
    if d == 0 {
        "0"@
    } else if d == 1 {
        "1"@
    } else if d == 2 {
        "2"@
    } else if d == 3 {
        "3"@
    } else if d == 4 {
        "4"@
    } else if d == 5 {
        "5"@
    } else if d == 6 {
        "6"@
    } else if d == 7 {
        "7"@
    } else if d == 8 {
        "8"@
    } else {
        "9"@
    }
}

/// `n` written in decimal, without leading zeros.
pub open spec fn decimal(n: nat) -> Seq<char>
    decreases n,
{
    if n < 10 {
        digit_text(n)
    } else {
        decimal(n / 10) + digit_text(n % 10)
    }
}

/// `ty::v1, ty::v2, ...`: each variant name as a path under the type.
pub open spec fn path_list(ty: Seq<char>, vs: Seq<Seq<char>>) -> Seq<char>
    decreases vs.len(),
{
    if vs.len() == 0 {
        Seq::empty()
    } else if vs.len() == 1 {
        ty + "::"@ + vs[0]
    } else {
        path_list(ty, vs.drop_last()) + ", "@ + ty + "::"@ + vs.last()
    }
}

fn digit_str(d: usize) -> (r: &'static str)
    requires
        d < 10,
    ensures
        r@ == digit_text(d as nat),
{
    match d {
        0 => "0",
        1 => "1",
        2 => "2",
        3 => "3",
        4 => "4",
        5 => "5",
        6 => "6",
        7 => "7",
        8 => "8",
        _ => "9",
    }
}

/// Appends `n` in decimal to `out`.
pub fn push_decimal(out: &mut String, n: usize)
    ensures
        final(out)@ == old(out)@ + decimal(n as nat),
    decreases n,
{
    if n < 10 {
        out.append(digit_str(n));
    } else {
        push_decimal(out, n / 10);
        out.append(digit_str(n % 10));
        assert(final(out)@ =~= old(out)@ + decimal(n as nat));
    }
}

/// Appends `ty::v` for each name `v` of `names`, separated by `, `.
pub fn push_path_list(out: &mut String, ty: &String, names: &Vec<String>)
    ensures
        final(out)@ == old(out)@ + path_list(ty@, names@.map_values(|s: String| s@)),
{
    let ghost start = out@;
    let ghost vs = names@.map_values(|s: String| s@);
    let mut i: usize = 0;
    while i < names.len()
        invariant
            i <= names@.len(),
            vs == names@.map_values(|s: String| s@),
            out@ == start + path_list(ty@, vs.take(i as int)),
        decreases names@.len() - i,
    {
        let ghost before = out@;
        assert(vs.take(i as int + 1).drop_last() =~= vs.take(i as int));
        if i > 0 {
            out.append(", ");
        }
        out.append(ty.as_str());
        out.append("::");
        out.append(names[i].as_str());
        i = i + 1;
        if i == 1 {
            assert(vs.take(1) =~= seq![vs[0]]);
            assert(out@ =~= start + path_list(ty@, vs.take(i as int)));
        } else {
            assert(out@ =~= start + path_list(ty@, vs.take(i as int)));
        }
    }
    assert(vs.take(i as int) =~= vs);
}

} // verus!
