use vstd::prelude::*;
use vstd::string::StringExecFns;
use vstd::string::StrSliceExecFns;

verus! {

/// The ten decimal digits, in order of value.
pub open spec fn digit_chars() -> Seq<char> {
    seq!['0', '1', '2', '3', '4', '5', '6', '7', '8', '9']
}

/// The decimal digits of `n`, most significant first, without leading zeros.
pub open spec fn decimal_digits(n: nat) -> Seq<char>
    decreases n,
{
    if n < 10 {
        seq![digit_chars()[n as int]]
    } else {
        decimal_digits(n / 10).push(digit_chars()[(n % 10) as int])
    }
}

/// `v` written in decimal, with a minus sign when it is negative.
pub open spec fn decimal(v: int) -> Seq<char> {
    if v < 0 {
        seq!['-'] + decimal_digits((-v) as nat)
    } else {
        decimal_digits(v as nat)
    }
}

/// `b` written as a word.
pub open spec fn bool_text(b: bool) -> Seq<char> {
    if b {
        "true"@
    } else {
        "false"@
    }
}

/// The line reported for one hit test: whether the point was inside the
/// text, the character index it resolves to, and the trailing value.
pub open spec fn report_spec(inside: bool, index: int, trailing: int) -> Seq<char> {
    bool_text(inside) + ", "@ + decimal(index) + "i, "@ + decimal(trailing) + "t"@
}

/// The line that tells how to start the program named `program`.
pub open spec fn usage_spec(program: Seq<char>) -> Seq<char> {
    "Usage: "@ + program + " <text-file>"@
}

fn digit_text(d: u64) -> (r: &'static str)
    requires
        d < 10,
    ensures
        r@ == seq![digit_chars()[d as int]],
{
    let all = "0123456789";
    proof {
        reveal_strlit("0123456789");
    }
    assert(all@ == digit_chars());
    assert(all.is_ascii());
    let r = all.substring_ascii(d as usize, d as usize + 1);
    assert(r@ =~= seq![digit_chars()[d as int]]);
    r
}

fn append_digits(n: u64, out: &mut String)
    ensures
        final(out)@ == old(out)@ + decimal_digits(n as nat),
    decreases n,
{
    if n >= 10 {
        append_digits(n / 10, out);
    }
    out.append(digit_text(n % 10));
    if n >= 10 {
        assert(final(out)@ =~= old(out)@ + decimal_digits(n as nat));
    } else {
        assert(final(out)@ =~= old(out)@ + decimal_digits(n as nat));
    }
}

fn append_decimal(v: i32, out: &mut String)
    ensures
        final(out)@ == old(out)@ + decimal(v as int),
{
    if v < 0 {
        let minus = "-";
        proof {
            reveal_strlit("-");
        }
        out.append(minus);
        let m: i64 = -(v as i64);
        append_digits(m as u64, out);
        assert(final(out)@ =~= old(out)@ + decimal(v as int));
    } else {
        append_digits(v as u64, out);
    }
}

/// The line reported for a hit test, as in `true, 0i, 0t`.
pub fn report_line(inside: bool, index: i32, trailing: i32) -> (r: String)
    ensures
        r@ == report_spec(inside, index as int, trailing as int),
{
    let mut out = if inside {
        String::from_str("true")
    } else {
        String::from_str("false")
    };
    out.append(", ");
    append_decimal(index, &mut out);
    out.append("i, ");
    append_decimal(trailing, &mut out);
    out.append("t");
    assert(out@ =~= report_spec(inside, index as int, trailing as int));
    out
}

/// The usage line for the program named `program`.
pub fn usage_line(program: &str) -> (r: String)
    ensures
        r@ == usage_spec(program@),
{
    let mut out = String::from_str("Usage: ");
    out.append(program);
    out.append(" <text-file>");
    out
}

/// The path of the text file to show, from the program's arguments (its own
/// name first): there must be exactly one after the name.
pub fn text_file_arg(args: &Vec<String>) -> (r: Option<String>)
    ensures
        r is Some <==> args.len() == 2,
        args.len() == 2 ==> r == Some(args[1]),
{
    if args.len() == 2 {
        Some(args[1].clone())
    } else {
        None
    }
}

} // verus!
