use vstd::prelude::*;
use vstd::string::StringExecFns;

verus! {

/// One line of a report: the time in square brackets, which of the two tokens
/// is priced in which, and the price as it is to be shown.
pub open spec fn line_spec(time: Seq<char>, priced: char, unit: char, price: Seq<char>) -> Seq<
    char,
> {
    "["@ + time + "] Price of token "@ + seq![priced] + " in terms of "@ + seq![unit] + ": "@
        + price
}

/// A report: an empty line, the price of A in B, and the price of B in A.
pub open spec fn report_spec(time: Seq<char>, a_in_b: Seq<char>, b_in_a: Seq<char>) -> Seq<char> {
    "\n"@ + line_spec(time, 'A', 'B', a_in_b) + "\n"@ + line_spec(time, 'B', 'A', b_in_a)
}

/// The text shown in place of a price that is undefined.
pub open spec fn undefined_text() -> Seq<char> {
    "undefined"@
}

/// Lays out the report of a pair of prices taken at `time`. The prices come as
/// they are to be shown.
pub fn price_report(time: &str, a_in_b: &str, b_in_a: &str) -> (r: String)
    ensures
        r@ == report_spec(time@, a_in_b@, b_in_a@),
{
    proof {
        reveal_strlit("A");
        reveal_strlit("B");
    }
    let mut out = String::from_str("\n");
    out.append("[");
    out.append(time);
    out.append("] Price of token ");
    out.append("A");
    out.append(" in terms of ");
    out.append("B");
    out.append(": ");
    out.append(a_in_b);
    out.append("\n");
    out.append("[");
    out.append(time);
    out.append("] Price of token ");
    out.append("B");
    out.append(" in terms of ");
    out.append("A");
    out.append(": ");
    out.append(b_in_a);
    assert(out@ =~= report_spec(time@, a_in_b@, b_in_a@)) by {
        assert("A"@ =~= seq!['A']);
        assert("B"@ =~= seq!['B']);
    }
    out
}

/// Lays out the report of a degenerate pool at `time`: both prices are shown
/// as undefined.
pub fn undefined_report(time: &str) -> (r: String)
    ensures
        r@ == report_spec(time@, undefined_text(), undefined_text()),
{
    price_report(time, "undefined", "undefined")
}

} // verus!
