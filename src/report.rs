use vstd::prelude::*;

use crate::reading::{Conversion, Reading};

verus! {

/// One line `<indent><scale>: <value>` of a conversion's display.
pub open spec fn reading_line(indent: Seq<char>, r: Reading<String>) -> Seq<char> {
    indent + r.scale.spec_name() + ": "@ + r.value@
}

/// The three readings of a conversion, one per line, in the conversion's
/// order.
pub open spec fn lines_text(indent: Seq<char>, c: Conversion<String>) -> Seq<char> {
    reading_line(indent, c.original) + "\n"@ + reading_line(indent, c.first) + "\n"@
        + reading_line(indent, c.second)
}

fn append_reading_line(out: &mut String, indent: &str, r: &Reading<String>)
    ensures
        final(out)@ == old(out)@ + reading_line(indent@, *r),
{
    out.append(indent);
    let name = r.scale.name();
    out.append(name.as_str());
    out.append(": ");
    out.append(r.value.as_str());
}

/// Appends the lines of `c` to `out`.
fn append_lines(out: &mut String, indent: &str, c: &Conversion<String>)
    ensures
        final(out)@ == old(out)@ + lines_text(indent@, *c),
{
    append_reading_line(out, indent, &c.original);
    out.append("\n");
    append_reading_line(out, indent, &c.first);
    out.append("\n");
    append_reading_line(out, indent, &c.second);
}

/// The command-line report of a conversion whose values have been rendered as
/// text: a heading, then one indented line per reading.
pub fn convert_report(c: &Conversion<String>) -> (r: String)
    ensures
        r@ == "-= Convert input temperature =-\n"@ + lines_text("    "@, *c),
{
    let mut out = String::from_str("-= Convert input temperature =-\n");
    append_lines(&mut out, "    ", c);
    out
}

/// The command-line report of the temperature found at a place, named by the
/// place and its region.
pub fn zip_report(name: &str, region: &str, c: &Conversion<String>) -> (r: String)
    ensures
        r@ == "-= Retrieve temperature in "@ + name@ + ", "@ + region@ + " =-\n"@ + lines_text(
            "    "@,
            *c,
        ),
{
    let mut out = String::from_str("-= Retrieve temperature in ");
    out.append(name);
    out.append(", ");
    out.append(region);
    out.append(" =-\n");
    append_lines(&mut out, "    ", c);
    out
}

/// The window's display of a conversion: one line per reading.
pub fn readout(c: &Conversion<String>) -> (r: String)
    ensures
        r@ == lines_text(""@, *c),
{
    let mut out = String::new();
    append_lines(&mut out, "", c);
    out
}

/// The window's display of the temperature found at a place.
pub fn lookup_readout(name: &str, region: &str, c: &Conversion<String>) -> (r: String)
    ensures
        r@ == "Temperature in "@ + name@ + ", "@ + region@ + "\n"@ + lines_text(""@, *c),
{
    let mut out = String::from_str("Temperature in ");
    out.append(name);
    out.append(", ");
    out.append(region);
    out.append("\n");
    append_lines(&mut out, "", c);
    out
}

} // verus!
