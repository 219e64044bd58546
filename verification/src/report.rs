use vstd::prelude::*;

verus! {

/// The text of the aggregated error report for a list of diagnostic
/// messages: one line per message, each prefixed with a fixed label and
/// terminated by a newline, in the order the messages were given.
pub open spec fn report_text(msgs: Seq<Seq<char>>) -> Seq<char>
    decreases msgs.len(),
{
    if msgs.len() == 0 {
        Seq::<char>::empty()
    } else {
        report_text(msgs.drop_last()) + "Error: "@ + msgs.last() + "\n"@
    }
}

/// Concatenates diagnostic messages into a single error string, one
/// labelled line per message, in order.
pub fn format_errors(msgs: &Vec<String>) -> (r: String)
    ensures
        r@ == report_text(msgs@.map_values(|m: String| m@)),
{
    let mut out = String::new();
    let mut i: usize = 0;
    while i < msgs.len()
        invariant
            i <= msgs@.len(),
            out@ == report_text(msgs@.map_values(|m: String| m@).take(i as int)),
        decreases msgs@.len() - i,
    {
        out.append("Error: ");
        out.append(msgs[i].as_str());
        out.append("\n");
        proof {
            let views = msgs@.map_values(|m: String| m@);
            assert(views.take(i + 1 as int).drop_last() =~= views.take(i as int));
            assert(views.take(i + 1 as int).last() == views[i as int]);
        }
        i = i + 1;
    }
    proof {
        assert(msgs@.map_values(|m: String| m@).take(msgs@.len() as int) =~= msgs@.map_values(
            |m: String| m@,
        ));
    }
    out
}

/// The fixed message returned when the PDF exporter fails; the underlying
/// cause is deliberately not surfaced.
pub fn export_failure_message() -> (r: String)
    ensures
        r@ == "Failed to export PDF internally"@,
{
    "Failed to export PDF internally".to_owned()
}

} // verus!
