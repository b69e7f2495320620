//! The header block of a message as it goes on the wire.

use crate::headers::{Field, Headers};
use vstd::prelude::*;

verus! {

/// One header on the wire: `Name: Value`, ended by CR LF.
pub open spec fn header_line(field: Field) -> Seq<char> {
    field.0 + ": "@ + field.1 + "\r\n"@
}

/// The headers on the wire, one line each, in the map's order.
pub open spec fn header_block(fields: Seq<Field>) -> Seq<char>
    decreases fields.len(),
{
    if fields.len() == 0 {
        Seq::empty()
    } else {
        header_block(fields.drop_last()) + header_line(fields.last())
    }
}

/// Appends the header block of `headers` to `output`.
pub fn write_headers(output: &mut String, headers: &Headers)
    ensures
        final(output)@ == old(output)@ + header_block(headers@),
{
    let count = headers.len();
    let mut i: usize = 0;
    assert(headers@.take(0) =~= Seq::<Field>::empty());
    assert(output@ =~= old(output)@ + header_block(headers@.take(0)));
    while i < count
        invariant
            i <= count,
            count == headers@.len(),
            output@ == old(output)@ + header_block(headers@.take(i as int)),
        decreases count - i,
    {
        let (name, value) = headers.entry(i);
        let ghost before = output@;
        output.append(name.as_str());
        output.append(": ");
        output.append(value.as_str());
        output.append("\r\n");
        proof {
            let upto = headers@.take(i + 1);
            assert(upto.drop_last() =~= headers@.take(i as int));
            assert(upto.last() == headers@[i as int]);
            assert(output@ =~= before + header_line(headers@[i as int]));
            assert(output@ =~= old(output)@ + header_block(upto));
        }
        i = i + 1;
    }
    assert(headers@.take(count as int) =~= headers@);
}

} // verus!
