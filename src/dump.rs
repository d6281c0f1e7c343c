use vstd::prelude::*;

use crate::record::{field_list, opt_bytes, BoardingPass, PassView};

verus! {

/// `"bcbp"`, the label of the line of document-level fields.
pub open spec fn pass_label() -> Seq<u8> {
    seq![98u8, 99u8, 98u8, 112u8]
}

/// `"security"`, the label of the line of security fields.
pub open spec fn security_label() -> Seq<u8> {
    seq![115u8, 101u8, 99u8, 117u8, 114u8, 105u8, 116u8, 121u8]
}

/// `"leg"`, the label of the line of one leg's fields.
pub open spec fn leg_label() -> Seq<u8> {
    seq![108u8, 101u8, 103u8]
}

/// One field as text: a present value between double quotes, verbatim; an absent one as `-`.
pub open spec fn field_text(f: Option<Seq<u8>>) -> Seq<u8> {
    match f {
        Some(b) => seq![34u8] + b + seq![34u8],
        None => seq![45u8],
    }
}

/// A list of fields as text, each after one space.
pub open spec fn fields_text(fs: Seq<Option<Seq<u8>>>) -> Seq<u8>
    decreases fs.len(),
{
    if fs.len() == 0 {
        seq![]
    } else {
        fields_text(fs.drop_last()) + seq![32u8] + field_text(fs.last())
    }
}

/// One line of the dump: a label, the fields, a newline.
pub open spec fn line_text(label: Seq<u8>, fs: Seq<Option<Seq<u8>>>) -> Seq<u8> {
    label + fields_text(fs) + seq![10u8]
}

/// One `leg` line per leg, in order.
pub open spec fn legs_text(legs: Seq<Seq<Option<Seq<u8>>>>) -> Seq<u8>
    decreases legs.len(),
{
    if legs.len() == 0 {
        seq![]
    } else {
        legs_text(legs.drop_last()) + line_text(leg_label(), legs.last())
    }
}

/// The human-readable dump of a boarding pass: a `bcbp` line with the document-level fields,
/// a `security` line with the security fields, then a `leg` line for each leg, every line
/// listing its fields in identifier order.
pub open spec fn pass_dump(v: PassView) -> Seq<u8> {
    line_text(pass_label(), v.root) + line_text(security_label(), v.security) + legs_text(v.legs)
}

/// Appends bytes to a buffer.
fn push_bytes(out: &mut Vec<u8>, bytes: &Vec<u8>)
    ensures
        final(out)@ == old(out)@ + bytes@,
{
    let mut i: usize = 0;
    while i < bytes.len()
        invariant
            0 <= i <= bytes@.len(),
            out@ == old(out)@ + bytes@.subrange(0, i as int),
        decreases bytes@.len() - i,
    {
        out.push(bytes[i]);
        assert(bytes@.subrange(0, i + 1) == bytes@.subrange(0, i as int).push(bytes@[i as int]));
        i = i + 1;
    }
    assert(bytes@.subrange(0, bytes@.len() as int) == bytes@);
}

/// Appends one line of the dump.
fn push_line(out: &mut Vec<u8>, label: Vec<u8>, fields: &Vec<Option<Vec<u8>>>)
    ensures
        final(out)@ == old(out)@ + line_text(label@, field_list(fields@)),
{
    push_bytes(out, &label);
    let ghost start = out@;
    let mut i: usize = 0;
    while i < fields.len()
        invariant
            0 <= i <= fields@.len(),
            out@ == start + fields_text(field_list(fields@.subrange(0, i as int))),
        decreases fields@.len() - i,
    {
        let ghost before = out@;
        out.push(32u8);
        match &fields[i] {
            Some(b) => {
                out.push(34u8);
                push_bytes(out, b);
                out.push(34u8);
            },
            None => {
                out.push(45u8);
            },
        }
        let ghost prefix = field_list(fields@.subrange(0, i + 1));
        assert(prefix.drop_last() =~= field_list(fields@.subrange(0, i as int)));
        assert(prefix.last() == opt_bytes(fields@[i as int]));
        assert(out@ =~= before + seq![32u8] + field_text(opt_bytes(fields@[i as int])));
        i = i + 1;
    }
    assert(fields@.subrange(0, fields@.len() as int) == fields@);
    out.push(10u8);
    assert(out@ =~= old(out)@ + line_text(label@, field_list(fields@)));
}

/// The human-readable dump of a boarding pass.
pub fn dump(pass: &BoardingPass) -> (r: Vec<u8>)
    ensures
        r@ == pass_dump(pass@),
{
    let mut out: Vec<u8> = Vec::new();
    let pass_line = vec![98u8, 99u8, 98u8, 112u8];
    assert(pass_line@ =~= pass_label());
    push_line(&mut out, pass_line, &pass.fields());
    let security_line = vec![115u8, 101u8, 99u8, 117u8, 114u8, 105u8, 116u8, 121u8];
    assert(security_line@ =~= security_label());
    push_line(&mut out, security_line, &pass.security.fields());
    let ghost head = out@;
    assert(pass.legs@.subrange(0, 0) =~= Seq::<crate::record::FlightLeg>::empty());
    assert(crate::record::legs_view(pass.legs@.subrange(0, 0)) =~= Seq::empty());
    let mut i: usize = 0;
    while i < pass.legs.len()
        invariant
            0 <= i <= pass.legs@.len(),
            out@ == head + legs_text(crate::record::legs_view(pass.legs@.subrange(0, i as int))),
        decreases pass.legs@.len() - i,
    {
        let leg_line = vec![108u8, 101u8, 103u8];
        assert(leg_line@ =~= leg_label());
        push_line(&mut out, leg_line, &pass.legs[i].fields());
        let ghost views = crate::record::legs_view(pass.legs@.subrange(0, i + 1));
        assert(views.drop_last() =~= crate::record::legs_view(pass.legs@.subrange(0, i as int)));
        assert(views.last() == pass.legs@[i as int]@);
        i = i + 1;
    }
    assert(pass.legs@.subrange(0, pass.legs@.len() as int) == pass.legs@);
    out
}

} // verus!
