//! Individually numbered boxes of a batch, for limited series.

use vstd::prelude::*;
use crate::html::replace_str;
use crate::ids::{first_segment, first_segment_of, hex_fixed, is_lower_hex, lemma_hex_fixed_shape, uuid_hyphenated, uuid_to_text};
use crate::text::{int_text, int_text_padded, int_to_text, int_to_text_padded, replace_all, str_eq};

verus! {

/// A numbered box of a batch. Identifiers are UUID values; instants are Unix seconds.
#[derive(Debug, Clone)]
pub struct IndividualBox {
    pub id: u128,
    pub batch_id: u128,
    /// Such as `0001/0240` for box 1 of 240.
    pub serial_number: String,
    pub qr_code_slug: Option<String>,
    pub numero_sequence: i32,
    pub total_sequence: i32,
    pub date_numerotage: i64,
    pub operateur_id: u128,
    /// `active`, `vendue`, `perdue` or `rappel`.
    pub statut: String,
    pub commentaire: Option<String>,
    pub created_at: i64,
    pub updated_at: i64,
}

/// A change of the status of a box.
#[derive(Debug, Clone)]
pub struct UpdateBoxStatusRequest {
    pub statut: String,
    pub commentaire: Option<String>,
}

/// The serial number that `format` gives box `numero` of `total`: the placeholders
/// `{numero:04}` and `{total:04}` become the zero-padded numbers, then `{numero}` and
/// `{total}` the plain ones.
pub open spec fn serial_number(numero: i32, total: i32, format: Seq<char>) -> Seq<char> {
    replace_all(
        replace_all(
            replace_all(
                replace_all(format, "{numero:04}"@, int_text_padded(numero as int, 4)),
                "{total:04}"@,
                int_text_padded(total as int, 4),
            ),
            "{numero}"@,
            int_text(numero as int),
        ),
        "{total}"@,
        int_text(total as int),
    )
}

/// The QR short code of box `numero` of the batch `batch_id`: the first group of the
/// batch's UUID and the zero-padded number.
pub open spec fn box_qr_slug(batch_id: u128, numero: i32) -> Seq<char> {
    first_segment(uuid_hyphenated(batch_id), '-') + seq!['-'] + int_text_padded(numero as int, 4)
}

impl IndividualBox {
    /// The serial number of box `numero` of `total` written with `format`.
    pub fn format_serial_number(numero: i32, total: i32, format: &str) -> (r: String)
        ensures
            r@ == serial_number(numero, total, format@),
    {
        proof {
            reveal_strlit("{numero:04}");
            reveal_strlit("{total:04}");
            reveal_strlit("{numero}");
            reveal_strlit("{total}");
        }
        let a = replace_str(format, "{numero:04}", int_to_text_padded(numero, 4).as_str());
        let b = replace_str(a.as_str(), "{total:04}", int_to_text_padded(total, 4).as_str());
        let c = replace_str(b.as_str(), "{numero}", int_to_text(numero).as_str());
        replace_str(c.as_str(), "{total}", int_to_text(total).as_str())
    }

    /// Whether the box is in recall.
    pub fn is_recalled(&self) -> (r: bool)
        ensures
            r == (self.statut@ == "rappel"@),
    {
        str_eq(self.statut.as_str(), "rappel")
    }

    /// The QR short code for this box.
    pub fn generate_qr_slug(&self) -> (r: String)
        ensures
            r@ == box_qr_slug(self.batch_id, self.numero_sequence),
    {
        let batch_text = uuid_to_text(self.batch_id);
        let mut slug = first_segment_of(batch_text.as_str(), '-');
        slug.append("-");
        slug.append(int_to_text_padded(self.numero_sequence, 4).as_str());
        proof {
            reveal_strlit("-");
        }
        slug
    }
}

proof fn lemma_first_segment_of_join(s: Seq<char>, t: Seq<char>, sep: char)
    requires
        !s.contains(sep),
        t.len() > 0,
        t[0] == sep,
    ensures
        first_segment(s + t, sep) == s,
    decreases s.len(),
{
    if s.len() == 0 {
        assert(s + t =~= t);
    } else {
        assert((s + t).drop_first() =~= s.drop_first() + t);
        assert(!s.drop_first().contains(sep)) by {
            if s.drop_first().contains(sep) {
                let k = choose|k: int| 0 <= k < s.drop_first().len() && s.drop_first()[k] == sep;
                assert(s[k + 1] == sep);
            }
        }
        lemma_first_segment_of_join(s.drop_first(), t, sep);
        assert(seq![s[0]] + s.drop_first() =~= s);
    }
}

/// The QR code of a box starts with the first eight hexadecimal digits of its batch's
/// identifier, followed by a hyphen and the box's number.
pub proof fn law_box_slug_names_its_batch(batch_id: u128, numero: i32)
    ensures
        box_qr_slug(batch_id, numero).subrange(0, 8) == hex_fixed(batch_id as nat, 32).subrange(0, 8),
        box_qr_slug(batch_id, numero)[8] == '-',
        box_qr_slug(batch_id, numero).subrange(9, box_qr_slug(batch_id, numero).len() as int)
            == int_text_padded(numero as int, 4),
{
    let h = hex_fixed(batch_id as nat, 32);
    lemma_hex_fixed_shape(batch_id as nat, 32);
    let head = h.subrange(0, 8);
    let full = uuid_hyphenated(batch_id);
    let rest = full.subrange(8, full.len() as int);
    assert(full =~= head + rest);
    assert(rest[0] == '-');
    assert(!head.contains('-')) by {
        if head.contains('-') {
            let k = choose|k: int| 0 <= k < head.len() && head[k] == '-';
            assert(is_lower_hex(h[k]));
        }
    }
    lemma_first_segment_of_join(head, rest, '-');
    let slug = box_qr_slug(batch_id, numero);
    assert(slug.subrange(0, 8) =~= head);
    assert(slug.subrange(9, slug.len() as int) =~= int_text_padded(numero as int, 4));
}

} // verus!
