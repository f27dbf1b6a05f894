//! Joining the names of pins into one label

use vstd::prelude::*;
use vstd::string::StringSliceAdditionalSpecFns;

verus! {

/// The byte that stands between two names in a joined label: `|`.
pub const NAME_SEPARATOR: u8 = 0x7c;

/// The bytes of each name.
pub open spec fn names_bytes(names: Seq<&str>) -> Seq<Seq<u8>> {
    names.map_values(|name: &str| name.spec_bytes())
}

/// The names one after the other, with a `|` between each two.
pub open spec fn join_names(names: Seq<Seq<u8>>) -> Seq<u8>
    decreases names.len(),
{
    if names.len() == 0 {
        seq![]
    } else if names.len() == 1 {
        names[0]
    } else {
        join_names(names.drop_last()) + seq![NAME_SEPARATOR] + names.last()
    }
}

/// `text` cut at its first NUL: what a C string made of `text` and a
/// terminating NUL reads as.
pub open spec fn is_c_text_of(r: Seq<u8>, text: Seq<u8>) -> bool {
    &&& r.len() <= text.len()
    &&& r == text.take(r.len() as int)
    &&& !r.contains(0u8)
    &&& r.len() < text.len() ==> text[r.len() as int] == 0u8
}

/// Concatenate a list of names for the `PinsWithName` structure, with a `|`
/// between each two, and return the text of the C string that this makes
/// (everything before the first NUL, without the NUL).
///
/// `pins_names_concat(&["A", "B", "C"])` is `b"A|B|C"`.
pub fn pins_names_concat(names: &[&str]) -> (r: Vec<u8>)
    ensures
        is_c_text_of(r@, join_names(names_bytes(names@))),
{
    let ghost all = names_bytes(names@);
    let mut out: Vec<u8> = Vec::new();
    let mut i: usize = 0;
    proof {
        assert(all.take(0) =~= Seq::<Seq<u8>>::empty());
    }
    while i < names.len()
        invariant
            i <= names.len(),
            all == names_bytes(names@),
            out@ == join_names(all.take(i as int)),
        decreases names.len() - i,
    {
        let ghost before = out@;
        if i > 0 {
            out.push(NAME_SEPARATOR);
        }
        let ghost with_sep = out@;
        let bytes: &[u8] = names[i].as_bytes();
        let mut j: usize = 0;
        while j < bytes.len()
            invariant
                j <= bytes.len(),
                out@ == with_sep + bytes@.take(j as int),
            decreases bytes.len() - j,
        {
            out.push(bytes[j]);
            j = j + 1;
            proof {
                assert(bytes@.take(j as int) =~= bytes@.take(j - 1).push(bytes@[j - 1]));
            }
        }
        proof {
            assert(bytes@.take(j as int) =~= bytes@);
            let t = all.take(i + 1);
            assert(t.drop_last() =~= all.take(i as int));
            assert(t.last() == bytes@);
            if i == 0 {
                assert(all.take(0) =~= Seq::<Seq<u8>>::empty());
                assert(out@ =~= t[0]);
            } else {
                assert(out@ =~= before + seq![NAME_SEPARATOR] + bytes@);
            }
        }
        i = i + 1;
    }
    proof {
        assert(all.take(i as int) =~= all);
    }
    let ghost text = out@;
    let mut k: usize = 0;
    while k < out.len() && out[k] != 0
        invariant
            k <= out.len(),
            out@ == text,
            forall|m: int| 0 <= m < k ==> out@[m] != 0u8,
        decreases out.len() - k,
    {
        k = k + 1;
    }
    out.truncate(k);
    proof {
        assert(out@ =~= text.take(k as int));
        assert forall|m: int| 0 <= m < out@.len() implies out@[m] != 0u8 by {}
    }
    out
}

} // verus!
