//! Access-unit detection in an H.264 Annex B byte stream.
//!
//! NAL units are preceded by a start code, `00 00 00 01` or `00 00 01`. A new
//! access unit (a frame) begins at a start code whose NAL unit is a slice
//! (types 1 and 5) or a sequence parameter set (type 7); type 5 is an IDR
//! slice, which makes the frame a keyframe.

use vstd::prelude::*;

verus! {

/// The NAL unit type carried in a NAL header byte (its low five bits).
pub open spec fn nal_type(b: u8) -> int {
    (b % 32) as int
}

/// A NAL unit type that opens a new access unit: a slice (1), an IDR slice
/// (5) or a sequence parameter set (7).
pub open spec fn opens_access_unit(t: int) -> bool {
    t == 1 || t == 5 || t == 7
}

/// A four-byte start code `00 00 00 01` stands at `i`, with a header byte
/// after it.
pub open spec fn long_start_code_at(d: Seq<u8>, i: int) -> bool {
    &&& 0 <= i
    &&& i + 4 < d.len()
    &&& d[i] == 0 && d[i + 1] == 0 && d[i + 2] == 0 && d[i + 3] == 1
}

/// A three-byte start code `00 00 01` stands at `i` and is not the tail of a
/// four-byte one, with room for a header byte after it (the scan only looks
/// at positions `i` with `i + 4 < d.len()`).
pub open spec fn short_start_code_at(d: Seq<u8>, i: int) -> bool {
    &&& 0 <= i
    &&& i + 4 < d.len()
    &&& d[i] == 0 && d[i + 1] == 0 && d[i + 2] == 1
    &&& (i == 0 || d[i - 1] != 0)
}

/// A new access unit begins at position `i`.
pub open spec fn access_unit_starts_at(d: Seq<u8>, i: int) -> bool {
    ||| long_start_code_at(d, i) && opens_access_unit(nal_type(d[i + 4]))
    ||| short_start_code_at(d, i) && opens_access_unit(nal_type(d[i + 3]))
}

/// An IDR slice begins at position `i`.
pub open spec fn idr_starts_at(d: Seq<u8>, i: int) -> bool {
    ||| long_start_code_at(d, i) && nal_type(d[i + 4]) == 5
    ||| short_start_code_at(d, i) && nal_type(d[i + 3]) == 5
}

/// The bytes hold an IDR slice.
pub open spec fn has_idr(d: Seq<u8>) -> bool {
    exists|i: int| idr_starts_at(d, i)
}

/// The first position at or after `i` where a new access unit begins.
pub open spec fn first_boundary(d: Seq<u8>, i: nat) -> Option<nat>
    decreases d.len() - i,
{
    if i + 4 >= d.len() {
        None
    } else if access_unit_starts_at(d, i as int) {
        Some(i)
    } else {
        first_boundary(d, i + 1)
    }
}

/// `first_boundary` is the least position at or after `i` where an access unit
/// begins.
pub proof fn lemma_first_boundary(d: Seq<u8>, i: nat)
    ensures
        match first_boundary(d, i) {
            Some(b) => {
                &&& i <= b
                &&& b + 4 < d.len()
                &&& access_unit_starts_at(d, b as int)
                &&& forall|j: int| i <= j < b ==> !access_unit_starts_at(d, j)
            },
            None => forall|j: int| i <= j ==> !access_unit_starts_at(d, j),
        },
    decreases d.len() - i,
{
    if i + 4 >= d.len() {
    } else if access_unit_starts_at(d, i as int) {
    } else {
        lemma_first_boundary(d, i + 1);
        assert forall|j: int| i <= j < i + 1 implies !access_unit_starts_at(d, j) by {
            assert(j == i);
        }
    }
}

proof fn lemma_low_bits(b: u8)
    ensures
        (b & 0x1f) as int == nal_type(b),
{
    assert((b & 0x1f) == b % 32) by (bit_vector);
}

/// Finds where the next access unit begins, searching from `start`.
///
/// Returns the offset of the first start code at or after `start` that opens a
/// new access unit, or `None` when there is none.
pub fn find_access_unit_boundary(data: &[u8], start: usize) -> (r: Option<usize>)
    ensures
        match r {
            Some(b) => {
                &&& start <= b
                &&& access_unit_starts_at(data@, b as int)
                &&& forall|j: int| start <= j < b ==> !access_unit_starts_at(data@, j)
            },
            None => forall|j: int| start <= j ==> !access_unit_starts_at(data@, j),
        },
        r == (match first_boundary(data@, start as nat) {
            Some(b) => Some(b as usize),
            None => None::<usize>,
        }),
{
    proof {
        lemma_first_boundary(data@, start as nat);
    }
    let len = data.len();
    let mut i = start;
    while i < len && len - i > 4
        invariant
            start <= i,
            len == data@.len(),
            first_boundary(data@, start as nat) == first_boundary(data@, i as nat),
        decreases len - i,
    {
        let d = data;
        if d[i] == 0 && d[i + 1] == 0 && d[i + 2] == 0 && d[i + 3] == 1 {
            let t = d[i + 4] & 0x1F;
            proof {
                lemma_low_bits(d@[i + 4]);
            }
            if t == 1 || t == 5 || t == 7 {
                assert(access_unit_starts_at(data@, i as int));
                assert(first_boundary(data@, i as nat) == Some(i as nat));
                proof {
                    lemma_first_boundary(data@, start as nat);
                }
                return Some(i);
            }
        }
        if d[i] == 0 && d[i + 1] == 0 && d[i + 2] == 1 && (i == 0 || d[i - 1] != 0) {
            let t = d[i + 3] & 0x1F;
            proof {
                lemma_low_bits(d@[i + 3]);
            }
            if t == 1 || t == 5 || t == 7 {
                assert(access_unit_starts_at(data@, i as int));
                assert(first_boundary(data@, i as nat) == Some(i as nat));
                proof {
                    lemma_first_boundary(data@, start as nat);
                }
                return Some(i);
            }
        }
        i = i + 1;
    }
    None
}

/// Whether an access unit holds an IDR slice, that is, is a keyframe.
pub fn contains_idr(data: &[u8]) -> (r: bool)
    ensures
        r == has_idr(data@),
{
    let len = data.len();
    let mut i: usize = 0;
    while i < len && len - i > 4
        invariant
            len == data@.len(),
            forall|j: int| 0 <= j < i ==> !idr_starts_at(data@, j),
        decreases len - i,
    {
        let d = data;
        if d[i] == 0 && d[i + 1] == 0 && d[i + 2] == 0 && d[i + 3] == 1 {
            let t = d[i + 4] & 0x1F;
            proof {
                lemma_low_bits(d@[i + 4]);
            }
            if t == 5 {
                assert(idr_starts_at(data@, i as int));
                return true;
            }
        }
        if d[i] == 0 && d[i + 1] == 0 && d[i + 2] == 1 && (i == 0 || d[i - 1] != 0) {
            let t = d[i + 3] & 0x1F;
            proof {
                lemma_low_bits(d@[i + 3]);
            }
            if t == 5 {
                assert(idr_starts_at(data@, i as int));
                return true;
            }
        }
        i = i + 1;
    }
    assert forall|j: int| !idr_starts_at(data@, j) by {
        if 0 <= j < i {
        }
    }
    false
}

/// The access units that can be cut off the front of `buf` when the first
/// one is searched for after position `from`: each reaches up to the next
/// position where an access unit begins. The last, still open unit is not
/// among them.
pub open spec fn complete_units(buf: Seq<u8>, from: nat) -> Seq<Seq<u8>>
    decreases buf.len(),
{
    match first_boundary(buf, from + 1) {
        Some(b) => {
            proof {
                lemma_first_boundary(buf, from + 1);
            }
            seq![buf.take(b as int)] + complete_units(buf.skip(b as int), 0)
        },
        None => seq![],
    }
}

/// What stays of `buf` once `complete_units(buf, from)` are cut off.
pub open spec fn open_unit(buf: Seq<u8>, from: nat) -> Seq<u8>
    decreases buf.len(),
{
    match first_boundary(buf, from + 1) {
        Some(b) => {
            proof {
                lemma_first_boundary(buf, from + 1);
            }
            open_unit(buf.skip(b as int), 0)
        },
        None => buf,
    }
}

/// Cutting the complete units off and keeping the open one loses and adds no
/// byte: their concatenation is the buffer again.
pub proof fn lemma_units_concat(buf: Seq<u8>, from: nat)
    ensures
        complete_units(buf, from).flatten() + open_unit(buf, from) == buf,
    decreases buf.len(),
{
    match first_boundary(buf, from + 1) {
        Some(b) => {
            lemma_first_boundary(buf, from + 1);
            let rest = buf.skip(b as int);
            lemma_units_concat(rest, 0);
            let units = complete_units(buf, from);
            assert(units.first() == buf.take(b as int));
            assert(units.drop_first() =~= complete_units(rest, 0));
            assert(buf.take(b as int) + rest =~= buf);
            assert(units.flatten() == buf.take(b as int) + complete_units(rest, 0).flatten());
            assert((buf.take(b as int) + complete_units(rest, 0).flatten()) + open_unit(rest, 0)
                =~= buf.take(b as int) + (complete_units(rest, 0).flatten() + open_unit(rest, 0)));
        },
        None => {
            assert(complete_units(buf, from) =~= Seq::<Seq<u8>>::empty());
            assert(Seq::<u8>::empty() + buf =~= buf);
        },
    }
}

/// Whether an access unit begins at `j` is decided by the bytes from `j - 1`
/// to `j + 4`: bytes appended after them change nothing.
proof fn lemma_starts_at_extend(x: Seq<u8>, c: Seq<u8>, j: int)
    requires
        0 <= j,
        j + 4 < x.len(),
    ensures
        access_unit_starts_at(x + c, j) == access_unit_starts_at(x, j),
{
    let d = x + c;
    assert(d[j] == x[j] && d[j + 1] == x[j + 1] && d[j + 2] == x[j + 2]);
    assert(d[j + 3] == x[j + 3] && d[j + 4] == x[j + 4]);
    if j > 0 {
        assert(d[j - 1] == x[j - 1]);
    }
}

/// A boundary found in a buffer is still the first one found once more bytes
/// are appended.
proof fn lemma_first_boundary_extend(x: Seq<u8>, c: Seq<u8>, i: nat)
    requires
        first_boundary(x, i) is Some,
    ensures
        first_boundary(x + c, i) == first_boundary(x, i),
    decreases x.len() - i,
{
    lemma_starts_at_extend(x, c, i as int);
    if !access_unit_starts_at(x, i as int) {
        lemma_first_boundary_extend(x, c, i + 1);
    }
}

/// Skipping positions where no access unit begins does not change the first
/// boundary found.
proof fn lemma_first_boundary_skip(d: Seq<u8>, i: nat, s: nat)
    requires
        i <= s,
        forall|j: int| i <= j < s ==> !access_unit_starts_at(d, j),
    ensures
        first_boundary(d, i) == first_boundary(d, s),
    decreases s - i,
{
    if i < s && i + 4 < d.len() {
        lemma_first_boundary_skip(d, i + 1, s);
    } else if i < s {
        lemma_first_boundary_none_after(d, i, s);
    }
}

proof fn lemma_first_boundary_none_after(d: Seq<u8>, i: nat, s: nat)
    requires
        i <= s,
        i + 4 >= d.len(),
    ensures
        first_boundary(d, s) is None,
{
}

/// What is left open after cutting a buffer holds no further boundary.
pub proof fn lemma_open_unit_has_no_boundary(x: Seq<u8>)
    ensures
        first_boundary(open_unit(x, 0), 1) is None,
    decreases x.len(),
{
    match first_boundary(x, 1) {
        Some(b) => {
            lemma_first_boundary(x, 1);
            lemma_open_unit_has_no_boundary(x.skip(b as int));
        },
        None => {},
    }
}

/// When `p` holds no boundary, the units of `p + c` are found by a search
/// that starts at any position up to four bytes before the end of `p`.
pub proof fn lemma_resume_search(p: Seq<u8>, c: Seq<u8>, s: nat)
    requires
        first_boundary(p, 1) is None,
        1 <= s,
        s == 1 || s + 4 <= p.len(),
    ensures
        complete_units(p + c, (s - 1) as nat) == complete_units(p + c, 0),
        open_unit(p + c, (s - 1) as nat) == open_unit(p + c, 0),
{
    lemma_first_boundary(p, 1);
    assert forall|j: int| 1 <= j < s implies !access_unit_starts_at(p + c, j) by {
        lemma_starts_at_extend(p, c, j);
    }
    lemma_first_boundary_skip(p + c, 1, s);
}

/// The units cut from a stream do not depend on where it is split: cutting
/// `x + c` gives the units of `x`, then those cut from the open unit of `x`
/// followed by `c`, and leaves the same open unit.
pub proof fn lemma_units_extend(x: Seq<u8>, c: Seq<u8>)
    ensures
        complete_units(x + c, 0) == complete_units(x, 0) + complete_units(open_unit(x, 0) + c, 0),
        open_unit(x + c, 0) == open_unit(open_unit(x, 0) + c, 0),
    decreases x.len(),
{
    match first_boundary(x, 1) {
        Some(b) => {
            lemma_first_boundary(x, 1);
            lemma_first_boundary_extend(x, c, 1);
            let rest = x.skip(b as int);
            assert((x + c).skip(b as int) =~= rest + c);
            assert((x + c).take(b as int) =~= x.take(b as int));
            lemma_units_extend(rest, c);
            assert(complete_units(x + c, 0) =~= complete_units(x, 0) + complete_units(
                open_unit(x, 0) + c,
                0,
            ));
        },
        None => {
            assert(complete_units(x, 0) =~= Seq::<Seq<u8>>::empty());
            assert(complete_units(x + c, 0) =~= complete_units(x, 0) + complete_units(
                open_unit(x, 0) + c,
                0,
            ));
        },
    }
}

} // verus!
