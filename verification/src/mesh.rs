//! Face records of a triangle mesh: from a line of text to the corners of a
//! triangle in the point buffer.

use vstd::prelude::*;
use crate::error::SceneError;
use crate::utils::Vec3Idx;

verus! {

/// The byte is an ASCII digit.
pub open spec fn is_digit(b: u8) -> bool {
    0x30 <= b <= 0x39
}

/// How many digits the bytes begin with.
pub open spec fn digit_run(s: Seq<u8>) -> nat
    decreases s.len(),
{
    if s.len() > 0 && is_digit(s[0]) {
        1 + digit_run(s.drop_first())
    } else {
        0
    }
}

/// The number that a run of digits writes in base ten.
pub open spec fn decimal(s: Seq<u8>) -> nat
    decreases s.len(),
{
    if s.len() == 0 {
        0
    } else {
        decimal(s.drop_last()) * 10 + (s.last() - 0x30) as nat
    }
}

/// How many bytes come before the first space, or the length if there is none.
pub open spec fn field_len(s: Seq<u8>) -> nat
    decreases s.len(),
{
    if s.len() > 0 && s[0] != 0x20 {
        1 + field_len(s.drop_first())
    } else {
        0
    }
}

/// The index that one field of a face record stands for: the number written
/// by the digits it begins with. What follows the digits, such as the texture
/// and normal references behind a slash, is passed over. A field that begins
/// with no digit, or whose number does not fit in 32 bits with a sign, stands
/// for nothing.
pub open spec fn field_index(field: Seq<u8>) -> Option<i32> {
    let digits = field.take(digit_run(field) as int);
    if digits.len() == 0 || decimal(digits) > i32::MAX {
        None
    } else {
        Some(decimal(digits) as i32)
    }
}

/// The indices that the fields of `s` stand for, in their order. Fields are
/// separated by single spaces.
pub open spec fn field_indices(s: Seq<u8>) -> Seq<i32>
    decreases s.len(),
{
    let n = field_len(s) as int;
    let head = match field_index(s.take(n)) {
        Some(v) => seq![v],
        None => seq![],
    };
    if n >= s.len() {
        head
    } else {
        head + field_indices(s.skip(n + 1))
    }
}

/// The indices of a face record: a line that begins with `f` and a space,
/// followed by its fields. Any other line is no face record.
pub open spec fn face_record(line: Seq<u8>) -> Option<Seq<i32>> {
    if line.len() >= 2 && line[0] == 0x66 && line[1] == 0x20 {
        Some(field_indices(line.skip(2)))
    } else {
        None
    }
}

/// A face index names a point that the buffer can hold: the record counts the
/// points of its own mesh from 1, the mesh has `points_len` points, they begin
/// at `points_offset` in the buffer, and the buffer's indices have 32 bits.
pub open spec fn names_point(index: i32, points_len: usize, points_offset: usize) -> bool {
    1 <= index <= points_len && index - 1 + points_offset <= u32::MAX
}

/// The corners of the triangle that a face record names, as places in the
/// buffer. A record with an index that names no point names no triangle.
pub open spec fn face_points(face: Seq<i32>, points_len: usize, points_offset: usize) -> Option<
    Seq<Vec3Idx>,
> {
    if forall|k: int| 0 <= k < face.len() ==> names_point(#[trigger] face[k], points_len, points_offset) {
        Some(Seq::new(face.len(), |k: int| (face[k] - 1 + points_offset) as u32))
    } else {
        None
    }
}

proof fn lemma_digit_run(s: Seq<u8>, n: int)
    requires
        0 <= n <= s.len(),
        forall|i: int| 0 <= i < n ==> is_digit(#[trigger] s[i]),
        n == s.len() || !is_digit(s[n]),
    ensures
        digit_run(s) == n,
    decreases n,
{
    if n > 0 {
        let rest = s.drop_first();
        assert forall|i: int| 0 <= i < n - 1 implies is_digit(#[trigger] rest[i]) by {
            assert(rest[i] == s[i + 1]);
        }
        lemma_digit_run(rest, n - 1);
    }
}

proof fn lemma_field_len(s: Seq<u8>, n: int)
    requires
        0 <= n <= s.len(),
        forall|i: int| 0 <= i < n ==> #[trigger] s[i] != 0x20,
        n == s.len() || s[n] == 0x20,
    ensures
        field_len(s) == n,
    decreases n,
{
    if n > 0 {
        let rest = s.drop_first();
        assert forall|i: int| 0 <= i < n - 1 implies #[trigger] rest[i] != 0x20 by {
            assert(rest[i] == s[i + 1]);
        }
        lemma_field_len(rest, n - 1);
    }
}

/// One more digit: ten times the number so far, plus the digit.
proof fn lemma_decimal_step(s: Seq<u8>, k: int)
    requires
        0 <= k < s.len(),
    ensures
        decimal(s.take(k + 1)) == decimal(s.take(k)) * 10 + (s[k] - 0x30) as nat,
{
    assert(s.take(k + 1).drop_last() =~= s.take(k));
}

/// Reads one field that starts at `start`. Returns the index it stands for
/// and the place where the field ends.
fn read_field(line: &[u8], start: usize) -> (r: (Option<i32>, usize))
    requires
        start <= line@.len(),
    ensures
        r.1 == start + field_len(line@.skip(start as int)),
        r.1 <= line@.len(),
        r.0 == field_index(line@.subrange(start as int, r.1 as int)),
{
    let ghost rest = line@.skip(start as int);
    // The digits the field begins with, as a number; `big` once it is out of range.
    let mut value: u64 = 0;
    let mut big = false;
    let mut p: usize = start;
    while p < line.len() && line[p] >= 0x30 && line[p] <= 0x39
        invariant
            start <= p <= line@.len(),
            rest == line@.skip(start as int),
            forall|i: int| 0 <= i < p - start ==> is_digit(#[trigger] rest[i]),
            big <==> decimal(rest.take(p - start)) > i32::MAX,
            !big ==> value == decimal(rest.take(p - start)),
            value <= i32::MAX,
        decreases line@.len() - p,
    {
        proof {
            lemma_decimal_step(rest, p - start);
            assert(rest[p - start] == line@[p as int]);
        }
        if !big {
            let next: u64 = value * 10 + (line[p] - 0x30) as u64;
            if next > 0x7fff_ffff {
                big = true;
            } else {
                value = next;
            }
        }
        p = p + 1;
    }
    let digits_end: usize = p;
    while p < line.len() && line[p] != 0x20
        invariant
            digits_end <= p <= line@.len(),
            start <= digits_end,
            rest == line@.skip(start as int),
            forall|i: int| 0 <= i < p - start ==> #[trigger] rest[i] != 0x20,
        decreases line@.len() - p,
    {
        assert(rest[p - start] == line@[p as int]);
        p = p + 1;
    }
    proof {
        let field = line@.subrange(start as int, p as int);
        let n = digits_end - start;
        assert(p < line@.len() ==> rest[p - start] == line@[p as int]);
        lemma_field_len(rest, p - start);
        assert forall|i: int| 0 <= i < n implies is_digit(#[trigger] field[i]) by {
            assert(field[i] == rest[i]);
        }
        if digits_end < p {
            assert(field[n] == line@[digits_end as int]);
        }
        lemma_digit_run(field, n);
        assert(field.take(n) =~= rest.take(n));
    }
    if digits_end == start || big {
        (None, p)
    } else {
        (Some(value as i32), p)
    }
}

/// Reads a line of a mesh file as a face record. `None` when the line is no
/// face record; else the indices that its fields stand for, in their order,
/// fields that stand for nothing left out.
pub fn face_indices(line: &[u8]) -> (r: Option<Vec<i32>>)
    ensures
        r is Some <==> face_record(line@) is Some,
        r matches Some(v) ==> Some(v@) == face_record(line@),
{
    if !(line.len() >= 2 && line[0] == 0x66 && line[1] == 0x20) {
        return None;
    }
    let mut found: Vec<i32> = Vec::new();
    let mut start: usize = 2;
    let mut done = false;
    while !done
        invariant
            2 <= start <= line@.len(),
            !done ==> field_indices(line@.skip(2)) == found@ + field_indices(line@.skip(start as int)),
            done ==> field_indices(line@.skip(2)) == found@,
        decreases line@.len() - start + if done { 0int } else { 1int },
    {
        let ghost rest = line@.skip(start as int);
        let ghost before = found@;
        let (index, end) = read_field(line, start);
        proof {
            assert(rest.take(end - start) =~= line@.subrange(start as int, end as int));
        }
        match index {
            Some(v) => {
                found.push(v);
            },
            None => {},
        }
        if end >= line.len() {
            proof {
                assert(found@ =~= before + field_indices(rest));
            }
            done = true;
        } else {
            proof {
                assert(rest.skip(end - start + 1) =~= line@.skip(end + 1));
                assert(found@ + field_indices(line@.skip(end + 1)) =~= before + field_indices(rest));
            }
            start = end + 1;
        }
    }
    Some(found)
}

/// The corners of the triangle that a face record names, as indices into the
/// point buffer: see `face_points`. The record must have exactly three
/// indices.
pub fn face_corners(face: &Vec<i32>, points_len: usize, points_offset: usize) -> (r: Option<
    [Vec3Idx; 3],
>)
    requires
        face@.len() == 3,
    ensures
        r is Some <==> face_points(face@, points_len, points_offset) is Some,
        r matches Some(corners) ==> Some(corners@) == face_points(face@, points_len, points_offset),
{
    let a = buffer_index(face[0], points_len, points_offset);
    let b = buffer_index(face[1], points_len, points_offset);
    let c = buffer_index(face[2], points_len, points_offset);
    match (a, b, c) {
        (Some(a), Some(b), Some(c)) => {
            let corners: [Vec3Idx; 3] = [a, b, c];
            proof {
                assert forall|k: int| 0 <= k < 3 implies names_point(
                    #[trigger] face@[k],
                    points_len,
                    points_offset,
                ) by {
                    assert(k == 0 || k == 1 || k == 2);
                }
                assert(corners@ =~= face_points(face@, points_len, points_offset)->0);
            }
            Some(corners)
        },
        _ => {
            proof {
                assert(!names_point(face@[0], points_len, points_offset) || !names_point(
                    face@[1],
                    points_len,
                    points_offset,
                ) || !names_point(face@[2], points_len, points_offset));
            }
            None
        },
    }
}

/// The corners of the triangle that a face record names, for a record of any
/// length: a record that does not have exactly three indices is refused, by
/// the name `NotATriangle`, and any other is read as by `face_corners` and is
/// never refused.
pub fn try_face_corners(face: &Vec<i32>, points_len: usize, points_offset: usize) -> (r: Result<
    Option<[Vec3Idx; 3]>,
    SceneError,
>)
    ensures
        face@.len() == 3 <==> r is Ok,
        r matches Err(refusal) ==> refusal == SceneError::NotATriangle,
        r matches Ok(found) ==> {
            &&& found is Some <==> face_points(face@, points_len, points_offset) is Some
            &&& found matches Some(corners) ==> Some(corners@) == face_points(
                face@,
                points_len,
                points_offset,
            )
        },
{
    if face.len() != 3 {
        return Err(SceneError::NotATriangle);
    }
    Ok(face_corners(face, points_len, points_offset))
}

/// The place in the buffer of the point that a face index names, if it names
/// one.
fn buffer_index(index: i32, points_len: usize, points_offset: usize) -> (r: Option<Vec3Idx>)
    ensures
        r is Some <==> names_point(index, points_len, points_offset),
        r matches Some(at) ==> at == index - 1 + points_offset,
{
    if index < 1 || (index as u64) > points_len as u64 {
        return None;
    }
    // Wide enough for the sum of any index and any offset.
    let at: u128 = (index as u128 - 1) + points_offset as u128;
    if at > 0xffff_ffff {
        None
    } else {
        Some(at as u32)
    }
}

} // verus!
