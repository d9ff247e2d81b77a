//! Wire serialization of face descriptors: each record is exactly four
//! bytes, the position word little-endian first, then the two texture
//! indices. A descriptor's in-memory layout is its wire layout, so the
//! byte stream built here is uploaded to the GPU verbatim.

use vstd::prelude::*;

use crate::face::FaceData;

verus! {

/// The four wire bytes of one face record: position low byte, position
/// high byte, `u`, `v`.
pub open spec fn face_wire_bytes(f: FaceData) -> Seq<u8> {
    seq![
        (f.position_spec() & 0xff) as u8,
        ((f.position_spec() >> 8u16) & 0xff) as u8,
        f.u_spec(),
        f.v_spec(),
    ]
}

/// The wire bytes of a whole face list: each record's four bytes, in
/// list order.
pub open spec fn faces_wire_bytes(s: Seq<FaceData>) -> Seq<u8>
    decreases s.len(),
{
    if s.len() == 0 {
        Seq::empty()
    } else {
        faces_wire_bytes(s.drop_last()) + face_wire_bytes(s.last())
    }
}

/// Law: the wire form of a face list is exactly four bytes per record.
pub proof fn lemma_faces_wire_bytes_len(s: Seq<FaceData>)
    ensures
        faces_wire_bytes(s).len() == 4 * s.len(),
    decreases s.len(),
{
    if s.len() > 0 {
        lemma_faces_wire_bytes_len(s.drop_last());
    }
}

/// Appending one record to a list appends its four bytes to the wire
/// form.
pub proof fn lemma_faces_wire_bytes_push(s: Seq<FaceData>, f: FaceData)
    ensures
        faces_wire_bytes(s.push(f)) == faces_wire_bytes(s) + face_wire_bytes(f),
{
    assert(s.push(f).drop_last() =~= s);
    assert(s.push(f).last() == f);
}

/// Appends the four wire bytes of `f` to `dst`.
fn append_face_bytes(dst: &mut Vec<u8>, f: &FaceData)
    ensures
        final(dst)@ == old(dst)@ + face_wire_bytes(*f),
{
    let p = f.position();
    dst.push((p & 0xff) as u8);
    dst.push(((p >> 8u16) & 0xff) as u8);
    dst.push(f.u());
    dst.push(f.v());
    proof {
        assert(dst@ =~= old(dst)@ + face_wire_bytes(*f));
    }
}

/// Serializes a face list into its wire bytes.
pub fn faces_to_bytes(faces: &Vec<FaceData>) -> (r: Vec<u8>)
    ensures
        r@ == faces_wire_bytes(faces@),
{
    let mut r: Vec<u8> = Vec::new();
    proof {
        assert(faces@.subrange(0, 0) =~= Seq::<FaceData>::empty());
    }
    let mut i: usize = 0;
    while i < faces.len()
        invariant
            i <= faces.len(),
            r@ == faces_wire_bytes(faces@.subrange(0, i as int)),
        decreases faces.len() - i,
    {
        let f = faces[i];
        append_face_bytes(&mut r, &f);
        i = i + 1;
        proof {
            assert(faces@.subrange(0, i as int) =~= faces@.subrange(0, i as int - 1).push(
                faces@[i as int - 1],
            ));
            lemma_faces_wire_bytes_push(faces@.subrange(0, i as int - 1), faces@[i as int - 1]);
        }
    }
    proof {
        assert(faces@.subrange(0, faces@.len() as int) =~= faces@);
    }
    r
}

} // verus!
