//! Directional face store: six ordered face lists and the derived
//! visibility mask.

use vstd::prelude::*;

use crate::direction::Direction;
use crate::face::FaceData;
use crate::face::is_zero_face;

verus! {

/// 1 when the sequence holds at least one face, else 0.
pub open spec fn nonempty_bit(s: Seq<FaceData>) -> u32 {
    if s.len() == 0 {
        0u32
    } else {
        1u32
    }
}

/// The 6-bit visibility mask of six face lists: bit i is set iff list
/// i is non-empty, in the fixed order Up=0 .. Back=5.
pub open spec fn mask_of(ss: Seq<Seq<FaceData>>) -> u32 {
    nonempty_bit(ss[0]) | (nonempty_bit(ss[1]) << 1u32) | (nonempty_bit(ss[2]) << 2u32)
        | (nonempty_bit(ss[3]) << 3u32) | (nonempty_bit(ss[4]) << 4u32)
        | (nonempty_bit(ss[5]) << 5u32)
}

/// Inclusive prefix sum: the total face count of lists 0 ..= i.
pub open spec fn prefix_total(ss: Seq<Seq<FaceData>>, i: int) -> int
    decreases i + 1,
{
    if i < 0 {
        0
    } else {
        prefix_total(ss, i - 1) + ss[i].len()
    }
}

/// The total face count across all six lists.
pub open spec fn total_of(ss: Seq<Seq<FaceData>>) -> int {
    prefix_total(ss, 5)
}

/// All six lists joined in direction order, each list kept in its own
/// insertion order.
pub open spec fn concat_of(ss: Seq<Seq<FaceData>>) -> Seq<FaceData> {
    ss[0] + ss[1] + ss[2] + ss[3] + ss[4] + ss[5]
}

/// Six ordered sequences of face descriptors, one per direction, with
/// a cached visibility mask that is recomputed on every mutation.
#[derive(Debug)]
pub struct FaceStore {
    up: Vec<FaceData>,
    down: Vec<FaceData>,
    left: Vec<FaceData>,
    right: Vec<FaceData>,
    front: Vec<FaceData>,
    back: Vec<FaceData>,
    mask: u32,
}

/// Appends every element of `src` to `dst`, in order.
fn append_faces(dst: &mut Vec<FaceData>, src: &Vec<FaceData>)
    ensures
        final(dst)@ == old(dst)@ + src@,
{
    proof {
        assert(dst@ =~= old(dst)@ + src@.subrange(0, 0));
    }
    let mut i: usize = 0;
    while i < src.len()
        invariant
            i <= src.len(),
            dst@ == old(dst)@ + src@.subrange(0, i as int),
        decreases src.len() - i,
    {
        dst.push(src[i]);
        i = i + 1;
        proof {
            assert(dst@ =~= old(dst)@ + src@.subrange(0, i as int));
        }
    }
    proof {
        assert(src@.subrange(0, src@.len() as int) =~= src@);
    }
}

/// Returns a copy of `src` with the same contents.
fn copy_faces(src: &Vec<FaceData>) -> (r: Vec<FaceData>)
    ensures
        r@ == src@,
{
    let mut r: Vec<FaceData> = Vec::new();
    append_faces(&mut r, src);
    proof {
        assert(r@ =~= src@);
    }
    r
}

impl FaceStore {
    /// The Up face list.
    pub closed spec fn up_seq(self) -> Seq<FaceData> {
        self.up@
    }

    /// The Down face list.
    pub closed spec fn down_seq(self) -> Seq<FaceData> {
        self.down@
    }

    /// The Left face list.
    pub closed spec fn left_seq(self) -> Seq<FaceData> {
        self.left@
    }

    /// The Right face list.
    pub closed spec fn right_seq(self) -> Seq<FaceData> {
        self.right@
    }

    /// The Front face list.
    pub closed spec fn front_seq(self) -> Seq<FaceData> {
        self.front@
    }

    /// The Back face list.
    pub closed spec fn back_seq(self) -> Seq<FaceData> {
        self.back@
    }

    /// The six face lists in the fixed direction order.
    pub open spec fn seqs(self) -> Seq<Seq<FaceData>> {
        seq![
            self.up_seq(),
            self.down_seq(),
            self.left_seq(),
            self.right_seq(),
            self.front_seq(),
            self.back_seq(),
        ]
    }

    /// The store is well formed when its cached mask agrees with the
    /// emptiness of the six lists. Every constructor establishes this
    /// and every mutation re-establishes it before returning.
    pub closed spec fn wf(self) -> bool {
        self.mask == mask_of(self.seqs())
    }

    /// Creates a store with all six directions empty.
    pub fn new() -> (s: Self)
        ensures
            s.wf(),
            forall|i: int| 0 <= i < 6 ==> s.seqs()[i] == Seq::<FaceData>::empty(),
    {
        let mut s = Self {
            up: Vec::new(),
            down: Vec::new(),
            left: Vec::new(),
            right: Vec::new(),
            front: Vec::new(),
            back: Vec::new(),
            mask: 0,
        };
        s.update_mask();
        s
    }

    /// Creates a store from one face list per direction, in the fixed
    /// order, and computes its mask.
    pub fn from_parts(
        up: Vec<FaceData>,
        down: Vec<FaceData>,
        left: Vec<FaceData>,
        right: Vec<FaceData>,
        front: Vec<FaceData>,
        back: Vec<FaceData>,
    ) -> (s: Self)
        ensures
            s.wf(),
            s.seqs() == seq![up@, down@, left@, right@, front@, back@],
    {
        let ghost target = seq![up@, down@, left@, right@, front@, back@];
        let mut s = Self { up, down, left, right, front, back, mask: 0 };
        proof {
            assert(s.seqs() =~= target);
        }
        s.update_mask();
        s
    }

    /// Recomputes the cached visibility mask from the six lists. Called
    /// after every mutation; the lists themselves are untouched.
    pub fn update_mask(&mut self)
        ensures
            final(self).seqs() == old(self).seqs(),
            final(self).wf(),
    {
        let bit_up: u32 = if self.up.len() == 0 { 0 } else { 1 };
        let bit_down: u32 = if self.down.len() == 0 { 0 } else { 1 };
        let bit_left: u32 = if self.left.len() == 0 { 0 } else { 1 };
        let bit_right: u32 = if self.right.len() == 0 { 0 } else { 1 };
        let bit_front: u32 = if self.front.len() == 0 { 0 } else { 1 };
        let bit_back: u32 = if self.back.len() == 0 { 0 } else { 1 };

        self.mask = bit_up | (bit_down << 1u32) | (bit_left << 2u32) | (bit_right << 3u32)
            | (bit_front << 4u32) | (bit_back << 5u32);

        proof {
            assert(self.seqs() =~= old(self).seqs());
        }
    }

    /// Overwrites one direction's face list and recomputes the mask.
    pub fn replace(&mut self, direction: Direction, faces: Vec<FaceData>)
        ensures
            final(self).wf(),
            final(self).seqs() == old(self).seqs().update(direction.index_spec(), faces@),
    {
        let ghost fv = faces@;
        match direction {
            Direction::UP => self.up = faces,
            Direction::DOWN => self.down = faces,
            Direction::LEFT => self.left = faces,
            Direction::RIGHT => self.right = faces,
            Direction::FRONT => self.front = faces,
            Direction::BACK => self.back = faces,
        }
        self.update_mask();
        proof {
            assert(self.seqs() =~= old(self).seqs().update(direction.index_spec(), fv));
        }
    }

    /// Returns the visibility mask: bit i set iff direction i has at
    /// least one face.
    pub fn mask(&self) -> (m: u32)
        requires
            self.wf(),
        ensures
            m == mask_of(self.seqs()),
            m < 64,
    {
        proof {
            lemma_mask_six_bits(self.seqs());
        }
        self.mask
    }

    /// Joins the six lists into one, in direction order, each list in
    /// insertion order.
    pub fn concat_all(&self) -> (r: Vec<FaceData>)
        ensures
            r@ == concat_of(self.seqs()),
    {
        let mut r: Vec<FaceData> = Vec::new();
        append_faces(&mut r, &self.up);
        append_faces(&mut r, &self.down);
        append_faces(&mut r, &self.left);
        append_faces(&mut r, &self.right);
        append_faces(&mut r, &self.front);
        append_faces(&mut r, &self.back);
        proof {
            assert(r@ =~= concat_of(self.seqs()));
        }
        r
    }

    /// Returns the six inclusive cumulative counts: entry i is the
    /// total face count of directions 0 ..= i.
    pub fn prefix_offsets(&self) -> (r: Vec<u32>)
        requires
            total_of(self.seqs()) <= u32::MAX,
        ensures
            r@.len() == 6,
            forall|i: int| 0 <= i < 6 ==> r@[i] == prefix_total(self.seqs(), i),
    {
        proof {
            lemma_prefix_unfold(self.seqs());
        }
        let o0: u32 = self.up.len() as u32;
        let o1: u32 = o0 + self.down.len() as u32;
        let o2: u32 = o1 + self.left.len() as u32;
        let o3: u32 = o2 + self.right.len() as u32;
        let o4: u32 = o3 + self.front.len() as u32;
        let o5: u32 = o4 + self.back.len() as u32;
        let mut r: Vec<u32> = Vec::new();
        r.push(o0);
        r.push(o1);
        r.push(o2);
        r.push(o3);
        r.push(o4);
        r.push(o5);
        r
    }

    /// The total face count across all six directions.
    pub fn total_count(&self) -> (n: u32)
        requires
            total_of(self.seqs()) <= u32::MAX,
        ensures
            n == total_of(self.seqs()),
    {
        let offsets = self.prefix_offsets();
        offsets[5]
    }

    /// Returns the contents to allocate for one direction's GPU buffer:
    /// the direction's faces, or a single all-zero placeholder face when
    /// the list is empty, since the downstream GPU API rejects
    /// zero-length buffers. The visibility mask is unaffected and still
    /// reports the direction as empty.
    pub fn direction_contents(&self, direction: Direction) -> (r: Vec<FaceData>)
        ensures
            self.seqs()[direction.index_spec()].len() == 0 ==> (r@.len() == 1 && is_zero_face(
                r@[0],
            )),
            self.seqs()[direction.index_spec()].len() != 0 ==> r@ == self.seqs()[
                direction.index_spec()],
    {
        let src = match direction {
            Direction::UP => &self.up,
            Direction::DOWN => &self.down,
            Direction::LEFT => &self.left,
            Direction::RIGHT => &self.right,
            Direction::FRONT => &self.front,
            Direction::BACK => &self.back,
        };
        if src.len() == 0 {
            let mut r: Vec<FaceData> = Vec::new();
            r.push(FaceData::default());
            r
        } else {
            copy_faces(src)
        }
    }
}

/// Unfolds the six prefix sums, so that each cumulative count is
/// visible as the sum of the list lengths it covers.
pub proof fn lemma_prefix_unfold(ss: Seq<Seq<FaceData>>)
    ensures
        prefix_total(ss, 0) == ss[0].len(),
        prefix_total(ss, 1) == prefix_total(ss, 0) + ss[1].len(),
        prefix_total(ss, 2) == prefix_total(ss, 1) + ss[2].len(),
        prefix_total(ss, 3) == prefix_total(ss, 2) + ss[3].len(),
        prefix_total(ss, 4) == prefix_total(ss, 3) + ss[4].len(),
        prefix_total(ss, 5) == prefix_total(ss, 4) + ss[5].len(),
{
    assert(prefix_total(ss, -1) == 0);
    assert(prefix_total(ss, 0) == prefix_total(ss, -1) + ss[0].len());
    assert(prefix_total(ss, 1) == prefix_total(ss, 0) + ss[1].len());
    assert(prefix_total(ss, 2) == prefix_total(ss, 1) + ss[2].len());
    assert(prefix_total(ss, 3) == prefix_total(ss, 2) + ss[3].len());
    assert(prefix_total(ss, 4) == prefix_total(ss, 3) + ss[4].len());
    assert(prefix_total(ss, 5) == prefix_total(ss, 4) + ss[5].len());
}

/// Law: the cumulative counts never decrease.
pub proof fn lemma_prefix_monotone(ss: Seq<Seq<FaceData>>, i: int, j: int)
    requires
        -1 <= i <= j <= 5,
    ensures
        prefix_total(ss, i) <= prefix_total(ss, j),
    decreases j - i,
{
    if i < j {
        lemma_prefix_monotone(ss, i, j - 1);
    }
}

/// Law: the last cumulative count is the total face count, and every
/// cumulative count is at least zero and at most that total. This holds
/// for any combination of direction lengths, the all-empty store
/// included.
pub proof fn lemma_prefix_offsets_law(ss: Seq<Seq<FaceData>>, i: int)
    requires
        0 <= i < 6,
    ensures
        prefix_total(ss, 5) == total_of(ss),
        0 <= prefix_total(ss, i) <= total_of(ss),
{
    lemma_prefix_monotone(ss, -1, i);
    lemma_prefix_monotone(ss, i, 5);
}

/// Law: the concatenation holds exactly the total face count.
pub proof fn lemma_concat_len(ss: Seq<Seq<FaceData>>)
    ensures
        concat_of(ss).len() == total_of(ss),
{
    lemma_prefix_unfold(ss);
}

/// Law: direction i's faces sit exactly in the half-open range
/// `prefix_total(i-1) .. prefix_total(i)` of the concatenation (from 0
/// for the first direction). The GPU program locates each direction's
/// sub-range this way, which is why the concatenation order and the
/// inclusive-prefix convention are load-bearing.
pub proof fn lemma_concat_direction_range(ss: Seq<Seq<FaceData>>, i: int)
    requires
        0 <= i < 6,
    ensures
        0 <= prefix_total(ss, i - 1) <= prefix_total(ss, i) <= concat_of(ss).len(),
        concat_of(ss).subrange(prefix_total(ss, i - 1), prefix_total(ss, i)) == ss[i],
{
    lemma_prefix_unfold(ss);
    lemma_concat_len(ss);
    lemma_prefix_monotone(ss, -1, i - 1);
    lemma_prefix_monotone(ss, i - 1, i);
    lemma_prefix_monotone(ss, i, 5);
    if i == 0 {
        assert(concat_of(ss).subrange(prefix_total(ss, -1), prefix_total(ss, 0)) =~= ss[0]);
    } else if i == 1 {
        assert(concat_of(ss).subrange(prefix_total(ss, 0), prefix_total(ss, 1)) =~= ss[1]);
    } else if i == 2 {
        assert(concat_of(ss).subrange(prefix_total(ss, 1), prefix_total(ss, 2)) =~= ss[2]);
    } else if i == 3 {
        assert(concat_of(ss).subrange(prefix_total(ss, 2), prefix_total(ss, 3)) =~= ss[3]);
    } else if i == 4 {
        assert(concat_of(ss).subrange(prefix_total(ss, 3), prefix_total(ss, 4)) =~= ss[4]);
    } else {
        assert(concat_of(ss).subrange(prefix_total(ss, 4), prefix_total(ss, 5)) =~= ss[5]);
    }
}

/// Law: the visibility mask is a 6-bit value; bits above Back=5 are
/// never set.
pub proof fn lemma_mask_six_bits(ss: Seq<Seq<FaceData>>)
    ensures
        mask_of(ss) < 64,
{
    let b0 = nonempty_bit(ss[0]);
    let b1 = nonempty_bit(ss[1]);
    let b2 = nonempty_bit(ss[2]);
    let b3 = nonempty_bit(ss[3]);
    let b4 = nonempty_bit(ss[4]);
    let b5 = nonempty_bit(ss[5]);
    assert((b0 | (b1 << 1u32) | (b2 << 2u32) | (b3 << 3u32) | (b4 << 4u32) | (b5 << 5u32))
        < 64) by (bit_vector)
        requires
            b0 <= 1 && b1 <= 1 && b2 <= 1 && b3 <= 1 && b4 <= 1 && b5 <= 1,
    ;
}

/// Law: bit i of the visibility mask is 1 exactly when direction i's
/// list is non-empty. This holds immediately after every mutation,
/// since every mutation recomputes the mask.
pub proof fn lemma_mask_bit(ss: Seq<Seq<FaceData>>, i: int)
    requires
        0 <= i < 6,
    ensures
        ((mask_of(ss) >> (i as u32)) & 1 == 1) <==> ss[i].len() != 0,
{
    let b0 = nonempty_bit(ss[0]);
    let b1 = nonempty_bit(ss[1]);
    let b2 = nonempty_bit(ss[2]);
    let b3 = nonempty_bit(ss[3]);
    let b4 = nonempty_bit(ss[4]);
    let b5 = nonempty_bit(ss[5]);
    let m = mask_of(ss);
    assert(m == b0 | (b1 << 1u32) | (b2 << 2u32) | (b3 << 3u32) | (b4 << 4u32) | (b5 << 5u32));
    if i == 0 {
        assert((m >> 0u32) & 1 == b0) by (bit_vector)
            requires
                m == b0 | (b1 << 1u32) | (b2 << 2u32) | (b3 << 3u32) | (b4 << 4u32) | (b5
                    << 5u32),
                b0 <= 1 && b1 <= 1 && b2 <= 1 && b3 <= 1 && b4 <= 1 && b5 <= 1,
        ;
    } else if i == 1 {
        assert((m >> 1u32) & 1 == b1) by (bit_vector)
            requires
                m == b0 | (b1 << 1u32) | (b2 << 2u32) | (b3 << 3u32) | (b4 << 4u32) | (b5
                    << 5u32),
                b0 <= 1 && b1 <= 1 && b2 <= 1 && b3 <= 1 && b4 <= 1 && b5 <= 1,
        ;
    } else if i == 2 {
        assert((m >> 2u32) & 1 == b2) by (bit_vector)
            requires
                m == b0 | (b1 << 1u32) | (b2 << 2u32) | (b3 << 3u32) | (b4 << 4u32) | (b5
                    << 5u32),
                b0 <= 1 && b1 <= 1 && b2 <= 1 && b3 <= 1 && b4 <= 1 && b5 <= 1,
        ;
    } else if i == 3 {
        assert((m >> 3u32) & 1 == b3) by (bit_vector)
            requires
                m == b0 | (b1 << 1u32) | (b2 << 2u32) | (b3 << 3u32) | (b4 << 4u32) | (b5
                    << 5u32),
                b0 <= 1 && b1 <= 1 && b2 <= 1 && b3 <= 1 && b4 <= 1 && b5 <= 1,
        ;
    } else if i == 4 {
        assert((m >> 4u32) & 1 == b4) by (bit_vector)
            requires
                m == b0 | (b1 << 1u32) | (b2 << 2u32) | (b3 << 3u32) | (b4 << 4u32) | (b5
                    << 5u32),
                b0 <= 1 && b1 <= 1 && b2 <= 1 && b3 <= 1 && b4 <= 1 && b5 <= 1,
        ;
    } else {
        assert((m >> 5u32) & 1 == b5) by (bit_vector)
            requires
                m == b0 | (b1 << 1u32) | (b2 << 2u32) | (b3 << 3u32) | (b4 << 4u32) | (b5
                    << 5u32),
                b0 <= 1 && b1 <= 1 && b2 <= 1 && b3 <= 1 && b4 <= 1 && b5 <= 1,
        ;
    }
}

} // verus!
